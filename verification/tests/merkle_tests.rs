use ledger_core::merkle::get_merkle_root;
use sha2::{Digest, Sha256};

fn sha(data: &[u8]) -> Vec<u8> {
    Sha256::digest(data).to_vec()
}

fn pair(left: &[u8], right: &[u8]) -> Vec<u8> {
    let mut joined = left.to_vec();
    joined.extend_from_slice(right);
    sha(&joined)
}

fn id(seed: u8) -> Vec<u8> {
    sha(&[seed])
}

#[test]
fn root_of_nothing_is_empty() {
    assert_eq!(get_merkle_root(&vec![]), Vec::<u8>::new());
}

#[test]
fn root_of_one_id_is_that_id() {
    assert_eq!(get_merkle_root(&vec![id(1)]), id(1));
    assert_eq!(get_merkle_root(&vec![vec![7, 7, 7]]), vec![7, 7, 7]);
}

#[test]
fn root_of_two_ids_is_their_pair_hash() {
    assert_eq!(get_merkle_root(&vec![id(1), id(2)]), pair(&id(1), &id(2)));
}

#[test]
fn root_of_four_ids_pairs_twice() {
    let (h1, h2, h3, h4) = (id(1), id(2), id(3), id(4));
    let expected = pair(&pair(&h1, &h2), &pair(&h3, &h4));
    assert_eq!(get_merkle_root(&vec![h1, h2, h3, h4]), expected);
}

#[test]
fn root_of_three_ids_duplicates_the_last() {
    let (h1, h2, h3) = (id(1), id(2), id(3));
    let expected = pair(&pair(&h1, &h2), &pair(&h3, &h3));
    assert_eq!(get_merkle_root(&vec![h1, h2, h3]), expected);
}

#[test]
fn root_of_five_ids_duplicates_on_two_levels() {
    let h: Vec<Vec<u8>> = (1..=5).map(id).collect();
    let level1 = vec![pair(&h[0], &h[1]), pair(&h[2], &h[3]), pair(&h[4], &h[4])];
    let level2 = vec![pair(&level1[0], &level1[1]), pair(&level1[2], &level1[2])];
    let expected = pair(&level2[0], &level2[1]);
    assert_eq!(get_merkle_root(&h), expected);
}

#[test]
fn root_depends_on_the_order() {
    let (h1, h2, h3, h4) = (id(1), id(2), id(3), id(4));
    let straight = get_merkle_root(&vec![h1.clone(), h2.clone(), h3.clone(), h4.clone()]);
    let swapped = get_merkle_root(&vec![h2, h1, h3, h4]);
    assert_ne!(straight, swapped);
}

#[test]
fn root_of_a_known_pair() {
    let root = get_merkle_root(&vec![b"a".to_vec(), b"bc".to_vec()]);
    assert_eq!(
        hex::encode(root),
        "ba7816bf8f01cfea414140de5dae2223b00361a396177a9cb410ff61f20015ad"
    );
}

#[test]
fn root_of_several_ids_is_a_digest() {
    for count in 2..=9u8 {
        let ids: Vec<Vec<u8>> = (0..count).map(|i| vec![i; i as usize]).collect();
        assert_eq!(get_merkle_root(&ids).len(), 32);
    }
}
