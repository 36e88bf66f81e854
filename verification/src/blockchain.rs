//! The chain: the accepted blocks in the order of their acceptance. The last
//! of them is the tip, whose id and hash the next block builds on.

use vstd::prelude::*;
use crate::errors::CoreError;
use crate::hashing::DIGEST_LEN;
use crate::hexfmt::{decode_hex, hex_bytes, is_hex_text};
use crate::net::{NetBlock, NetBlockView, NetTransactionView};

verus! {

/// The accepted blocks, in text form as they rest in storage, oldest first.
#[derive(Debug, Clone, PartialEq, Eq)]
pub struct Chain {
    pub blocks: Vec<NetBlock>,
}

impl View for Chain {
    type V = Seq<NetBlockView>;

    open spec fn view(&self) -> Seq<NetBlockView> {
        Seq::new(self.blocks@.len(), |i: int| self.blocks@[i]@)
    }
}

/// The hash that stands for the block before the first: 32 zero bytes.
pub open spec fn zero_hash() -> Seq<u8> {
    Seq::new(DIGEST_LEN as nat, |i: int| 0u8)
}

/// The id that the next block builds on: the tip's, and 0 on an empty chain.
pub open spec fn previous_id(chain: Seq<NetBlockView>) -> i32 {
    if chain.len() == 0 {
        0
    } else {
        chain.last().id
    }
}

/// The hash that the next block builds on: the tip's, and the zero hash on
/// an empty chain; nothing where the tip's hash is not hexadecimal.
pub open spec fn previous_hash(chain: Seq<NetBlockView>) -> Option<Seq<u8>> {
    if chain.len() == 0 {
        Some(zero_hash())
    } else if is_hex_text(chain.last().hash) {
        Some(hex_bytes(chain.last().hash))
    } else {
        None
    }
}

impl Chain {
    /// The chain without a block.
    pub fn new() -> (chain: Chain)
        ensures
            chain@ == Seq::<NetBlockView>::empty(),
    {
        let chain = Chain { blocks: Vec::new() };
        assert(chain@ =~= Seq::<NetBlockView>::empty());
        chain
    }
}

/// Appends an accepted block, which becomes the tip.
pub fn add_block(chain: &mut Chain, block: NetBlock)
    ensures
        final(chain)@ == old(chain)@.push(block@),
{
    chain.blocks.push(block);
    assert(chain@ =~= old(chain)@.push(block@));
}

/// The id of the tip, and 0 where no block has been accepted.
pub fn get_previous_id(chain: &Chain) -> (id: i32)
    ensures
        id == previous_id(chain@),
{
    let count = chain.blocks.len();
    if count == 0 {
        0
    } else {
        chain.blocks[count - 1].id
    }
}

/// The hash of the tip, and the zero hash where no block has been accepted.
///
/// Fails with `SerializeError` where the stored hash of the tip is not
/// hexadecimal.
pub fn get_previous_hash(chain: &Chain) -> (hash: Result<Vec<u8>, CoreError>)
    ensures
        hash is Ok <==> previous_hash(chain@) is Some,
        hash matches Ok(bytes) ==> previous_hash(chain@) == Some(bytes@),
        hash matches Err(e) ==> e == CoreError::SerializeError,
{
    let count = chain.blocks.len();
    if count == 0 {
        let mut zeros: Vec<u8> = Vec::new();
        let mut i: usize = 0;
        while i < DIGEST_LEN
            invariant
                i <= DIGEST_LEN,
                zeros@.len() == i,
                forall|j: int| 0 <= j < i ==> zeros@[j] == 0u8,
            decreases DIGEST_LEN - i,
        {
            zeros.push(0u8);
            i = i + 1;
        }
        assert(zeros@ =~= zero_hash());
        Ok(zeros)
    } else {
        decode_hex(chain.blocks[count - 1].hash.as_str())
    }
}

/// On an empty chain the next block builds on id 0 and on the zero hash,
/// which is 32 bytes that are all zero.
pub proof fn lemma_genesis_tip()
    ensures
        previous_id(Seq::<NetBlockView>::empty()) == 0,
        previous_hash(Seq::<NetBlockView>::empty()) == Some(zero_hash()),
        zero_hash().len() == 32,
        forall|i: int| 0 <= i < 32 ==> zero_hash()[i] == 0u8,
{
}

/// The transactions of all blocks, block after block, each block's in their
/// order.
pub open spec fn ledger(chain: Seq<NetBlockView>) -> Seq<NetTransactionView>
    decreases chain.len(),
{
    if chain.len() == 0 {
        Seq::empty()
    } else {
        ledger(chain.drop_last()) + chain.last().transactions
    }
}

/// The receivers' addresses of a list of transactions, in its order.
pub open spec fn receivers(entries: Seq<NetTransactionView>) -> Seq<Seq<char>> {
    Seq::new(entries.len(), |i: int| entries[i].receiver_addr)
}

/// The senders' addresses of a list of transactions, in its order.
pub open spec fn senders(entries: Seq<NetTransactionView>) -> Seq<Seq<char>> {
    Seq::new(entries.len(), |i: int| entries[i].sender_addr)
}

/// `known`, followed by the addresses of `incoming` that are new: each in
/// the place of its first occurrence, and `skipped` left out.
pub open spec fn with_new(
    known: Seq<Seq<char>>,
    incoming: Seq<Seq<char>>,
    skipped: Option<Seq<char>>,
) -> Seq<Seq<char>>
    decreases incoming.len(),
{
    if incoming.len() == 0 {
        known
    } else {
        let before = with_new(known, incoming.drop_last(), skipped);
        let address = incoming.last();
        if before.contains(address) || skipped == Some(address) {
            before
        } else {
            before.push(address)
        }
    }
}

/// The text `0`, which stands for no sender.
pub open spec fn no_sender() -> Seq<char> {
    seq!['0']
}

/// The addresses that occur in the chain, each once: first the receivers in
/// the order of their first occurrence, then the senders that are no
/// receivers, `0` left out.
pub open spec fn addresses_of(chain: Seq<NetBlockView>) -> Seq<Seq<char>> {
    with_new(
        with_new(Seq::empty(), receivers(ledger(chain)), None),
        senders(ledger(chain)),
        Some(no_sender()),
    )
}

/// The texts that a list of strings holds.
pub open spec fn texts(list: Seq<String>) -> Seq<Seq<char>> {
    Seq::new(list.len(), |i: int| list[i]@)
}

/// Whether `list` holds `text`.
pub fn holds_text(list: &Vec<String>, text: &String) -> (held: bool)
    ensures
        held == texts(list@).contains(text@),
{
    let mut i: usize = 0;
    while i < list.len()
        invariant
            i <= list@.len(),
            forall|j: int| 0 <= j < i ==> texts(list@)[j] != text@,
        decreases list@.len() - i,
    {
        if list[i] == *text {
            assert(texts(list@)[i as int] == text@);
            return true;
        }
        i = i + 1;
    }
    false
}

/// Appends to `known` the addresses of `incoming` that it does not hold
/// yet, `skipped` left out.
pub fn add_new(known: &mut Vec<String>, incoming: &Vec<String>, skipped: Option<&String>)
    ensures
        texts(final(known)@) == with_new(
            texts(old(known)@),
            texts(incoming@),
            match skipped {
                Some(text) => Some(text@),
                None => None,
            },
        ),
{
    let ghost start = texts(known@);
    let ghost all = texts(incoming@);
    let ghost skip = match skipped {
        Some(text) => Some(text@),
        None => None,
    };
    let mut i: usize = 0;
    assert(all.take(0) =~= Seq::<Seq<char>>::empty());
    while i < incoming.len()
        invariant
            i <= incoming@.len(),
            all == texts(incoming@),
            skip == match skipped {
                Some(text) => Some(text@),
                None => None,
            },
            texts(known@) == with_new(start, all.take(i as int), skip),
        decreases incoming@.len() - i,
    {
        let address = &incoming[i];
        let ghost before = texts(known@);
        proof {
            let next = all.take(i + 1);
            assert(next.drop_last() =~= all.take(i as int));
            assert(next.last() == address@);
        }
        let is_skipped = match skipped {
            Some(text) => *text == *address,
            None => false,
        };
        if !is_skipped && !holds_text(known, address) {
            known.push(address.clone());
            assert(texts(known@) =~= before.push(address@));
        }
        i = i + 1;
    }
    assert(all.take(incoming@.len() as int) =~= all);
}

/// The receivers of a concatenation are those of its parts.
proof fn lemma_receivers_concat(first: Seq<NetTransactionView>, second: Seq<NetTransactionView>)
    ensures
        receivers(first + second) == receivers(first) + receivers(second),
        senders(first + second) == senders(first) + senders(second),
{
    assert(receivers(first + second) =~= receivers(first) + receivers(second));
    assert(senders(first + second) =~= senders(first) + senders(second));
}

/// Scans the chain for the addresses that occur in it.
///
/// Fails with `IoError` on a chain without blocks.
pub fn scan(chain: &Chain) -> (found: Result<Vec<String>, CoreError>)
    ensures
        found is Ok <==> chain@.len() > 0,
        found matches Ok(addresses) ==> texts(addresses@) == addresses_of(chain@),
        found matches Err(e) ==> e == CoreError::IoError,
{
    if chain.blocks.len() == 0 {
        return Err(CoreError::IoError);
    }
    let mut ins: Vec<String> = Vec::new();
    let mut outs: Vec<String> = Vec::new();
    let mut i: usize = 0;
    assert(chain@.take(0) =~= Seq::<NetBlockView>::empty());
    assert(texts(ins@) =~= receivers(ledger(chain@.take(0))));
    assert(texts(outs@) =~= senders(ledger(chain@.take(0))));
    while i < chain.blocks.len()
        invariant
            i <= chain.blocks@.len(),
            texts(ins@) == receivers(ledger(chain@.take(i as int))),
            texts(outs@) == senders(ledger(chain@.take(i as int))),
        decreases chain.blocks@.len() - i,
    {
        let block = &chain.blocks[i];
        let ghost earlier = ledger(chain@.take(i as int));
        let ghost entries = block@.transactions;
        let mut j: usize = 0;
        assert(texts(ins@) =~= receivers(earlier) + receivers(entries.take(0)));
        assert(texts(outs@) =~= senders(earlier) + senders(entries.take(0)));
        while j < block.transactions.len()
            invariant
                j <= block.transactions@.len(),
                entries == block@.transactions,
                texts(ins@) == receivers(earlier) + receivers(entries.take(j as int)),
                texts(outs@) == senders(earlier) + senders(entries.take(j as int)),
            decreases block.transactions@.len() - j,
        {
            let tx = &block.transactions[j];
            let ghost ins_before = texts(ins@);
            let ghost outs_before = texts(outs@);
            ins.push(tx.receiver_addr.clone());
            outs.push(tx.sender_addr.clone());
            proof {
                assert(entries[j as int] == tx@);
                assert(texts(ins@) =~= ins_before.push(tx@.receiver_addr));
                assert(texts(outs@) =~= outs_before.push(tx@.sender_addr));
                assert(receivers(entries.take(j + 1)) =~= receivers(entries.take(j as int)).push(
                    tx@.receiver_addr,
                ));
                assert(senders(entries.take(j + 1)) =~= senders(entries.take(j as int)).push(
                    tx@.sender_addr,
                ));
            }
            assert(texts(ins@) =~= receivers(earlier) + receivers(entries.take(j + 1)));
            assert(texts(outs@) =~= senders(earlier) + senders(entries.take(j + 1)));
            j = j + 1;
        }
        proof {
            assert(entries.take(block.transactions@.len() as int) =~= entries);
            let longer = chain@.take(i + 1);
            assert(longer.drop_last() =~= chain@.take(i as int));
            assert(longer.last() == block@);
            lemma_receivers_concat(earlier, entries);
        }
        i = i + 1;
    }
    assert(chain@.take(chain.blocks@.len() as int) =~= chain@);
    let mut addresses: Vec<String> = Vec::new();
    assert(texts(addresses@) =~= Seq::<Seq<char>>::empty());
    add_new(&mut addresses, &ins, None);
    let zero = "0".to_owned();
    proof {
        reveal_strlit("0");
        assert(zero@ =~= no_sender());
    }
    add_new(&mut addresses, &outs, Some(&zero));
    Ok(addresses)
}

} // verus!
