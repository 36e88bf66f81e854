//! Proof of work: the search for a nonce that gives a hash with enough
//! leading zero nibbles, and the check of a claimed solution.
//!
//! The payload that is hashed is text: the hexadecimal form of the header
//! hash followed by the nonce in decimal.

use vstd::prelude::*;
use vstd::string::StringSliceAdditionalSpecFns;
use vstd::utf8::is_ascii_chars;
use crate::crypto::random_nonce;
use crate::hashing::{sha256, sha256_digest, DIGEST_LEN};
use crate::hexfmt::{hex_digit, hex_text, to_hex};
use crate::transactions::bytes_equal;

verus! {

/// The difficulty that the node mines at: four leading zero nibbles.
pub const DIFFICULTY: usize = 4;

/// The bytes of a text of ASCII characters.
pub open spec fn ascii_bytes(text: Seq<char>) -> Seq<u8> {
    Seq::new(text.len(), |i: int| text[i] as u8)
}

/// The ASCII digit of a number below ten.
pub open spec fn digit_byte(digit: nat) -> u8 {
    (48 + digit) as u8
}

/// The decimal digits of `value` in ASCII, without leading zeros.
pub open spec fn decimal_digits(value: nat) -> Seq<u8>
    decreases value,
{
    if value < 10 {
        seq![digit_byte(value)]
    } else {
        decimal_digits(value / 10).push(digit_byte(value % 10))
    }
}

/// The decimal text of `value` in ASCII: a minus sign before the digits of a
/// negative number.
pub open spec fn decimal_text(value: int) -> Seq<u8> {
    if value < 0 {
        seq![45u8] + decimal_digits((-value) as nat)
    } else {
        decimal_digits(value as nat)
    }
}

/// The payload for a header hash and a nonce.
pub open spec fn pow_payload(header_hash: Seq<u8>, nonce: i64) -> Seq<u8> {
    ascii_bytes(hex_text(header_hash)) + decimal_text(nonce as int)
}

/// The hash that a nonce gives for a header hash: the SHA-256 of the payload.
pub open spec fn pow_hash(header_hash: Seq<u8>, nonce: i64) -> Seq<u8> {
    sha256_digest(pow_payload(header_hash, nonce))
}

/// Whether the hexadecimal text of `hash` begins with `count` characters `0`.
pub open spec fn leading_zero_nibbles(hash: Seq<u8>, count: nat) -> bool {
    &&& count <= hex_text(hash).len()
    &&& forall|i: int| 0 <= i < count ==> #[trigger] hex_text(hash)[i] == '0'
}

/// Whether `claimed_hash` is the hash that `nonce` gives for `header_hash`:
/// what the check of a claimed solution decides.
pub open spec fn is_genuine(header_hash: Seq<u8>, claimed_hash: Seq<u8>, nonce: i64) -> bool {
    claimed_hash == pow_hash(header_hash, nonce)
}

/// Whether `hash` and `nonce` solve the proof of work for `header_hash` at
/// the given difficulty: what the search stops at.
pub open spec fn is_solution(
    header_hash: Seq<u8>,
    difficulty: nat,
    hash: Seq<u8>,
    nonce: i64,
) -> bool {
    &&& hash == pow_hash(header_hash, nonce)
    &&& leading_zero_nibbles(hash, difficulty)
}

/// The elements of `s` from the last to the first.
pub open spec fn reversed(s: Seq<u8>) -> Seq<u8> {
    Seq::new(s.len(), |i: int| s[s.len() - 1 - i])
}

/// Appends the decimal digits of `value`.
pub fn push_decimal_digits(out: &mut Vec<u8>, value: u64)
    ensures
        final(out)@ == old(out)@ + decimal_digits(value as nat),
{
    let ghost start = out@;
    let mut low_first: Vec<u8> = Vec::new();
    let mut rest: u64 = value;
    assert(decimal_digits(rest as nat) + reversed(low_first@) =~= decimal_digits(value as nat));
    while rest >= 10
        invariant
            decimal_digits(rest as nat) + reversed(low_first@) == decimal_digits(value as nat),
        decreases rest,
    {
        let ghost before = low_first@;
        let digit: u8 = 48 + (rest % 10) as u8;
        low_first.push(digit);
        proof {
            assert(reversed(low_first@) =~= seq![digit] + reversed(before));
            assert(decimal_digits((rest / 10) as nat).push(digit) + reversed(before)
                =~= decimal_digits((rest / 10) as nat) + reversed(low_first@));
        }
        rest = rest / 10;
    }
    out.push(48 + rest as u8);
    let mut left: usize = low_first.len();
    let ghost digits = low_first@;
    assert(out@ + reversed(digits).subrange(0, 0) =~= out@);
    while left > 0
        invariant
            left <= digits.len(),
            low_first@ == digits,
            out@ == start + decimal_digits(rest as nat) + reversed(digits).subrange(
                0,
                digits.len() - left,
            ),
        decreases left,
    {
        left = left - 1;
        out.push(low_first[left]);
        assert(out@ =~= start + decimal_digits(rest as nat) + reversed(digits).subrange(
            0,
            digits.len() - left,
        ));
    }
    assert(reversed(digits).subrange(0, digits.len() as int) =~= reversed(digits));
    assert(out@ =~= start + (decimal_digits(rest as nat) + reversed(digits)));
}

/// Appends the decimal text of `value`.
pub fn push_decimal(out: &mut Vec<u8>, value: i64)
    ensures
        final(out)@ == old(out)@ + decimal_text(value as int),
{
    let ghost start = out@;
    if value >= 0 {
        push_decimal_digits(out, value as u64);
    } else {
        out.push(45u8);
        let magnitude: u64 = (-(value + 1)) as u64 + 1;
        push_decimal_digits(out, magnitude);
        assert(out@ =~= start + decimal_text(value as int));
    }
}

/// The hexadecimal text of any bytes is ASCII.
pub proof fn lemma_hex_text_is_ascii(bytes: Seq<u8>)
    ensures
        is_ascii_chars(hex_text(bytes)),
{
    let text = hex_text(bytes);
    assert forall|i: int| 0 <= i < text.len() implies '\0' <= #[trigger] text[i] <= '\u{7f}' by {
        crate::hexfmt::lemma_hex_digit_value(bytes[i / 2] as int / 16);
        crate::hexfmt::lemma_hex_digit_value(bytes[i / 2] as int % 16);
    }
}

/// Builds the payload for a header hash and a nonce.
pub fn payload(header_hash: &[u8], nonce: i64) -> (bytes: Vec<u8>)
    ensures
        bytes@ == pow_payload(header_hash@, nonce),
{
    let text = to_hex(header_hash);
    let text_str = text.as_str();
    proof {
        lemma_hex_text_is_ascii(header_hash@);
        vstd::string::is_ascii_spec_bytes(text_str);
    }
    let mut out: Vec<u8> = Vec::new();
    out.extend_from_slice(text_str.as_bytes());
    assert(out@ =~= ascii_bytes(hex_text(header_hash@)));
    push_decimal(&mut out, nonce);
    out
}

/// Whether the hexadecimal text of `hash` begins with `count` characters `0`.
pub fn has_leading_zeros(hash: &[u8], count: usize) -> (enough: bool)
    ensures
        enough == leading_zero_nibbles(hash@, count as nat),
{
    if count / 2 + count % 2 > hash.len() {
        return false;
    }
    let ghost text = hex_text(hash@);
    let mut i: usize = 0;
    while i < count
        invariant
            i <= count <= 2 * hash@.len(),
            text == hex_text(hash@),
            forall|j: int| 0 <= j < i ==> #[trigger] text[j] == '0',
        decreases count - i,
    {
        let byte = hash[i / 2];
        let nibble: u8 = if i % 2 == 0 {
            byte / 16
        } else {
            byte % 16
        };
        assert(text[i as int] == hex_digit(nibble as int));
        if nibble != 0 {
            return false;
        }
        i = i + 1;
    }
    true
}

/// Tries one nonce: gives the hash where it has enough leading zero nibbles.
pub fn try_nonce(header_hash: &[u8], nonce: i64, difficulty: usize) -> (sealed: Option<Vec<u8>>)
    ensures
        sealed is Some <==> leading_zero_nibbles(pow_hash(header_hash@, nonce), difficulty as nat),
        sealed matches Some(hash) ==> hash@ == pow_hash(header_hash@, nonce) && hash@.len()
            == DIGEST_LEN,
{
    let bytes = payload(header_hash, nonce);
    let hash = sha256(bytes.as_slice());
    if has_leading_zeros(hash.as_slice(), difficulty) {
        Some(hash)
    } else {
        None
    }
}

/// Searches for a solution with random nonces, at most `max_attempts` of
/// them.
///
/// Every nonce solves the proof of work at difficulty zero, so one attempt
/// is enough there. At a higher difficulty the search may end without a
/// solution; what it returns is a solution.
pub fn proof_of_work(hash: &Vec<u8>, difficulty: usize, max_attempts: u64) -> (found: Option<
    (Vec<u8>, i64),
>)
    ensures
        found matches Some((sealed, nonce)) ==> is_solution(
            hash@,
            difficulty as nat,
            sealed@,
            nonce,
        ) && sealed@.len() == DIGEST_LEN,
        max_attempts == 0 ==> found is None,
        max_attempts > 0 && difficulty == 0 ==> found is Some,
{
    let mut attempts: u64 = 0;
    while attempts < max_attempts
        invariant
            attempts <= max_attempts,
            difficulty == 0 ==> attempts == 0,
        decreases max_attempts - attempts,
    {
        let nonce = random_nonce();
        match try_nonce(hash.as_slice(), nonce, difficulty) {
            Some(sealed) => {
                return Some((sealed, nonce));
            },
            None => {
                assert(difficulty != 0);
            },
        }
        attempts = attempts + 1;
    }
    None
}

/// Checks a claimed solution: whether `claimed_hash` is the hash that
/// `nonce` gives for `header_hash`.
pub fn verify(header_hash: &[u8], claimed_hash: &[u8], nonce: i64) -> (genuine: bool)
    ensures
        genuine == is_genuine(header_hash@, claimed_hash@, nonce),
{
    let bytes = payload(header_hash, nonce);
    let hash = sha256(bytes.as_slice());
    bytes_equal(hash.as_slice(), claimed_hash)
}

/// A hash with enough leading zero nibbles for a difficulty has enough for
/// every lower one.
pub proof fn lemma_leading_zero_nibbles_weaken(hash: Seq<u8>, more: nat, fewer: nat)
    requires
        leading_zero_nibbles(hash, more),
        fewer <= more,
    ensures
        leading_zero_nibbles(hash, fewer),
{
}

/// What the search returns passes the check, and its hexadecimal text
/// begins with as many characters `0` as the difficulty asks for.
pub proof fn lemma_solution_verifies(
    header_hash: Seq<u8>,
    difficulty: nat,
    hash: Seq<u8>,
    nonce: i64,
)
    requires
        is_solution(header_hash, difficulty, hash, nonce),
    ensures
        is_genuine(header_hash, hash, nonce),
        difficulty <= hex_text(hash).len(),
        forall|i: int| 0 <= i < difficulty ==> hex_text(hash)[i] == '0',
{
}

} // verus!
