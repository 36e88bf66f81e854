//! The canonical encoding: the one byte layout in which transactions and
//! block headers are hashed and signed.
//!
//! Integers are written with a fixed width, least significant byte first;
//! signed integers in two's complement. A byte string is written as its
//! length, as an integer of eight bytes, followed by its bytes. A structure
//! is the concatenation of its fields in the order of their declaration.

use vstd::prelude::*;

verus! {

/// The `width` least significant bytes of `value`, least significant first.
pub open spec fn le_bytes(value: nat, width: nat) -> Seq<u8>
    decreases width,
{
    if width == 0 {
        Seq::empty()
    } else {
        seq![(value % 256) as u8] + le_bytes(value / 256, (width - 1) as nat)
    }
}

/// The number that `bytes` spell, least significant byte first.
pub open spec fn le_value(bytes: Seq<u8>) -> nat
    decreases bytes.len(),
{
    if bytes.len() == 0 {
        0
    } else {
        bytes[0] as nat + 256 * le_value(bytes.drop_first())
    }
}

/// 256 to the power `width`.
pub open spec fn radix_pow(width: nat) -> nat
    decreases width,
{
    if width == 0 {
        1
    } else {
        256 * radix_pow((width - 1) as nat)
    }
}

/// The encoding of an unsigned integer of four bytes.
pub open spec fn u32_bytes(value: u32) -> Seq<u8> {
    le_bytes(value as nat, 4)
}

/// The encoding of a length.
pub open spec fn len_bytes(len: nat) -> Seq<u8> {
    le_bytes(len, 8)
}

/// The two's complement of `value` in `width` bytes, as a natural number.
pub open spec fn twos_complement(value: int, width: nat) -> nat {
    if value >= 0 {
        value as nat
    } else {
        (value + radix_pow(width)) as nat
    }
}

/// The encoding of a signed integer of four bytes.
pub open spec fn i32_bytes(value: i32) -> Seq<u8> {
    le_bytes(twos_complement(value as int, 4), 4)
}

/// The encoding of a signed integer of eight bytes.
pub open spec fn i64_bytes(value: i64) -> Seq<u8> {
    le_bytes(twos_complement(value as int, 8), 8)
}

/// The encoding of a byte string: its length, then its bytes.
pub open spec fn prefixed(bytes: Seq<u8>) -> Seq<u8> {
    len_bytes(bytes.len()) + bytes
}

/// `le_bytes` gives exactly `width` bytes.
pub proof fn lemma_le_bytes_len(value: nat, width: nat)
    ensures
        le_bytes(value, width).len() == width,
    decreases width,
{
    if width > 0 {
        lemma_le_bytes_len(value / 256, (width - 1) as nat);
    }
}

/// A number below `256^width` is read back from its `width` bytes.
pub proof fn lemma_le_value_of_bytes(value: nat, width: nat)
    requires
        value < radix_pow(width),
    ensures
        le_value(le_bytes(value, width)) == value,
    decreases width,
{
    if width > 0 {
        let rest = le_bytes(value / 256, (width - 1) as nat);
        let all = le_bytes(value, width);
        assert(all.drop_first() =~= rest);
        lemma_le_value_of_bytes(value / 256, (width - 1) as nat);
    }
}

/// Bytes are written back from the number they spell, and that number is
/// below `256^len`.
pub proof fn lemma_le_bytes_of_value(bytes: Seq<u8>)
    ensures
        le_value(bytes) < radix_pow(bytes.len()),
        le_bytes(le_value(bytes), bytes.len()) == bytes,
    decreases bytes.len(),
{
    if bytes.len() > 0 {
        let rest = bytes.drop_first();
        lemma_le_bytes_of_value(rest);
        let v = le_value(bytes);
        assert(v % 256 == bytes[0] as nat);
        assert(v / 256 == le_value(rest));
        assert(le_bytes(v, bytes.len()) =~= bytes);
    }
}

/// The powers of 256 that bound the integers of the encoding.
pub proof fn lemma_radix_pow_values()
    ensures
        radix_pow(0) == 1,
        radix_pow(4) == 0x1_0000_0000,
        radix_pow(8) == 0x1_0000_0000_0000_0000,
{
    reveal_with_fuel(radix_pow, 9);
}

/// Appends the `width` low bytes of `value` to `out`.
pub fn push_le(out: &mut Vec<u8>, value: u64, width: usize)
    requires
        width <= 8,
    ensures
        final(out)@ == old(out)@ + le_bytes(value as nat, width as nat),
{
    let mut rest: u64 = value;
    let mut written: usize = 0;
    let ghost start = out@;
    assert(out@ =~= start + le_bytes(value as nat, 0));
    while written < width
        invariant
            written <= width <= 8,
            out@ + le_bytes(rest as nat, (width - written) as nat) == start + le_bytes(
                value as nat,
                width as nat,
            ),
        decreases width - written,
    {
        let ghost before = out@;
        let byte: u8 = (rest % 256) as u8;
        out.push(byte);
        proof {
            let tail = le_bytes((rest / 256) as nat, (width - written - 1) as nat);
            assert(le_bytes(rest as nat, (width - written) as nat) == seq![byte] + tail);
            assert(before.push(byte) + tail =~= before + (seq![byte] + tail));
        }
        rest = rest / 256;
        written = written + 1;
    }
    assert(out@ + le_bytes(rest as nat, 0) =~= out@);
}

/// Appends the encoding of an unsigned integer of four bytes.
pub fn push_u32(out: &mut Vec<u8>, value: u32)
    ensures
        final(out)@ == old(out)@ + u32_bytes(value),
{
    push_le(out, value as u64, 4);
}

/// Appends the encoding of a signed integer of four bytes.
pub fn push_i32(out: &mut Vec<u8>, value: i32)
    ensures
        final(out)@ == old(out)@ + i32_bytes(value),
{
    proof {
        lemma_radix_pow_values();
    }
    let unsigned: u64 = if value >= 0 {
        value as u64
    } else {
        ((value + i32::MAX) + 1) as u64 + 0x8000_0000u64
    };
    push_le(out, unsigned, 4);
}

/// Appends the encoding of a signed integer of eight bytes.
pub fn push_i64(out: &mut Vec<u8>, value: i64)
    ensures
        final(out)@ == old(out)@ + i64_bytes(value),
{
    proof {
        lemma_radix_pow_values();
    }
    let unsigned: u64 = if value >= 0 {
        value as u64
    } else {
        ((value + i64::MAX) + 1) as u64 + 0x8000_0000_0000_0000u64
    };
    push_le(out, unsigned, 8);
}

/// Appends the encoding of a byte string.
pub fn push_bytes(out: &mut Vec<u8>, bytes: &[u8])
    ensures
        final(out)@ == old(out)@ + prefixed(bytes@),
{
    let ghost start = out@;
    push_le(out, bytes.len() as u64, 8);
    let ghost middle = out@;
    out.extend_from_slice(bytes);
    assert(out@ =~= middle + bytes@);
    assert(out@ =~= start + prefixed(bytes@));
}

/// The signed integer whose two's complement in `width` bytes is `value`.
pub open spec fn from_twos_complement(value: nat, width: nat) -> int {
    if 2 * value < radix_pow(width) {
        value as int
    } else {
        value - radix_pow(width)
    }
}

/// The unsigned integer of `width` bytes that starts at `pos`, if `data`
/// reaches that far.
pub open spec fn int_at(data: Seq<u8>, pos: int, width: nat) -> Option<nat> {
    if 0 <= pos && pos + width <= data.len() {
        Some(le_value(data.subrange(pos, pos + width)))
    } else {
        None
    }
}

/// The byte string that starts at `pos`, and the position behind it, if
/// `data` holds all of it.
pub open spec fn field_at(data: Seq<u8>, pos: int) -> Option<(Seq<u8>, int)> {
    match int_at(data, pos, 8) {
        Some(len) => if pos + 8 + len <= data.len() {
            Some((data.subrange(pos + 8, pos + 8 + len), pos + 8 + len))
        } else {
            None
        },
        None => None,
    }
}

/// The powers of 256 grow.
pub proof fn lemma_radix_pow_grows(small: nat, large: nat)
    requires
        small <= large,
    ensures
        0 < radix_pow(small) <= radix_pow(large),
    decreases large,
{
    if large > 0 {
        if small < large {
            lemma_radix_pow_grows(small, (large - 1) as nat);
        } else {
            lemma_radix_pow_grows((small - 1) as nat, (large - 1) as nat);
        }
    }
}

/// Reads the unsigned integer of `width` bytes at `pos`.
pub fn read_le(data: &[u8], pos: usize, width: usize) -> (value: Option<u64>)
    requires
        width <= 8,
    ensures
        value is Some <==> int_at(data@, pos as int, width as nat) is Some,
        value matches Some(v) ==> int_at(data@, pos as int, width as nat) == Some(v as nat),
{
    if pos > data.len() || width > data.len() - pos {
        return None;
    }
    let mut acc: u64 = 0;
    let mut left: usize = width;
    let ghost end = pos + width;
    assert(data@.subrange(end, end).len() == 0);
    while left > 0
        invariant
            left <= width <= 8,
            end == pos + width,
            end <= data@.len() <= usize::MAX,
            acc as nat == le_value(data@.subrange(pos + left, end)),
        decreases left,
    {
        left = left - 1;
        proof {
            let longer = data@.subrange(pos + left, end);
            let shorter = data@.subrange(pos + left + 1, end);
            assert(longer.drop_first() =~= shorter);
            lemma_le_bytes_of_value(shorter);
            lemma_le_bytes_of_value(longer);
            lemma_radix_pow_grows(longer.len(), 8);
            lemma_radix_pow_values();
        }
        acc = acc * 256 + data[pos + left] as u64;
    }
    Some(acc)
}

/// Reads the byte string at `pos` and gives the position behind it.
pub fn read_bytes(data: &[u8], pos: usize) -> (field: Option<(Vec<u8>, usize)>)
    ensures
        field is Some <==> field_at(data@, pos as int) is Some,
        field matches Some((bytes, next)) ==> field_at(data@, pos as int) == Some(
            (bytes@, next as int),
        ),
{
    let len = match read_le(data, pos, 8) {
        Some(len) => len,
        None => { return None; },
    };
    let total = data.len();
    let start: usize = pos + 8;
    if len > (total - start) as u64 {
        return None;
    }
    let end: usize = start + len as usize;
    let bytes = vstd::slice::slice_to_vec(vstd::slice::slice_subrange(data, start, end));
    Some((bytes, end))
}

/// Reads the signed integer of four bytes at `pos`.
pub fn read_i32(data: &[u8], pos: usize) -> (value: Option<i32>)
    ensures
        value is Some <==> int_at(data@, pos as int, 4) is Some,
        value matches Some(v) ==> v as int == from_twos_complement(
            int_at(data@, pos as int, 4).unwrap(),
            4,
        ),
{
    match read_le(data, pos, 4) {
        Some(raw) => {
            proof {
                lemma_radix_pow_values();
                lemma_le_bytes_of_value(data@.subrange(pos as int, pos + 4));
            }
            if raw < 0x8000_0000u64 {
                Some(raw as i32)
            } else {
                Some((raw - 0x8000_0000u64) as i32 + i32::MIN)
            }
        },
        None => None,
    }
}

/// Reads the signed integer of eight bytes at `pos`.
pub fn read_i64(data: &[u8], pos: usize) -> (value: Option<i64>)
    ensures
        value is Some <==> int_at(data@, pos as int, 8) is Some,
        value matches Some(v) ==> v as int == from_twos_complement(
            int_at(data@, pos as int, 8).unwrap(),
            8,
        ),
{
    match read_le(data, pos, 8) {
        Some(raw) => {
            proof {
                lemma_radix_pow_values();
            }
            if raw < 0x8000_0000_0000_0000u64 {
                Some(raw as i64)
            } else {
                Some((raw - 0x8000_0000_0000_0000u64) as i64 + i64::MIN)
            }
        },
        None => None,
    }
}

/// Reads the unsigned integer of four bytes at `pos`.
pub fn read_u32(data: &[u8], pos: usize) -> (value: Option<u32>)
    ensures
        value is Some <==> int_at(data@, pos as int, 4) is Some,
        value matches Some(v) ==> int_at(data@, pos as int, 4) == Some(v as nat),
{
    match read_le(data, pos, 4) {
        Some(raw) => {
            proof {
                lemma_radix_pow_values();
                lemma_le_bytes_of_value(data@.subrange(pos as int, pos + 4));
            }
            Some(raw as u32)
        },
        None => None,
    }
}

/// Whether `part` stands in `data` at `pos`.
pub open spec fn occurs_at(part: Seq<u8>, data: Seq<u8>, pos: int) -> bool {
    &&& 0 <= pos
    &&& pos + part.len() <= data.len()
    &&& data.subrange(pos, pos + part.len()) == part
}

/// A concatenation stands at `pos` exactly where its first part stands at
/// `pos` and its second part behind it.
pub proof fn lemma_occurs_at_concat(first: Seq<u8>, second: Seq<u8>, data: Seq<u8>, pos: int)
    ensures
        occurs_at(first + second, data, pos) <==> occurs_at(first, data, pos) && occurs_at(
            second,
            data,
            pos + first.len(),
        ),
{
    let whole = first + second;
    if occurs_at(whole, data, pos) {
        let found = data.subrange(pos, pos + whole.len());
        assert(data.subrange(pos, pos + first.len()) =~= found.subrange(0, first.len() as int));
        assert(found.subrange(0, first.len() as int) =~= first);
        assert(data.subrange(pos + first.len(), pos + first.len() + second.len())
            =~= found.subrange(first.len() as int, whole.len() as int));
        assert(found.subrange(first.len() as int, whole.len() as int) =~= second);
    }
    if occurs_at(first, data, pos) && occurs_at(second, data, pos + first.len()) {
        let left = data.subrange(pos, pos + first.len());
        let right = data.subrange(pos + first.len(), pos + first.len() + second.len());
        assert(data.subrange(pos, pos + whole.len()) =~= left + right);
    }
}

/// Where the `width` bytes of a number below `256^width` stand, that number
/// is read.
pub proof fn lemma_int_at_of_bytes(value: nat, width: nat, data: Seq<u8>, pos: int)
    requires
        value < radix_pow(width),
        occurs_at(le_bytes(value, width), data, pos),
    ensures
        int_at(data, pos, width) == Some(value),
{
    lemma_le_bytes_len(value, width);
    lemma_le_value_of_bytes(value, width);
}

/// Where an integer is read, its bytes stand.
pub proof fn lemma_bytes_of_int_at(data: Seq<u8>, pos: int, width: nat)
    requires
        int_at(data, pos, width) is Some,
    ensures
        int_at(data, pos, width).unwrap() < radix_pow(width),
        occurs_at(le_bytes(int_at(data, pos, width).unwrap(), width), data, pos),
{
    let found = data.subrange(pos, pos + width);
    lemma_le_bytes_of_value(found);
    lemma_le_bytes_len(le_value(found), width);
}

/// Where the encoding of a byte string stands, the byte string is read, and
/// the reading ends behind it.
pub proof fn lemma_field_at_of_prefixed(bytes: Seq<u8>, data: Seq<u8>, pos: int)
    requires
        data.len() < radix_pow(8),
        occurs_at(prefixed(bytes), data, pos),
    ensures
        field_at(data, pos) == Some((bytes, pos + prefixed(bytes).len())),
        prefixed(bytes).len() == 8 + bytes.len(),
{
    lemma_le_bytes_len(bytes.len(), 8);
    lemma_occurs_at_concat(len_bytes(bytes.len()), bytes, data, pos);
    lemma_int_at_of_bytes(bytes.len(), 8, data, pos);
}

/// Where a byte string is read, its encoding stands, and the reading ends
/// behind it.
pub proof fn lemma_prefixed_of_field_at(data: Seq<u8>, pos: int)
    requires
        field_at(data, pos) is Some,
    ensures
        occurs_at(prefixed(field_at(data, pos).unwrap().0), data, pos),
        field_at(data, pos).unwrap().1 == pos + 8 + field_at(data, pos).unwrap().0.len(),
        prefixed(field_at(data, pos).unwrap().0).len() == 8 + field_at(data, pos).unwrap().0.len(),
{
    let bytes = field_at(data, pos).unwrap().0;
    lemma_bytes_of_int_at(data, pos, 8);
    lemma_le_bytes_len(bytes.len(), 8);
    assert(occurs_at(bytes, data, pos + 8));
    lemma_occurs_at_concat(len_bytes(bytes.len()), bytes, data, pos);
}

/// A signed integer is read back from its two's complement.
pub proof fn lemma_twos_complement_round_trip(value: int, width: nat)
    requires
        -(radix_pow(width) as int) <= 2 * value < radix_pow(width),
    ensures
        twos_complement(value, width) < radix_pow(width),
        from_twos_complement(twos_complement(value, width), width) == value,
{
}

/// The two's complement of the signed integer that a number stands for is
/// that number.
pub proof fn lemma_from_twos_complement_round_trip(value: nat, width: nat)
    requires
        value < radix_pow(width),
    ensures
        twos_complement(from_twos_complement(value, width), width) == value,
        -(radix_pow(width) as int) <= 2 * from_twos_complement(value, width) < radix_pow(width),
{
}

} // verus!
