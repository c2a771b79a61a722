//! Numbers in memory: little-endian, two's complement.
use vstd::prelude::*;

verus! {

/// Two bytes of a number, low one first.
pub open spec fn le16(value: u16) -> Seq<u8> {
    seq![(value % 256) as u8, (value / 256) as u8]
}

/// Four bytes of a number, low one first.
pub open spec fn le32(value: u32) -> Seq<u8> {
    seq![
        (value % 256) as u8,
        (value / 256 % 256) as u8,
        (value / 65536 % 256) as u8,
        (value / 16777216) as u8,
    ]
}

/// Eight bytes of a number, low one first.
pub open spec fn le64(value: u64) -> Seq<u8> {
    le32((value % 0x1_0000_0000) as u32) + le32((value / 0x1_0000_0000) as u32)
}

/// The word that holds a signed number.
pub open spec fn word_of(value: i32) -> u32 {
    if value >= 0 {
        value as u32
    } else {
        (value + 0x1_0000_0000) as u32
    }
}

/// The signed number that a word holds.
pub open spec fn signed_of(word: u32) -> i32 {
    if word < 0x8000_0000 {
        word as i32
    } else {
        (word - 0x1_0000_0000) as i32
    }
}

/// The number in four bytes.
pub open spec fn u32_at(bytes: Seq<u8>, at: int) -> u32 {
    (bytes[at] + 256 * bytes[at + 1] + 65536 * bytes[at + 2] + 16777216 * bytes[at + 3]) as u32
}

/// So many zero bytes.
pub open spec fn zeros(n: nat) -> Seq<u8> {
    Seq::new(n, |i: int| 0u8)
}

/// Appends one byte.
pub fn put_u8(out: &mut Vec<u8>, value: u8)
    ensures
        final(out)@ == old(out)@ + seq![value],
{
    out.push(value);
    assert(out@ =~= old(out)@ + seq![value]);
}

/// Appends two bytes of a number.
pub fn put_u16(out: &mut Vec<u8>, value: u16)
    ensures
        final(out)@ == old(out)@ + le16(value),
{
    out.push((value % 256) as u8);
    out.push((value / 256) as u8);
    assert(out@ =~= old(out)@ + le16(value));
}

/// Appends four bytes of a number.
pub fn put_u32(out: &mut Vec<u8>, value: u32)
    ensures
        final(out)@ == old(out)@ + le32(value),
{
    out.push((value % 256) as u8);
    out.push((value / 256 % 256) as u8);
    out.push((value / 65536 % 256) as u8);
    out.push((value / 16777216) as u8);
    assert(out@ =~= old(out)@ + le32(value));
}

/// The word that holds a signed number.
pub fn signed_word(value: i32) -> (word: u32)
    ensures
        word == word_of(value),
{
    if value >= 0 {
        value as u32
    } else {
        (value as i64 + 0x1_0000_0000) as u32
    }
}

/// The signed number that a word holds.
pub fn word_signed(word: u32) -> (value: i32)
    ensures
        value == signed_of(word),
{
    if word < 0x8000_0000 {
        word as i32
    } else {
        (word as i64 - 0x1_0000_0000) as i32
    }
}

/// Appends four bytes of a signed number.
pub fn put_i32(out: &mut Vec<u8>, value: i32)
    ensures
        final(out)@ == old(out)@ + le32(word_of(value)),
{
    put_u32(out, signed_word(value));
}

/// Appends eight bytes of a number.
pub fn put_u64(out: &mut Vec<u8>, value: u64)
    ensures
        final(out)@ == old(out)@ + le64(value),
{
    put_u32(out, (value % 0x1_0000_0000) as u32);
    put_u32(out, (value / 0x1_0000_0000) as u32);
    assert(out@ =~= old(out)@ + le64(value));
}

/// Appends zeros.
pub fn put_zeros(out: &mut Vec<u8>, n: usize)
    ensures
        final(out)@ == old(out)@ + zeros(n as nat),
{
    let mut done: usize = 0;
    while done < n
        invariant
            done <= n,
            out@ =~= old(out)@ + zeros(done as nat),
        decreases n - done,
    {
        out.push(0);
        done = done + 1;
    }
}

/// Reads four bytes of a number.
pub fn get_u32(bytes: &[u8], at: usize) -> (value: u32)
    requires
        at + 4 <= bytes@.len(),
    ensures
        value == u32_at(bytes@, at as int),
{
    bytes[at] as u32 + 256 * (bytes[at + 1] as u32) + 65536 * (bytes[at + 2] as u32) + 16777216 * (
    bytes[at + 3] as u32)
}

/// A signed number survives its word.
pub proof fn law_signed_round_trip(value: i32)
    ensures
        signed_of(word_of(value)) == value,
{
}

/// Four bytes give back the number that was put there.
pub proof fn law_u32_round_trip(bytes: Seq<u8>, at: int, value: u32)
    requires
        0 <= at,
        at + 4 <= bytes.len(),
        bytes.subrange(at, at + 4) == le32(value),
    ensures
        u32_at(bytes, at) == value,
{
    let part = bytes.subrange(at, at + 4);
    assert(part[0] == bytes[at]);
    assert(part[1] == bytes[at + 1]);
    assert(part[2] == bytes[at + 2]);
    assert(part[3] == bytes[at + 3]);
}

/// Numbers stand in memory with their low byte first.
pub proof fn law_low_byte_comes_first(short: u16, word: u32, long: u64)
    ensures
        le16(short).len() == 2 && le16(short)[0] + 256 * le16(short)[1] == short,
        le32(word).len() == 4 && le32(word)[0] + 256 * le32(word)[1] + 65536 * le32(word)[2]
            + 16777216 * le32(word)[3] == word,
        le64(long).len() == 8,
        u32_at(le64(long), 0) + 0x1_0000_0000 * u32_at(le64(long), 4) == long,
{
    let b = le64(long);
    assert(b.subrange(0, 4) =~= le32((long % 0x1_0000_0000) as u32));
    assert(b.subrange(4, 8) =~= le32((long / 0x1_0000_0000) as u32));
    law_u32_round_trip(b, 0, (long % 0x1_0000_0000) as u32);
    law_u32_round_trip(b, 4, (long / 0x1_0000_0000) as u32);
}

/// A number is read with its low byte first.
pub proof fn law_low_byte_is_read_first(bytes: Seq<u8>, at: int)
    ensures
        u32_at(bytes, at) == bytes[at] + 256 * bytes[at + 1] + 65536 * bytes[at + 2] + 16777216
            * bytes[at + 3],
{
}

/// A signed number and its word differ by 2^32 exactly where it is negative.
pub proof fn law_word_is_twos_complement(value: i32, word: u32)
    ensures
        value >= 0 ==> word_of(value) == value,
        value < 0 ==> word_of(value) == value + 0x1_0000_0000,
        word <= 0x7FFF_FFFF ==> signed_of(word) == word,
        word > 0x7FFF_FFFF ==> signed_of(word) == word - 0x1_0000_0000,
{
}

/// Eight bytes give back the number that was put there.
pub proof fn law_u64_round_trip(bytes: Seq<u8>, at: int, value: u64)
    requires
        0 <= at,
        at + 8 <= bytes.len(),
        bytes.subrange(at, at + 8) == le64(value),
    ensures
        u32_at(bytes, at) + 0x1_0000_0000 * u32_at(bytes, at + 4) == value,
{
    let part = bytes.subrange(at, at + 8);
    assert(bytes.subrange(at, at + 4) =~= part.subrange(0, 4));
    assert(bytes.subrange(at + 4, at + 8) =~= part.subrange(4, 8));
    assert(part.subrange(0, 4) =~= le32((value % 0x1_0000_0000) as u32));
    assert(part.subrange(4, 8) =~= le32((value / 0x1_0000_0000) as u32));
    law_u32_round_trip(bytes, at, (value % 0x1_0000_0000) as u32);
    law_u32_round_trip(bytes, at + 4, (value / 0x1_0000_0000) as u32);
}

} // verus!
