//! Little-endian integers inside byte strings.
use vstd::prelude::*;

verus! {

/// The 16-bit value whose two bytes start at `at`, least significant first.
pub open spec fn le_u16(bytes: Seq<u8>, at: int) -> u16 {
    (bytes[at] as int + 256 * (bytes[at + 1] as int)) as u16
}

/// The 32-bit value whose four bytes start at `at`, least significant first.
pub open spec fn le_u32(bytes: Seq<u8>, at: int) -> u32 {
    (bytes[at] as int + 256 * (bytes[at + 1] as int) + 65536 * (bytes[at + 2] as int) + 16777216
        * (bytes[at + 3] as int)) as u32
}

/// The 32-bit value whose four bytes start at `at`, most significant first.
pub open spec fn be_u32(bytes: Seq<u8>, at: int) -> u32 {
    (16777216 * (bytes[at] as int) + 65536 * (bytes[at + 1] as int) + 256 * (bytes[at + 2] as int)
        + bytes[at + 3] as int) as u32
}

/// The four bytes of `value`, least significant first.
pub open spec fn u32_le_bytes(value: u32) -> Seq<u8> {
    seq![
        (value % 256) as u8,
        (value / 256 % 256) as u8,
        (value / 65536 % 256) as u8,
        (value / 16777216) as u8,
    ]
}

/// The bytes of each word of `words` in turn, least significant first.
pub open spec fn u32s_le_bytes(words: Seq<u32>) -> Seq<u8>
    decreases words.len(),
{
    if words.len() == 0 {
        Seq::empty()
    } else {
        u32s_le_bytes(words.drop_last()) + u32_le_bytes(words.last())
    }
}

/// The `count` words that `bytes` holds from `at` on, four bytes each.
pub open spec fn le_u32s(bytes: Seq<u8>, at: int, count: nat) -> Seq<u32> {
    Seq::new(count, |i: int| le_u32(bytes, at + 4 * i))
}

/// Reads the 16-bit little-endian value at `at`.
pub fn read_u16(bytes: &[u8], at: usize) -> (value: u16)
    requires
        at + 2 <= bytes@.len(),
    ensures
        value == le_u16(bytes@, at as int),
{
    let low: u16 = bytes[at] as u16;
    let high: u16 = bytes[at + 1] as u16;
    low + 256 * high
}

/// Reads the 32-bit little-endian value at `at`.
pub fn read_u32(bytes: &[u8], at: usize) -> (value: u32)
    requires
        at + 4 <= bytes@.len(),
    ensures
        value == le_u32(bytes@, at as int),
{
    let b0: u32 = bytes[at] as u32;
    let b1: u32 = bytes[at + 1] as u32;
    let b2: u32 = bytes[at + 2] as u32;
    let b3: u32 = bytes[at + 3] as u32;
    b0 + 256 * b1 + 65536 * b2 + 16777216 * b3
}

/// Reads the 32-bit big-endian value at `at`.
pub fn read_u32_be(bytes: &[u8], at: usize) -> (value: u32)
    requires
        at + 4 <= bytes@.len(),
    ensures
        value == be_u32(bytes@, at as int),
{
    let b0: u32 = bytes[at] as u32;
    let b1: u32 = bytes[at + 1] as u32;
    let b2: u32 = bytes[at + 2] as u32;
    let b3: u32 = bytes[at + 3] as u32;
    16777216 * b0 + 65536 * b1 + 256 * b2 + b3
}

/// Appends the four bytes of `value` to `out`, least significant first.
pub fn push_u32(out: &mut Vec<u8>, value: u32)
    ensures
        final(out)@ == old(out)@ + u32_le_bytes(value),
{
    out.push((value % 256) as u8);
    out.push((value / 256 % 256) as u8);
    out.push((value / 65536 % 256) as u8);
    out.push((value / 16777216) as u8);
}

/// The serialisation of a word list has four bytes per word.
pub proof fn lemma_u32s_len(words: Seq<u32>)
    ensures
        u32s_le_bytes(words).len() == 4 * words.len(),
    decreases words.len(),
{
    if words.len() > 0 {
        lemma_u32s_len(words.drop_last());
    }
}

/// Reading back a word where it was written gives the word, whatever
/// surrounds it.
pub proof fn lemma_read_written_u32(prefix: Seq<u8>, value: u32, suffix: Seq<u8>)
    ensures
        le_u32(prefix + u32_le_bytes(value) + suffix, prefix.len() as int) == value,
{
}

/// Word `i` of a serialised word list starts at byte `4 * i` and reads back
/// as the word that was written.
pub proof fn lemma_read_written_u32s(words: Seq<u32>, i: int)
    requires
        0 <= i < words.len(),
    ensures
        le_u32(u32s_le_bytes(words), 4 * i) == words[i],
    decreases words.len(),
{
    let head = words.drop_last();
    lemma_u32s_len(head);
    if i == words.len() - 1 {
        lemma_read_written_u32(u32s_le_bytes(head), words.last(), Seq::empty());
    } else {
        lemma_read_written_u32s(head, i);
    }
}

} // verus!
