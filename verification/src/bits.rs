use vstd::prelude::*;
use vstd::array::spec_array_update;

verus! {

/// Bit `i` of a byte.
pub open spec fn bit(x: u8, i: u8) -> bool {
    (x >> i) & 1u8 == 1u8
}

/// `x` with bit `i` set to `v` and every other bit unchanged.
pub open spec fn with_bit(x: u8, i: u8, v: bool) -> u8 {
    if v {
        x | (1u8 << i)
    } else {
        x & !(1u8 << i)
    }
}

/// Setting a bit makes it read back as the value written, and leaves the other bits alone.
pub proof fn lemma_with_bit(x: u8, i: u8, v: bool, j: u8)
    requires
        i < 8,
        j < 8,
    ensures
        bit(with_bit(x, i, v), i) == v,
        j != i ==> bit(with_bit(x, i, v), j) == bit(x, j),
{
    if v {
        assert((((x | (1u8 << i)) >> i) & 1u8 == 1u8)) by (bit_vector)
            requires i < 8;
        assert(j != i ==> ((((x | (1u8 << i)) >> j) & 1u8 == 1u8) == (((x >> j) & 1u8) == 1u8))) by (bit_vector)
            requires i < 8, j < 8;
    } else {
        assert(!(((x & !(1u8 << i)) >> i) & 1u8 == 1u8)) by (bit_vector)
            requires i < 8;
        assert(j != i ==> ((((x & !(1u8 << i)) >> j) & 1u8 == 1u8) == (((x >> j) & 1u8) == 1u8))) by (bit_vector)
            requires i < 8, j < 8;
    }
}

/// The 16-bit word made of a high and a low byte.
pub open spec fn word(hi: u8, lo: u8) -> u16 {
    (hi as u16 * 256 + lo as u16) as u16
}

/// High byte of a 16-bit word.
pub open spec fn hi_byte(w: u16) -> u8 {
    (w / 256) as u8
}

/// Low byte of a 16-bit word.
pub open spec fn lo_byte(w: u16) -> u8 {
    (w % 256) as u8
}

/// Splitting a word into its bytes and joining them gives the word back.
pub proof fn lemma_word_split(w: u16)
    ensures
        word(hi_byte(w), lo_byte(w)) == w,
        hi_byte(word(0, 0)) == 0,
{
}

/// Joining two bytes and splitting the word gives the bytes back.
pub proof fn lemma_word_join(hi: u8, lo: u8)
    ensures
        hi_byte(word(hi, lo)) == hi,
        lo_byte(word(hi, lo)) == lo,
{
}

/// Joins two bytes into a word.
pub fn join_word(hi: u8, lo: u8) -> (w: u16)
    ensures
        w == word(hi, lo),
{
    let w = ((hi as u16) << 8) | (lo as u16);
    assert(((hi as u16) << 8) | (lo as u16) == (hi as u16 * 256 + lo as u16) as u16) by (bit_vector);
    w
}

/// Splits a word into its (high, low) bytes.
pub fn split_word(w: u16) -> (r: (u8, u8))
    ensures
        r.0 == hi_byte(w),
        r.1 == lo_byte(w),
{
    let hi = (w >> 8) as u8;
    let lo = (w & 0xFF) as u8;
    assert((w >> 8) as u8 == (w / 256) as u8) by (bit_vector);
    assert((w & 0xFF) as u8 == (w % 256) as u8) by (bit_vector);
    (hi, lo)
}

/// Stores `v` at index `i` of an array.
pub fn set_elem<T: Copy, const N: usize>(arr: &mut [T; N], i: usize, v: T)
    requires
        i < N,
    ensures
        *final(arr) == spec_array_update(*old(arr), i as int, v),
{
    arr[i] = v;
    assert(*arr =~= spec_array_update(*old(arr), i as int, v));
}

/// Arithmetic readings of the masks, shifts and bit tests that the instructions and the sound
/// registers apply to a byte.
pub proof fn lemma_byte_ops(x: u8)
    ensures
        x & 0x0Fu8 == x % 16,
        x & 0x07u8 == x % 8,
        x & 0x03u8 == x % 4,
        x & 0x3Fu8 == x % 64,
        (x & 0x0Fu8 == 0x0Fu8) == (x % 16 == 15),
        ((x & 0x80u8) != 0) == (x >= 128),
        ((x & 0x01u8) != 0) == (x % 2 == 1),
        ((x & 0x80u8) != 0) == ((x >> 7u8) & 1u8 == 1u8),
        ((x & 0x40u8) != 0) == ((x >> 6u8) & 1u8 == 1u8),
        ((x >> 2u8) & 1u8 != 0) == ((x / 4) % 2 == 1),
        (x >> 4u8) & 0x07u8 == (x / 16) % 8,
        (x >> 3u8) & 0x01u8 == (x / 8) % 2,
        x >> 6u8 == x / 64,
        x >> 1u8 == x / 2,
        x << 1u8 == ((x * 2) % 256) as u8,
        (x << 1u8) | (x >> 7u8) == ((x * 2) % 256 + x / 128) as u8,
        (x >> 1u8) | (x << 7u8) == (x / 2 + (x % 2) * 128) as u8,
        (x >> 1u8) | (x & 0x80u8) == (x / 2 + (x / 128) * 128) as u8,
        (x & 0x0Fu8) << 4u8 | (x >> 4u8) == ((x % 16) * 16 + x / 16) as u8,
{
    assert(
        (x & 0x0Fu8 == x % 16) &&
        (x & 0x07u8 == x % 8) &&
        (x & 0x03u8 == x % 4) &&
        (x & 0x3Fu8 == x % 64) &&
        ((x & 0x0Fu8 == 0x0Fu8) == (x % 16 == 15)) &&
        (((x & 0x80u8) != 0) == (x >= 128)) &&
        (((x & 0x01u8) != 0) == (x % 2 == 1)) &&
        (((x & 0x80u8) != 0) == ((x >> 7u8) & 1u8 == 1u8)) &&
        (((x & 0x40u8) != 0) == ((x >> 6u8) & 1u8 == 1u8)) &&
        (((x >> 2u8) & 1u8 != 0) == ((x / 4) % 2 == 1)) &&
        ((x >> 4u8) & 0x07u8 == (x / 16) % 8) &&
        ((x >> 3u8) & 0x01u8 == (x / 8) % 2) &&
        (x >> 6u8 == x / 64) &&
        (x >> 1u8 == x / 2) &&
        (x << 1u8 == ((x * 2) % 256) as u8) &&
        ((x << 1u8) | (x >> 7u8) == ((x * 2) % 256 + x / 128) as u8) &&
        ((x >> 1u8) | (x << 7u8) == (x / 2 + (x % 2) * 128) as u8) &&
        ((x >> 1u8) | (x & 0x80u8) == (x / 2 + (x / 128) * 128) as u8) &&
        ((x & 0x0Fu8) << 4u8 | (x >> 4u8) == ((x % 16) * 16 + x / 16) as u8)
    ) by (bit_vector);
}

/// Rotating a carry bit `c` (0 or 1) into a byte.
pub proof fn lemma_rotate_carry(x: u8, c: u8)
    ensures
        c <= 1 ==> (x << 1u8) | c == ((x * 2) % 256 + c) as u8,
        c <= 1 ==> (x >> 1u8) | (c << 7u8) == (x / 2 + c * 128) as u8,
{
    assert(
        (c <= 1 ==> (x << 1u8) | c == ((x * 2) % 256 + c) as u8) &&
        (c <= 1 ==> (x >> 1u8) | (c << 7u8) == (x / 2 + c * 128) as u8)
    ) by (bit_vector);
}

/// A bit test written with `!= 0` is `bit`.
pub proof fn lemma_bit_test(x: u8, i: u8)
    ensures
        ((x >> i) & 1u8 != 0) == ((x >> i) & 1u8 == 1u8),
{
    assert(
        (((x >> i) & 1u8 != 0) == ((x >> i) & 1u8 == 1u8))
    ) by (bit_vector);
}

/// The bytes of a word written with masks and shifts.
pub proof fn lemma_word_ops(w: u16)
    ensures
        w & 0xFFu16 == w % 256,
        ((w >> 8u16) as u8 & 0b111u8) == ((w / 256) % 8) as u8,
{
    assert(
        (w & 0xFFu16 == w % 256) &&
        (((w >> 8u16) as u8 & 0b111u8) == ((w / 256) % 8) as u8)
    ) by (bit_vector);
}

} // verus!
