use vstd::prelude::*;

verus! {

/// What the bit operations on a byte compute, in arithmetic.
pub proof fn lemma_u8(x: u8)
    ensures
        x & 0xF == x % 16,
        x & 0x3F == x % 64,
        x & 0x1F == x % 32,
        x & 7 == x % 8,
        x & 3 == x % 4,
        x & 1 == x % 2,
        x >> 1u8 == x / 2,
        x >> 3u8 == x / 8,
        x >> 4u8 == x / 16,
        x >> 5u8 == x / 32,
        x >> 6u8 == x / 64,
        x << 1u8 == (x * 2) % 256,
        ((x >> 7u8) & 1 == 1) == (x >= 128),
        ((x >> 0u8) & 1 == 1) == (x % 2 == 1),
        (x << 4u8) | (x >> 4u8) == (x % 16) * 16 + x / 16,
        (x << 1u8) | (x >> 7u8) == (x * 2) % 256 + x / 128,
        (x >> 1u8) | (x << 7u8) == x / 2 + (x % 2) * 128,
        (x >> 1u8) | (x & 0x80) == x / 2 + (if x >= 128 { 128u8 } else { 0u8 }),
        (x << 1u8) | 1 == (x * 2) % 256 + 1,
        (x >> 1u8) | 0x80 == x / 2 + 128,
        !x == 255 - x,
        x < 32 ==> ((x & 0x10 == 0x10) == (x >= 16)),
        0xFF00u16 | (x as u16) == 0xFF00 + x,
        (x as u16) << 8u16 == (x as u16) * 256,
        (x & 0xF0) & 0x0F == 0,
        x | 0 == x,
        1u8 << 7u8 == 0x80u8,
        0u8 << 7u8 == 0u8,
        (x >> 3u8) & 7 == (x / 8) % 8,
{
    assert(
        (x & 0xF == x % 16) &&
        (x & 0x3F == x % 64) &&
        (x & 0x1F == x % 32) &&
        (x & 7 == x % 8) &&
        (x & 3 == x % 4) &&
        (x & 1 == x % 2) &&
        (x >> 1u8 == x / 2) &&
        (x >> 3u8 == x / 8) &&
        (x >> 4u8 == x / 16) &&
        (x >> 5u8 == x / 32) &&
        (x >> 6u8 == x / 64) &&
        (x << 1u8 == (x * 2) % 256) &&
        (((x >> 7u8) & 1 == 1) == (x >= 128)) &&
        (((x >> 0u8) & 1 == 1) == (x % 2 == 1)) &&
        ((x << 4u8) | (x >> 4u8) == (x % 16) * 16 + x / 16) &&
        ((x << 1u8) | (x >> 7u8) == (x * 2) % 256 + x / 128) &&
        ((x >> 1u8) | (x << 7u8) == x / 2 + (x % 2) * 128) &&
        ((x >> 1u8) | (x & 0x80) == x / 2 + (if x >= 128 { 128u8 } else { 0u8 })) &&
        ((x << 1u8) | 1 == (x * 2) % 256 + 1) &&
        ((x >> 1u8) | 0x80 == x / 2 + 128) &&
        (!x == 255 - x) &&
        (x < 32 ==> ((x & 0x10 == 0x10) == (x >= 16))) &&
        (0xFF00u16 | (x as u16) == 0xFF00 + x) &&
        ((x as u16) << 8u16 == (x as u16) * 256) &&
        ((x & 0xF0) & 0x0F == 0) &&
        (x | 0 == x) &&
        (1u8 << 7u8 == 0x80u8) &&
        (0u8 << 7u8 == 0u8) &&
        ((x >> 3u8) & 7 == (x / 8) % 8)
    ) by (bit_vector);
}

/// What the bit operations on a word compute, in arithmetic.
pub proof fn lemma_u16(w: u16)
    ensures
        w & 0xFFF == w % 4096,
        w & 0xFF == w % 256,
        w & 0x0F == w % 16,
        w >> 8u16 == w / 256,
        w & !0xFu16 == w - w % 16,
        w & 0xFFF0 == w - w % 16,
        w < 8192 ==> ((w & 0x1000 == 0x1000) == (w >= 4096)),
        w & 0x80 == ((w / 128) % 2) * 128,
        w & 0x40 == ((w / 64) % 2) * 64,
        w & 0x20 == ((w / 32) % 2) * 32,
        w & 0x10 == ((w / 16) % 2) * 16,
        (w & 0x80 == 0x80) == ((w / 128) % 2 == 1),
        (w & 0x40 == 0x40) == ((w / 64) % 2 == 1),
        (w & 0x20 == 0x20) == ((w / 32) % 2 == 1),
        (w & 0x10 == 0x10) == ((w / 16) % 2 == 1),
        w == (w / 256) * 256 + ((w / 128) % 2) * 128 + ((w / 64) % 2) * 64 + ((w / 32) % 2) * 32
            + ((w / 16) % 2) * 16 + w % 16,
{
    assert(
        (w & 0xFFF == w % 4096) &&
        (w & 0xFF == w % 256) &&
        (w & 0x0F == w % 16) &&
        (w >> 8u16 == w / 256) &&
        (w & !0xFu16 == w - w % 16) &&
        (w & 0xFFF0 == w - w % 16) &&
        (w < 8192 ==> ((w & 0x1000 == 0x1000) == (w >= 4096))) &&
        (w & 0x80 == ((w / 128) % 2) * 128) &&
        (w & 0x40 == ((w / 64) % 2) * 64) &&
        (w & 0x20 == ((w / 32) % 2) * 32) &&
        (w & 0x10 == ((w / 16) % 2) * 16) &&
        ((w & 0x80 == 0x80) == ((w / 128) % 2 == 1)) &&
        ((w & 0x40 == 0x40) == ((w / 64) % 2 == 1)) &&
        ((w & 0x20 == 0x20) == ((w / 32) % 2 == 1)) &&
        ((w & 0x10 == 0x10) == ((w / 16) % 2 == 1)) &&
        (w == (w / 256) * 256 + ((w / 128) % 2) * 128 + ((w / 64) % 2) * 64 + ((w / 32) % 2) * 32 + ((w / 16) % 2) * 16 + w % 16)
    ) by (bit_vector);
}

/// A word with one of its bytes replaced.
pub proof fn lemma_u16_bytes(w: u16, b: u8)
    ensures
        (w & 0x00FF) | ((b as u16) << 8u16) == (b as u16) * 256 + w % 256,
        (w & 0xFF00) | (b as u16) == (w / 256) * 256 + (b as u16),
        ((b as u16) << 8u16) | (w & 0xFF) == (b as u16) * 256 + w % 256,
{
    assert(
        ((w & 0x00FF) | ((b as u16) << 8u16) == (b as u16) * 256 + w % 256) &&
        ((w & 0xFF00) | (b as u16) == (w / 256) * 256 + (b as u16)) &&
        (((b as u16) << 8u16) | (w & 0xFF) == (b as u16) * 256 + w % 256)
    ) by (bit_vector);
}

/// Setting and clearing bit `n` of a byte.
pub proof fn lemma_u8_bit(x: u8, n: u8)
    requires
        n < 8,
    ensures
        (x >> n) & 1 <= 1,
        (x & !(1u8 << n)) | (1u8 << n) == x | (1u8 << n),
        ((x & !(1u8 << n)) >> n) & 1 == 0,
{
    assert(
        ((x >> n) & 1 <= 1) &&
        ((x & !(1u8 << n)) | (1u8 << n) == x | (1u8 << n)) &&
        (((x & !(1u8 << n)) >> n) & 1 == 0)
    ) by (bit_vector)
        requires
            n < 8,
    ;
}

/// Setting and clearing bit `n` of a word.
pub proof fn lemma_u16_bit(x: u16, n: u8)
    requires
        n < 16,
    ensures
        (x & !(1u16 << n)) | (1u16 << n) == x | (1u16 << n),
{
    assert(
        ((x & !(1u16 << n)) | (1u16 << n) == x | (1u16 << n))
    ) by (bit_vector)
        requires
            n < 16,
    ;
}

/// Clearing a bit that is set subtracts it.
pub proof fn lemma_clear_set_bit(x: u8, mask: u8)
    requires
        mask == 1 || mask == 2 || mask == 4 || mask == 8,
        x & mask == mask,
    ensures
        x & !mask == x - mask,
{
    assert(
        (x & !mask == x - mask)
    ) by (bit_vector)
        requires
            mask == 1 || mask == 2 || mask == 4 || mask == 8,
            x & mask == mask,
    ;
}

/// Two bytes make a little endian word.
pub proof fn lemma_word_of(l: u8, h: u8)
    ensures
        ((h as u16) << 8u16) | (l as u16) == (h as u16) * 256 + (l as u16),
{
    assert(
        (((h as u16) << 8u16) | (l as u16) == (h as u16) * 256 + (l as u16))
    ) by (bit_vector);
}

/// Updating the flag bits of AF.
pub proof fn lemma_af_bits(af: u16, v: u16, mask: u16, a: u8)
    ensures
        v <= 1 ==> (af & (0xFFFFu16 ^ 0x80u16)) | (v << 7u16) == af - (af & 0x80u16) + v * 128,
        v <= 1 ==> (af & (0xFFFFu16 ^ 0x40u16)) | (v << 6u16) == af - (af & 0x40u16) + v * 64,
        v <= 1 ==> (af & (0xFFFFu16 ^ 0x20u16)) | (v << 5u16) == af - (af & 0x20u16) + v * 32,
        v <= 1 ==> (af & (0xFFFFu16 ^ 0x10u16)) | (v << 4u16) == af - (af & 0x10u16) + v * 16,
        mask & 0xFF0Fu16 == 0 ==> (af & 0xFF0Fu16) | mask == (af / 256) * 256 + mask + af % 16,
        mask & 0xFF0Fu16 == 0 ==> (((a as u16) << 8u16) | mask) | (af & 0x0Fu16) == (a as u16)
            * 256 + mask + af % 16,
{
    assert(
        (v <= 1 ==> (af & (0xFFFFu16 ^ 0x80u16)) | (v << 7u16) == af - (af & 0x80u16) + v * 128) &&
        (v <= 1 ==> (af & (0xFFFFu16 ^ 0x40u16)) | (v << 6u16) == af - (af & 0x40u16) + v * 64) &&
        (v <= 1 ==> (af & (0xFFFFu16 ^ 0x20u16)) | (v << 5u16) == af - (af & 0x20u16) + v * 32) &&
        (v <= 1 ==> (af & (0xFFFFu16 ^ 0x10u16)) | (v << 4u16) == af - (af & 0x10u16) + v * 16) &&
        (mask & 0xFF0Fu16 == 0 ==> (af & 0xFF0Fu16) | mask == (af / 256) * 256 + mask + af % 16) &&
        (mask & 0xFF0Fu16 == 0 ==> (((a as u16) << 8u16) | mask) | (af & 0x0Fu16) == (a as u16)
            * 256 + mask + af % 16)
    ) by (bit_vector);
}

/// A byte read as a signed offset, and a word moved by it.
pub proof fn lemma_signed_offset(b: u8, w: u16)
    ensures
        (b as i8) as int == (if b < 128 { b as int } else { b - 256 }),
        (w as i32 + (b as i8) as i32) as u16 == ((w + (if b < 128 { b as int } else { b - 256 })
            + 0x10000) % 0x10000) as u16,
{
    assert(
        ((b as i8) as int == (if b < 128 { b as int } else { b - 256 })) &&
        ((w as i32 + (b as i8) as i32) as u16 == ((w + (if b < 128 { b as int } else { b - 256 })
            + 0x10000) % 0x10000) as u16)
    ) by (bit_vector);
}

/// Two one-bit values make a two bit color; the mode bits of STAT; bits added to a mask.
pub proof fn lemma_small_bits(hi: u8, lo: u8, st: u8, mode: u8, m: u8)
    ensures
        hi <= 1 && lo <= 1 ==> (hi << 1u8) | lo <= 3,
        st & 0b11u8 <= 3u8,
        mode <= 3 ==> ((st & 0xFCu8) | mode) & 3u8 == mode,
        (st | 4u8) & 3u8 == st & 3u8,
        (st & 0xFBu8) & 3u8 == st & 3u8,
        m | 0u8 == m,
        (m | 0u8) | 2u8 == m | 2u8,
{
    assert(
        (hi <= 1 && lo <= 1 ==> (hi << 1u8) | lo <= 3) &&
        (st & 0b11u8 <= 3u8) &&
        (mode <= 3 ==> ((st & 0xFCu8) | mode) & 3u8 == mode) &&
        ((st | 4u8) & 3u8 == st & 3u8) &&
        ((st & 0xFBu8) & 3u8 == st & 3u8) &&
        (m | 0u8 == m) &&
        ((m | 0u8) | 2u8 == m | 2u8)
    ) by (bit_vector);
}


/// The arithmetic of the accumulator operations in terms of bits: the carry is bit 8 of the
/// 9 bit sum (or clear in bit 8 of 0x100 + the difference, a borrow), the half carry bit 4 of
/// the sum of the low nibbles (or clear in bit 4 of 0x10 + their difference).
pub proof fn lemma_alu_bits(a: u8, v: u8, cin: u8)
    by (bit_vector)
    requires
        cin <= 1,
    ensures
        ((a + v) % 256) as u8 == (((a as u16 + v as u16) as u16) & 0xFF) as u8,
        (a + v > 255) == (((a as u16 + v as u16) as u16) & 0x100 != 0),
        (a % 16 + v % 16 >= 16) == ((((a & 0xF) + (v & 0xF)) as u8) & 0x10 != 0),
        ((a + v + cin) % 256) as u8 == (((a as u16 + v as u16 + cin as u16) as u16) & 0xFF) as u8,
        (a + v + cin > 255) == (((a as u16 + v as u16 + cin as u16) as u16) & 0x100 != 0),
        (a % 16 + v % 16 + cin >= 16) == ((((a & 0xF) + (v & 0xF) + cin) as u8) & 0x10 != 0),
        ((a - v + 256) % 256) as u8 == (((0x100 + a as u16 - v as u16) as u16) & 0xFF) as u8,
        (a < v) == (((0x100 + a as u16 - v as u16) as u16) & 0x100 == 0),
        (a % 16 < v % 16) == ((((0x10 + (a & 0xF) - (v & 0xF)) as u8) & 0x10) == 0),
        ((a - v - cin + 512) % 256) as u8 == (((0x100 + a as u16 - v as u16 - cin as u16) as u16)
            & 0xFF) as u8,
        (a < v + cin) == (((0x100 + a as u16 - v as u16 - cin as u16) as u16) & 0x100 == 0),
        (a % 16 < v % 16 + cin) == ((((0x10 + (a & 0xF) - (v & 0xF) - cin) as u8) & 0x10) == 0),
{
}

} // verus!
