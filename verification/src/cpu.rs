use vstd::prelude::*;

use crate::bits::{lemma_af_bits, lemma_u16, lemma_u16_bytes, lemma_u8};
use crate::util::{is_carry_add_u8, is_carry_sub_u8, is_half_carry_add_u8, is_half_carry_sub_u8, is_carry_sub_with_carry_u8, is_half_carry_sub_with_carry_u8};

verus! {

/// The high byte of a register pair.
pub open spec fn hi(w: u16) -> u8 {
    (w / 256) as u8
}

/// The low byte of a register pair.
pub open spec fn lo(w: u16) -> u8 {
    (w % 256) as u8
}

/// A register pair made of a high and a low byte.
pub open spec fn word(h: u8, l: u8) -> u16 {
    (h * 256 + l) as u16
}

pub open spec fn b2i(b: bool) -> int {
    if b {
        1
    } else {
        0
    }
}

/// Zero flag (bit 7 of F).
pub open spec fn flag_z(af: u16) -> bool {
    (af / 128) % 2 == 1
}

/// Subtraction flag (bit 6 of F).
pub open spec fn flag_n(af: u16) -> bool {
    (af / 64) % 2 == 1
}

/// Half carry flag (bit 5 of F).
pub open spec fn flag_h(af: u16) -> bool {
    (af / 32) % 2 == 1
}

/// Carry flag (bit 4 of F).
pub open spec fn flag_c(af: u16) -> bool {
    (af / 16) % 2 == 1
}

/// The AF pair with accumulator `a`, the four flags, and `low` in the unused low nibble of F.
pub open spec fn pack_af(a: u8, z: bool, n: bool, h: bool, c: bool, low: u16) -> u16 {
    (a * 256 + b2i(z) * 128 + b2i(n) * 64 + b2i(h) * 32 + b2i(c) * 16 + low) as u16
}

/// Every AF value is the packing of its parts.
pub proof fn lemma_af_unpack(af: u16)
    ensures
        af == pack_af(hi(af), flag_z(af), flag_n(af), flag_h(af), flag_c(af), af % 16),
        af & 0x80u16 == b2i(flag_z(af)) * 128,
        af & 0x40u16 == b2i(flag_n(af)) * 64,
        af & 0x20u16 == b2i(flag_h(af)) * 32,
        af & 0x10u16 == b2i(flag_c(af)) * 16,
{
    lemma_u16(af);
}

/// The parts of a packed AF value.
pub proof fn lemma_pack_af(a: u8, z: bool, n: bool, h: bool, c: bool, low: u16)
    requires
        low < 16,
    ensures
        hi(pack_af(a, z, n, h, c, low)) == a,
        flag_z(pack_af(a, z, n, h, c, low)) == z,
        flag_n(pack_af(a, z, n, h, c, low)) == n,
        flag_h(pack_af(a, z, n, h, c, low)) == h,
        flag_c(pack_af(a, z, n, h, c, low)) == c,
        pack_af(a, z, n, h, c, low) % 16 == low,
        lo(pack_af(a, z, n, h, c, low)) == b2i(z) * 128 + b2i(n) * 64 + b2i(h) * 32 + b2i(c) * 16
            + low,
{
}

/// The AF value whose accumulator and flags are given; the unused nibble is kept.
pub open spec fn with_a_flags(af: u16, a: u8, z: bool, n: bool, h: bool, c: bool) -> u16 {
    pack_af(a, z, n, h, c, af % 16)
}

/// The registers of the Sharp LR35902.
#[derive(Clone, Copy)]
pub struct Cpu {
    pub af: u16,
    pub bc: u16,
    pub de: u16,
    pub hl: u16,
    pub sp: u16,
    pub pc: u16,
    pub mcycle: u64,
}

/// The registers other than AF are those of `b`.
pub open spec fn same_but_af(a: Cpu, b: Cpu) -> bool {
    &&& a.bc == b.bc
    &&& a.de == b.de
    &&& a.hl == b.hl
    &&& a.sp == b.sp
    &&& a.pc == b.pc
    &&& a.mcycle == b.mcycle
}

/// A bit of a word, as the solver for bits sees it.
proof fn lemma_bit16(w: u16)
    ensures
        (w & 0x80u16 == 0x80u16) == flag_z(w),
        (w & 0x40u16 == 0x40u16) == flag_n(w),
        (w & 0x20u16 == 0x20u16) == flag_h(w),
        (w & 0x10u16 == 0x10u16) == flag_c(w),
{
    lemma_u16(w);
}

impl Cpu {
    pub fn new() -> (r: Self)
        ensures
            r.af == 0 && r.bc == 0 && r.de == 0 && r.hl == 0 && r.sp == 0 && r.pc == 0,
            r.mcycle == 1,
    {
        Cpu {
            af: 0,
            bc: 0,
            de: 0,
            hl: 0,
            sp: 0,
            pc: 0,
            // To accomodate mem-read/exec 1-mcycle overlap ignore.
            mcycle: 1,
        }
    }

    pub fn is_fz(&self) -> (r: bool)
        ensures
            r == flag_z(self.af),
    {
        proof {
            lemma_bit16(self.af);
        }
        (self.af & 0x80u16) == 0x80u16
    }

    pub fn is_fn(&self) -> (r: bool)
        ensures
            r == flag_n(self.af),
    {
        proof {
            lemma_bit16(self.af);
        }
        (self.af & 0x40u16) == 0x40u16
    }

    pub fn is_fh(&self) -> (r: bool)
        ensures
            r == flag_h(self.af),
    {
        proof {
            lemma_bit16(self.af);
        }
        (self.af & 0x20u16) == 0x20u16
    }

    pub fn is_fc(&self) -> (r: bool)
        ensures
            r == flag_c(self.af),
    {
        proof {
            lemma_bit16(self.af);
        }
        (self.af & 0x10u16) == 0x10u16
    }

    pub fn get_fz(&self) -> (r: u8)
        ensures
            r == b2i(flag_z(self.af)),
    {
        if self.is_fz() {
            1
        } else {
            0
        }
    }

    pub fn get_fn(&self) -> (r: u8)
        ensures
            r == b2i(flag_n(self.af)),
    {
        if self.is_fn() {
            1
        } else {
            0
        }
    }

    pub fn get_fh(&self) -> (r: u8)
        ensures
            r == b2i(flag_h(self.af)),
    {
        if self.is_fh() {
            1
        } else {
            0
        }
    }

    pub fn get_fc(&self) -> (r: u8)
        ensures
            r == b2i(flag_c(self.af)),
    {
        if self.is_fc() {
            1
        } else {
            0
        }
    }

    pub fn set_fz(&mut self, is_on: bool)
        ensures
            final(self).af == pack_af(
                hi(old(self).af),
                is_on,
                flag_n(old(self).af),
                flag_h(old(self).af),
                flag_c(old(self).af),
                old(self).af % 16,
            ),
            same_but_af(*final(self), *old(self)),
    {
        let v: u16 = if is_on {
            1
        } else {
            0
        };
        let af = self.af;
        proof {
            lemma_af_bits(af, v, 0, 0);
            lemma_bit16(af);
            lemma_af_unpack(af);
        }
        self.af = (af & (0xFFFFu16 ^ 0x80u16)) | (v << 7u16);
    }

    pub fn set_fn(&mut self, is_on: bool)
        ensures
            final(self).af == pack_af(
                hi(old(self).af),
                flag_z(old(self).af),
                is_on,
                flag_h(old(self).af),
                flag_c(old(self).af),
                old(self).af % 16,
            ),
            same_but_af(*final(self), *old(self)),
    {
        let v: u16 = if is_on {
            1
        } else {
            0
        };
        let af = self.af;
        proof {
            lemma_af_bits(af, v, 0, 0);
            lemma_bit16(af);
            lemma_af_unpack(af);
        }
        self.af = (af & (0xFFFFu16 ^ 0x40u16)) | (v << 6u16);
    }

    pub fn set_fh(&mut self, is_on: bool)
        ensures
            final(self).af == pack_af(
                hi(old(self).af),
                flag_z(old(self).af),
                flag_n(old(self).af),
                is_on,
                flag_c(old(self).af),
                old(self).af % 16,
            ),
            same_but_af(*final(self), *old(self)),
    {
        let v: u16 = if is_on {
            1
        } else {
            0
        };
        let af = self.af;
        proof {
            lemma_af_bits(af, v, 0, 0);
            lemma_bit16(af);
            lemma_af_unpack(af);
        }
        self.af = (af & (0xFFFFu16 ^ 0x20u16)) | (v << 5u16);
    }

    pub fn set_fc(&mut self, is_on: bool)
        ensures
            final(self).af == pack_af(
                hi(old(self).af),
                flag_z(old(self).af),
                flag_n(old(self).af),
                flag_h(old(self).af),
                is_on,
                old(self).af % 16,
            ),
            same_but_af(*final(self), *old(self)),
    {
        let v: u16 = if is_on {
            1
        } else {
            0
        };
        let af = self.af;
        proof {
            lemma_af_bits(af, v, 0, 0);
            lemma_bit16(af);
            lemma_af_unpack(af);
        }
        self.af = (af & (0xFFFFu16 ^ 0x10u16)) | (v << 4u16);
    }
}

/// A word with its high byte replaced.
pub fn set_hi_byte(w: u16, byte: u8) -> (r: u16)
    ensures
        r == word(byte, lo(w)),
{
    proof {
        lemma_u16_bytes(w, byte);
    }
    (w & 0x00FFu16) | ((byte as u16) << 8u16)
}

/// A word with its low byte replaced.
pub fn set_lo_byte(w: u16, byte: u8) -> (r: u16)
    ensures
        r == word(hi(w), byte),
{
    proof {
        lemma_u16_bytes(w, byte);
    }
    (w & 0xFF00u16) | (byte as u16)
}

/// The high byte of a word.
pub fn hi_byte(w: u16) -> (r: u8)
    ensures
        r == hi(w),
{
    proof {
        lemma_u16(w);
    }
    (w >> 8u16) as u8
}

/// The low byte of a word.
pub fn lo_byte(w: u16) -> (r: u8)
    ensures
        r == lo(w),
{
    proof {
        lemma_u16(w);
    }
    (w & 0xFFu16) as u8
}


/// The effect of an ALU operation: the accumulator and the four flags it leaves.
pub open spec fn alu_result(cpu: Cpu, a: u8, z: bool, n: bool, h: bool, c: bool) -> Cpu {
    Cpu { af: with_a_flags(cpu.af, a, z, n, h, c), ..cpu }
}

impl Cpu {
    pub fn set_a(&mut self, byte: u8)
        ensures
            final(self).af == pack_af(
                byte,
                flag_z(old(self).af),
                flag_n(old(self).af),
                flag_h(old(self).af),
                flag_c(old(self).af),
                old(self).af % 16,
            ),
            same_but_af(*final(self), *old(self)),
    {
        proof {
            lemma_af_unpack(self.af);
        }
        self.af = set_hi_byte(self.af, byte);
    }

    pub fn set_b(&mut self, byte: u8)
        ensures
            *final(self) == (Cpu { bc: word(byte, lo(old(self).bc)), ..*old(self) }),
    {
        self.bc = set_hi_byte(self.bc, byte);
    }

    pub fn set_d(&mut self, byte: u8)
        ensures
            *final(self) == (Cpu { de: word(byte, lo(old(self).de)), ..*old(self) }),
    {
        self.de = set_hi_byte(self.de, byte);
    }

    pub fn set_h(&mut self, byte: u8)
        ensures
            *final(self) == (Cpu { hl: word(byte, lo(old(self).hl)), ..*old(self) }),
    {
        self.hl = set_hi_byte(self.hl, byte);
    }

    pub fn set_c(&mut self, byte: u8)
        ensures
            *final(self) == (Cpu { bc: word(hi(old(self).bc), byte), ..*old(self) }),
    {
        self.bc = set_lo_byte(self.bc, byte);
    }

    pub fn set_e(&mut self, byte: u8)
        ensures
            *final(self) == (Cpu { de: word(hi(old(self).de), byte), ..*old(self) }),
    {
        self.de = set_lo_byte(self.de, byte);
    }

    pub fn set_l(&mut self, byte: u8)
        ensures
            *final(self) == (Cpu { hl: word(hi(old(self).hl), byte), ..*old(self) }),
    {
        self.hl = set_lo_byte(self.hl, byte);
    }

    pub fn get_a(&self) -> (r: u8)
        ensures
            r == hi(self.af),
    {
        hi_byte(self.af)
    }

    pub fn get_b(&self) -> (r: u8)
        ensures
            r == hi(self.bc),
    {
        hi_byte(self.bc)
    }

    pub fn get_d(&self) -> (r: u8)
        ensures
            r == hi(self.de),
    {
        hi_byte(self.de)
    }

    pub fn get_h(&self) -> (r: u8)
        ensures
            r == hi(self.hl),
    {
        hi_byte(self.hl)
    }

    pub fn get_f(&self) -> (r: u8)
        ensures
            r == lo(self.af),
    {
        lo_byte(self.af)
    }

    pub fn get_c(&self) -> (r: u8)
        ensures
            r == lo(self.bc),
    {
        lo_byte(self.bc)
    }

    pub fn get_e(&self) -> (r: u8)
        ensures
            r == lo(self.de),
    {
        lo_byte(self.de)
    }

    pub fn get_l(&self) -> (r: u8)
        ensures
            r == lo(self.hl),
    {
        lo_byte(self.hl)
    }

    /// Sets the accumulator and all four flags.
    pub fn set_a_and_flags(&mut self, a: u8, z: bool, n: bool, h: bool, c: bool)
        ensures
            *final(self) == alu_result(*old(self), a, z, n, h, c),
    {
        let mask = flags_mask(z, n, h, c);
        let af = self.af;
        let low = af & 0x0Fu16;
        let high = (a as u16) << 8u16;
        proof {
            lemma_u16(af);
            lemma_af_bits(af, 0, mask, a);
        }
        self.af = (high | mask) | low;
    }

    /// ADD A,n: Z 0 H C.
    pub fn add(&mut self, add: u8)
        ensures
            ({
                let a = hi(old(self).af);
                *final(self) == alu_result(
                    *old(self),
                    ((a + add) % 256) as u8,
                    (a + add) % 256 == 0,
                    false,
                    a % 16 + add % 16 >= 16,
                    a + add > 255,
                )
            }),
    {
        let is_half_carry = is_half_carry_add_u8(self.get_a(), add);
        let is_carry = is_carry_add_u8(self.get_a(), add);

        let byte = self.get_a().wrapping_add(add);

        self.set_a_and_flags(byte, byte == 0, false, is_half_carry, is_carry);
    }

    /// ADC A,n: adds the operand and the carry flag; Z 0 H C.
    pub fn add_with_carry(&mut self, add: u8)
        ensures
            ({
                let a = hi(old(self).af);
                let c = b2i(flag_c(old(self).af));
                *final(self) == alu_result(
                    *old(self),
                    ((a + add + c) % 256) as u8,
                    (a + add + c) % 256 == 0,
                    false,
                    a % 16 + add % 16 + c >= 16,
                    a + add + c > 255,
                )
            }),
    {
        let a = self.get_a();
        let carry = self.get_fc();
        proof {
            lemma_u8(a);
            lemma_u8(add);
        }
        let sum: u16 = a as u16 + add as u16 + carry as u16;
        let half: u8 = (a & 0x0Fu8) + (add & 0x0Fu8) + carry;
        let byte = (sum % 256) as u8;
        self.set_a_and_flags(byte, byte == 0, false, half >= 16, sum > 255);
    }

    /// CP n: compares the operand with the accumulator (Z 1 H C) and gives back A - n.
    pub fn cp(&mut self, sub: u8) -> (r: u8)
        ensures
            ({
                let a = hi(old(self).af);
                &&& *final(self) == alu_result(
                    *old(self),
                    a,
                    a == sub,
                    true,
                    a % 16 < sub % 16,
                    a < sub,
                )
                &&& r == (a - sub + 256) % 256
            }),
    {
        let is_half_carry = is_half_carry_sub_u8(self.get_a(), sub);
        let is_carry = is_carry_sub_u8(self.get_a(), sub);
        let a = self.get_a();
        let is_zero = a == sub;

        self.set_a_and_flags(a, is_zero, true, is_half_carry, is_carry);

        a.wrapping_sub(sub)
    }

    /// SUB n: Z 1 H C.
    pub fn sub(&mut self, sub: u8)
        ensures
            ({
                let a = hi(old(self).af);
                *final(self) == alu_result(
                    *old(self),
                    ((a - sub + 256) % 256) as u8,
                    a == sub,
                    true,
                    a % 16 < sub % 16,
                    a < sub,
                )
            }),
    {
        let byte = self.cp(sub);
        proof {
            lemma_pack_af(hi(old(self).af), hi(old(self).af) == sub, true, hi(old(self).af) % 16 < sub % 16, hi(old(self).af) < sub, old(self).af % 16);
        }
        self.set_a(byte);
        proof {
            lemma_pack_af(byte, hi(old(self).af) == sub, true, hi(old(self).af) % 16 < sub % 16, hi(old(self).af) < sub, old(self).af % 16);
        }
    }

    /// SBC A,n: subtracts the operand and the carry flag; Z 1 H C.
    pub fn sub_with_carry(&mut self, sub: u8)
        ensures
            ({
                let a = hi(old(self).af);
                let c = b2i(flag_c(old(self).af));
                *final(self) == alu_result(
                    *old(self),
                    ((a - sub - c + 512) % 256) as u8,
                    (a - sub - c + 512) % 256 == 0,
                    true,
                    a % 16 < sub % 16 + c,
                    a < sub + c,
                )
            }),
    {
        let a = self.get_a();
        let carry = self.get_fc();
        let is_half_carry = is_half_carry_sub_with_carry_u8(a, sub, carry);
        let is_carry = is_carry_sub_with_carry_u8(a, sub, carry);
        let byte = a.wrapping_sub(sub).wrapping_sub(carry);
        self.set_a_and_flags(byte, byte == 0, true, is_half_carry, is_carry);
    }

    /// AND n: Z 0 1 0.
    pub fn and(&mut self, and: u8)
        ensures
            ({
                let v = hi(old(self).af) & and;
                *final(self) == alu_result(*old(self), v, v == 0, false, true, false)
            }),
    {
        let byte = self.get_a() & and;
        self.set_a_and_flags(byte, byte == 0, false, true, false);
    }

    /// OR n: Z 0 0 0.
    pub fn or(&mut self, or: u8)
        ensures
            ({
                let v = hi(old(self).af) | or;
                *final(self) == alu_result(*old(self), v, v == 0, false, false, false)
            }),
    {
        let byte = self.get_a() | or;
        self.set_a_and_flags(byte, byte == 0, false, false, false);
    }

    /// XOR n: Z 0 0 0.
    pub fn xor(&mut self, xor: u8)
        ensures
            ({
                let v = hi(old(self).af) ^ xor;
                *final(self) == alu_result(*old(self), v, v == 0, false, false, false)
            }),
    {
        let byte = self.get_a() ^ xor;
        self.set_a_and_flags(byte, byte == 0, false, false, false);
    }

    /// Sets all four flags at once; A and the unused nibble of F stay.
    pub fn set_flags(&mut self, z: bool, n: bool, h: bool, c: bool)
        ensures
            *final(self) == alu_result(*old(self), hi(old(self).af), z, n, h, c),
    {
        let af = self.af;
        let mask = flags_mask(z, n, h, c);
        proof {
            lemma_af_bits(af, 0, mask, 0);
        }
        self.af = (af & 0b1111_1111_0000_1111u16) | mask;
    }
}

/// The F bits of the four flags.
fn flags_mask(z: bool, n: bool, h: bool, c: bool) -> (mask: u16)
    ensures
        mask == b2i(z) * 128 + b2i(n) * 64 + b2i(h) * 32 + b2i(c) * 16,
        mask & 0xFF0Fu16 == 0,
{
    let mz: u16 = if z { 0x80 } else { 0 };
    let mn: u16 = if n { 0x40 } else { 0 };
    let mh: u16 = if h { 0x20 } else { 0 };
    let mc: u16 = if c { 0x10 } else { 0 };
    assert((mz == 0u16 || mz == 0x80u16) && (mn == 0u16 || mn == 0x40u16) && (mh == 0u16 || mh == 0x20u16) && (mc == 0u16 || mc == 0x10u16) ==> ((mz | mn | mh | mc) == mz + mn + mh + mc && (mz | mn | mh | mc) & 0xFF0Fu16 == 0)) by (bit_vector);
    mz | mn | mh | mc
}

} // verus!
