use vstd::prelude::*;

use crate::bits::{lemma_signed_offset, lemma_u16, lemma_u8, lemma_word_of};
use crate::conf::{Error, MEM_LOC_DIV, OPCODE_MCYCLE, OPCODE_MCYCLE_ALT, OPCODE_MCYCLE_PREFIX};
use crate::ppu::bit_of;
use crate::cpu::{b2i, flag_c, flag_h, flag_n, flag_z, hi, lo, pack_af, word, Cpu};
use crate::util::{
    is_bit, is_carry_add_u16, is_carry_add_u8, is_carry_rot_left_u8, is_carry_rot_right_u8,
    is_half_carry_add_u16, is_half_carry_add_u8, is_half_carry_sub_u8, set_bit, shift_left_a,
    shift_right_arithmetic_u8, shift_right_logical, swap, wrapping_add_u16_i8,
};
use crate::util::keep_last;
use crate::vm::{io_write, outcome, read_outcome, then, vm_pop, vm_push, vm_read, vm_write, vm_write_u16, DelayedCommand, DelayedOp, State, VmState, VM};

verus! {

// Opcodes are decoded as x (bits 7-6), y (bits 5-3) and z (bits 2-0); y and z name an 8 bit
// operand: B, C, D, E, H, L, (HL), A.

/// An 8 bit register by its operand number (not 6, which is (HL)).
pub open spec fn reg8(c: Cpu, r: u8) -> u8 {
    if r == 0 {
        hi(c.bc)
    } else if r == 1 {
        lo(c.bc)
    } else if r == 2 {
        hi(c.de)
    } else if r == 3 {
        lo(c.de)
    } else if r == 4 {
        hi(c.hl)
    } else if r == 5 {
        lo(c.hl)
    } else {
        hi(c.af)
    }
}

/// The registers with an 8 bit register set; A keeps the flags.
#[verifier::opaque]
pub open spec fn set_reg8(c: Cpu, r: u8, v: u8) -> Cpu {
    if r == 0 {
        Cpu { bc: word(v, lo(c.bc)), ..c }
    } else if r == 1 {
        Cpu { bc: word(hi(c.bc), v), ..c }
    } else if r == 2 {
        Cpu { de: word(v, lo(c.de)), ..c }
    } else if r == 3 {
        Cpu { de: word(hi(c.de), v), ..c }
    } else if r == 4 {
        Cpu { hl: word(v, lo(c.hl)), ..c }
    } else if r == 5 {
        Cpu { hl: word(hi(c.hl), v), ..c }
    } else {
        Cpu {
            af: pack_af(v, flag_z(c.af), flag_n(c.af), flag_h(c.af), flag_c(c.af), c.af % 16),
            ..c
        }
    }
}

/// The registers with the four flags set; A and the low nibble of F stay.
#[verifier::opaque]
pub open spec fn set_flags4(c: Cpu, z: bool, n: bool, h: bool, cy: bool) -> Cpu {
    Cpu { af: pack_af(hi(c.af), z, n, h, cy, c.af % 16), ..c }
}

/// The registers with A and the four flags set.
#[verifier::opaque]
pub open spec fn set_a_flags(c: Cpu, a: u8, z: bool, n: bool, h: bool, cy: bool) -> Cpu {
    Cpu { af: pack_af(a, z, n, h, cy, c.af % 16), ..c }
}

/// A 16 bit register by number: BC, DE, HL, SP.
pub open spec fn rp(c: Cpu, p: u8) -> u16 {
    if p == 0 {
        c.bc
    } else if p == 1 {
        c.de
    } else if p == 2 {
        c.hl
    } else {
        c.sp
    }
}

pub open spec fn set_rp(c: Cpu, p: u8, w: u16) -> Cpu {
    if p == 0 {
        Cpu { bc: w, ..c }
    } else if p == 1 {
        Cpu { de: w, ..c }
    } else if p == 2 {
        Cpu { hl: w, ..c }
    } else {
        Cpu { sp: w, ..c }
    }
}

/// A 16 bit register of PUSH and POP: BC, DE, HL, AF.
pub open spec fn rp2(c: Cpu, p: u8) -> u16 {
    if p == 3 {
        c.af
    } else {
        rp(c, p)
    }
}

/// Branch conditions by number: NZ, Z, NC, C.
pub open spec fn cond(c: Cpu, cc: u8) -> bool {
    if cc == 0 {
        !flag_z(c.af)
    } else if cc == 1 {
        flag_z(c.af)
    } else if cc == 2 {
        !flag_c(c.af)
    } else {
        flag_c(c.af)
    }
}

/// A word plus a signed byte (two's complement), wrapping.
pub open spec fn add_signed(w: u16, b: u8) -> u16 {
    ((w + (if b < 128 { b as int } else { b - 256 }) + 0x10000) % 0x10000) as u16
}

/// The accumulator operations by number: ADD, ADC, SUB, SBC, AND, XOR, OR, CP.
#[verifier::opaque]
pub open spec fn alu(c: Cpu, y: u8, v: u8) -> Cpu {
    let a = hi(c.af);
    let cy = b2i(flag_c(c.af));
    if y == 0 {
        set_a_flags(c, ((a + v) % 256) as u8, (a + v) % 256 == 0, false, a % 16 + v % 16 >= 16, a + v > 255)
    } else if y == 1 {
        set_a_flags(
            c,
            ((a + v + cy) % 256) as u8,
            (a + v + cy) % 256 == 0,
            false,
            a % 16 + v % 16 + cy >= 16,
            a + v + cy > 255,
        )
    } else if y == 2 {
        set_a_flags(c, ((a - v + 256) % 256) as u8, a == v, true, a % 16 < v % 16, a < v)
    } else if y == 3 {
        set_a_flags(
            c,
            ((a - v - cy + 512) % 256) as u8,
            (a - v - cy + 512) % 256 == 0,
            true,
            a % 16 < v % 16 + cy,
            a < v + cy,
        )
    } else if y == 4 {
        set_a_flags(c, a & v, a & v == 0, false, true, false)
    } else if y == 5 {
        set_a_flags(c, a ^ v, a ^ v == 0, false, false, false)
    } else if y == 6 {
        set_a_flags(c, a | v, a | v == 0, false, false, false)
    } else {
        set_a_flags(c, a, a == v, true, a % 16 < v % 16, a < v)
    }
}

/// The rotations and shifts after the 0xCB prefix by number: RLC, RRC, RL, RR, SLA, SRA,
/// SWAP, SRL; the result and the carry they leave.
pub open spec fn rot(y: u8, v: u8, cy: bool) -> (u8, bool) {
    if y == 0 {
        (((v * 2) % 256 + v / 128) as u8, v >= 128)
    } else if y == 1 {
        ((v / 2 + (v % 2) * 128) as u8, v % 2 == 1)
    } else if y == 2 {
        (((v * 2) % 256 + b2i(cy)) as u8, v >= 128)
    } else if y == 3 {
        ((v / 2 + b2i(cy) * 128) as u8, v % 2 == 1)
    } else if y == 4 {
        (((v * 2) % 256) as u8, v >= 128)
    } else if y == 5 {
        ((v / 2 + (if v >= 128 { 128int } else { 0 })) as u8, v % 2 == 1)
    } else if y == 6 {
        (((v % 16) * 16 + v / 16) as u8, false)
    } else {
        ((v / 2) as u8, v % 2 == 1)
    }
}

/// The rotations and shifts after the 0xCB prefix (and RLCA, RRCA, RLA, RRA) move the bits of
/// their operand as follows, the carry taking the bit that falls out: RLC and RRC rotate, RL
/// and RR rotate through the carry, SLA shifts left, SRA shifts right keeping the sign bit,
/// SWAP exchanges the nibbles (carry cleared), SRL shifts right.
pub proof fn lemma_rot_moves_bits(v: u8, cy: bool)
    ensures
        rot(0, v, cy) == ((v << 1u8) | (v >> 7u8), v & 0x80 != 0),
        rot(1, v, cy) == ((v >> 1u8) | (v << 7u8), v & 1 != 0),
        rot(2, v, cy) == ((v << 1u8) | (if cy { 1u8 } else { 0u8 }), v & 0x80 != 0),
        rot(3, v, cy) == ((v >> 1u8) | (if cy { 0x80u8 } else { 0u8 }), v & 1 != 0),
        rot(4, v, cy) == (v << 1u8, v & 0x80 != 0),
        rot(5, v, cy) == ((v >> 1u8) | (v & 0x80), v & 1 != 0),
        rot(6, v, cy) == ((v << 4u8) | (v >> 4u8), false),
        rot(7, v, cy) == (v >> 1u8, v & 1 != 0),
{
    assert((((v * 2) % 256 + v / 128) as u8 == (v << 1u8) | (v >> 7u8))
        && ((v / 2 + (v % 2) * 128) as u8 == (v >> 1u8) | (v << 7u8))
        && (((v * 2) % 256 + 1) as u8 == (v << 1u8) | 1u8)
        && (((v * 2) % 256 + 0) as u8 == (v << 1u8) | 0u8)
        && ((v / 2 + 128) as u8 == (v >> 1u8) | 0x80u8)
        && ((v / 2 + 0) as u8 == (v >> 1u8) | 0u8)
        && (((v * 2) % 256) as u8 == v << 1u8)
        && (v >= 128 ==> (v / 2 + 128) as u8 == (v >> 1u8) | (v & 0x80))
        && (v < 128 ==> (v / 2 + 0) as u8 == (v >> 1u8) | (v & 0x80))
        && (((v % 16) * 16 + v / 16) as u8 == (v << 4u8) | (v >> 4u8))
        && ((v / 2) as u8 == v >> 1u8)
        && ((v >= 128) == (v & 0x80 != 0))
        && ((v % 2 == 1) == (v & 1 != 0))) by (bit_vector);
}

/// The accumulator and carry that DAA leaves, from A and the flags N, H and C.
pub open spec fn daa_values(a: u8, n: bool, h: bool, cy: bool) -> (u8, bool) {
    if !n {
        let (a1, c1) = if cy || a > 0x99 {
            (((a + 0x60) % 256) as u8, true)
        } else {
            (a, cy)
        };
        (if h || a1 % 16 > 9 {
            ((a1 + 6) % 256) as u8
        } else {
            a1
        }, c1)
    } else {
        let a1 = if cy {
            ((a - 0x60 + 256) % 256) as u8
        } else {
            a
        };
        (if h {
            ((a1 - 6 + 256) % 256) as u8
        } else {
            a1
        }, cy)
    }
}

/// DAA: adjusts A to binary coded decimal after an addition or a subtraction; Z - 0 C.
#[verifier::opaque]
pub open spec fn daa(c: Cpu) -> Cpu {
    let (v, cy) = daa_values(hi(c.af), flag_n(c.af), flag_h(c.af), flag_c(c.af));
    set_a_flags(c, v, v == 0, flag_n(c.af), false, cy)
}

/// The eight one-byte operations on A and the flags (0x07 to 0x3F by eight): RLCA, RRCA, RLA,
/// RRA, DAA, CPL, SCF, CCF.
#[verifier::opaque]
pub open spec fn acc_op(c: Cpu, y: u8) -> Cpu {
    let a = hi(c.af);
    if y < 4 {
        let (v, cy) = rot(y, a, flag_c(c.af));
        set_a_flags(c, v, false, false, false, cy)
    } else if y == 4 {
        daa(c)
    } else if y == 5 {
        set_a_flags(c, (255 - a) as u8, flag_z(c.af), true, true, flag_c(c.af))
    } else if y == 6 {
        set_flags4(c, flag_z(c.af), false, false, true)
    } else {
        set_flags4(c, flag_z(c.af), false, false, !flag_c(c.af))
    }
}

/// ADD SP,r8 and LD HL,SP+r8: SP plus a signed byte, and the flags 0 0 H C of the low byte.
#[verifier::opaque]
pub open spec fn sp_plus(c: Cpu, b: u8) -> (u16, Cpu) {
    let l = c.sp % 256;
    (add_signed(c.sp, b), set_flags4(c, false, false, l % 16 + b % 16 >= 16, l + b > 255))
}

/// The state with other registers.
pub open spec fn with_cpu(s: VmState, c: Cpu) -> VmState {
    VmState { cpu: c, ..s }
}

/// A step that ends normally, without the alternative timing.
pub open spec fn done(s: VmState) -> Option<(VmState, Result<bool, Error>)> {
    Some((s, Ok(false)))
}

/// Reads the byte at PC and moves PC on.
pub open spec fn fetch(s: VmState) -> Option<(VmState, Result<u8, Error>)> {
    match vm_read(s, s.cpu.pc) {
        None => None,
        Some(Err(e)) => Some((s, Err(e))),
        Some(Ok(b)) => Some((with_cpu(s, Cpu { pc: ((s.cpu.pc + 1) % 0x10000) as u16, ..s.cpu }), Ok(b))),
    }
}

/// Reads the little endian word at PC and moves PC on by two.
pub open spec fn fetch16(s: VmState) -> Option<(VmState, Result<u16, Error>)> {
    then(
        fetch(s),
        |s1: VmState, l: u8|
            then(fetch(s1), |s2: VmState, h: u8| Some((s2, Ok((h * 256 + l) as u16)))),
    )
}

/// Reads an 8 bit operand: a register, or the byte at HL.
pub open spec fn load8(s: VmState, r: u8) -> Option<(VmState, Result<u8, Error>)> {
    if r == 6 {
        match vm_read(s, s.cpu.hl) {
            None => None,
            Some(v) => Some((s, v)),
        }
    } else {
        Some((s, Ok(reg8(s.cpu, r))))
    }
}

/// Writes an 8 bit operand: a register, or the byte at HL.
pub open spec fn store8(s: VmState, r: u8, v: u8) -> Option<(VmState, Result<(), Error>)> {
    if r == 6 {
        vm_write(s, s.cpu.hl, v)
    } else {
        Some((with_cpu(s, set_reg8(s.cpu, r, v)), Ok(())))
    }
}

/// Reads A from an address.
pub open spec fn load_a(s: VmState, loc: u16) -> Option<(VmState, Result<bool, Error>)> {
    match vm_read(s, loc) {
        None => None,
        Some(Err(e)) => Some((s, Err(e))),
        Some(Ok(v)) => done(with_cpu(s, set_reg8(s.cpu, 7, v))),
    }
}

/// A relative jump, taken when `taken`; an offset of -128 is not supported.
pub open spec fn spec_jr(s: VmState, cc: u8, always: bool) -> Option<(VmState, Result<bool, Error>)> {
    then(
        fetch(s),
        |s1: VmState, b: u8|
            if b == 0x80 {
                None
            } else if always || cond(s1.cpu, cc) {
                done(with_cpu(s1, Cpu { pc: add_signed(s1.cpu.pc, b), ..s1.cpu }))
            } else {
                Some((s1, Ok(true)))
            },
    )
}

/// INC r and DEC r: Z 0 H - and Z 1 H -.
pub open spec fn spec_inc_dec(s: VmState, y: u8, dec: bool) -> Option<(VmState, Result<bool, Error>)> {
    then(
        load8(s, y),
        |s1: VmState, v: u8|
            {
                let nv = if dec {
                    ((v - 1 + 256) % 256) as u8
                } else {
                    ((v + 1) % 256) as u8
                };
                let h = if dec {
                    v % 16 < 1
                } else {
                    v % 16 + 1 >= 16
                };
                then(
                    store8(s1, y, nv),
                    |s2: VmState, u: ()|
                        done(with_cpu(s2, set_flags4(s2.cpu, nv == 0, dec, h, flag_c(s2.cpu.af)))),
                )
            },
    )
}

/// The opcodes 0x00 to 0x3F.
#[verifier::opaque]
pub open spec fn spec_x0(s: VmState, y: u8, z: u8) -> Option<(VmState, Result<bool, Error>)> {
    let c = s.cpu;
    let p = y / 2;
    if z == 0 {
        if y == 0 {
            done(s)
        } else if y == 1 {
            // LD (a16),SP
            then(fetch16(s), |s1: VmState, w: u16| then(vm_write_u16(s1, w, s1.cpu.sp), |s2: VmState, u: ()| done(s2)))
        } else if y == 2 {
            // STOP
            then(vm_write(VmState { state: State::Stop, ..s }, MEM_LOC_DIV, 0), |s2: VmState, u: ()| done(s2))
        } else if y == 3 {
            spec_jr(s, 0, true)
        } else {
            spec_jr(s, (y - 4) as u8, false)
        }
    } else if z == 1 {
        if y % 2 == 0 {
            // LD rr,d16
            then(fetch16(s), |s1: VmState, w: u16| done(with_cpu(s1, set_rp(s1.cpu, p, w))))
        } else {
            // ADD HL,rr: - 0 H C
            let v = rp(c, p);
            let c1 = set_flags4(c, flag_z(c.af), false, c.hl % 4096 + v % 4096 >= 4096, c.hl + v > 65535);
            done(with_cpu(s, Cpu { hl: ((c.hl + v) % 0x10000) as u16, ..c1 }))
        }
    } else if z == 2 {
        let a = hi(c.af);
        if y == 0 {
            then(vm_write(s, c.bc, a), |s2: VmState, u: ()| done(s2))
        } else if y == 1 {
            load_a(s, c.bc)
        } else if y == 2 {
            then(vm_write(s, c.de, a), |s2: VmState, u: ()| done(s2))
        } else if y == 3 {
            load_a(s, c.de)
        } else if y == 4 || y == 6 {
            // LD (HL+),A and LD (HL-),A
            then(
                vm_write(s, c.hl, a),
                |s2: VmState, u: ()|
                    done(with_cpu(s2, Cpu { hl: (if y == 4 { (c.hl + 1) % 0x10000 } else { (c.hl - 1 + 0x10000) % 0x10000 }) as u16, ..s2.cpu })),
            )
        } else {
            // LD A,(HL+) and LD A,(HL-)
            match vm_read(s, c.hl) {
                None => None,
                Some(Err(e)) => Some((s, Err(e))),
                Some(Ok(v)) => done(with_cpu(s, Cpu { hl: (if y == 5 { (c.hl + 1) % 0x10000 } else { (c.hl - 1 + 0x10000) % 0x10000 }) as u16, ..set_reg8(c, 7, v) })),
            }
        }
    } else if z == 3 {
        let v = rp(c, p);
        let w = if y % 2 == 0 {
            ((v + 1) % 0x10000) as u16
        } else {
            ((v - 1 + 0x10000) % 0x10000) as u16
        };
        done(with_cpu(s, set_rp(c, p, w)))
    } else if z == 4 {
        spec_inc_dec(s, y, false)
    } else if z == 5 {
        spec_inc_dec(s, y, true)
    } else if z == 6 {
        then(fetch(s), |s1: VmState, b: u8| then(store8(s1, y, b), |s2: VmState, u: ()| done(s2)))
    } else {
        done(with_cpu(s, acc_op(c, y)))
    }
}

/// The opcodes that the CPU does not have.
pub open spec fn invalid_opcode(op: u8) -> bool {
    op == 0xD3 || op == 0xDB || op == 0xDD || op == 0xE3 || op == 0xE4 || op == 0xEB || op == 0xEC
        || op == 0xED || op == 0xF4 || op == 0xFC || op == 0xFD
}

/// Jumps to `target`.
pub open spec fn jump(s: VmState, target: u16) -> Option<(VmState, Result<bool, Error>)> {
    done(with_cpu(s, Cpu { pc: target, ..s.cpu }))
}

/// Pushes PC and jumps to `target`.
pub open spec fn call(s: VmState, target: u16) -> Option<(VmState, Result<bool, Error>)> {
    then(vm_push(s, s.cpu.pc), |s2: VmState, u: ()| jump(s2, target))
}

/// The opcodes 0xC0 to 0xFF but 0xCB.
#[verifier::opaque]
pub open spec fn spec_x3(s: VmState, y: u8, z: u8) -> Option<(VmState, Result<bool, Error>)> {
    let c = s.cpu;
    let p = y / 2;
    let a = hi(c.af);
    if z == 0 {
        if y < 4 {
            // RET cc
            if cond(c, y) {
                then(vm_pop(s), |s1: VmState, w: u16| jump(s1, w))
            } else {
                Some((s, Ok(true)))
            }
        } else if y == 4 {
            // LDH (a8),A
            then(fetch(s), |s1: VmState, b: u8| then(vm_write(s1, (0xFF00 + b) as u16, a), |s2: VmState, u: ()| done(s2)))
        } else if y == 6 {
            // LDH A,(a8)
            then(fetch(s), |s1: VmState, b: u8| load_a(s1, (0xFF00 + b) as u16))
        } else {
            // ADD SP,r8 and LD HL,SP+r8
            then(
                fetch(s),
                |s1: VmState, b: u8|
                    {
                        let (w, c1) = sp_plus(s1.cpu, b);
                        done(with_cpu(s1, if y == 5 { Cpu { sp: w, ..c1 } } else { Cpu { hl: w, ..c1 } }))
                    },
            )
        }
    } else if z == 1 {
        if y % 2 == 0 {
            // POP rr; the low nibble of F always reads 0.
            then(
                vm_pop(s),
                |s1: VmState, w: u16|
                    done(with_cpu(s1, if p == 3 { Cpu { af: (w - w % 16) as u16, ..s1.cpu } } else { set_rp(s1.cpu, p, w) })),
            )
        } else if p == 0 {
            // RET
            then(vm_pop(s), |s1: VmState, w: u16| jump(s1, w))
        } else if p == 1 {
            // RETI
            then(vm_pop(s), |s1: VmState, w: u16| jump(VmState { ime: true, ..s1 }, w))
        } else if p == 2 {
            // JP (HL)
            jump(s, c.hl)
        } else {
            // LD SP,HL
            done(with_cpu(s, Cpu { sp: c.hl, ..c }))
        }
    } else if z == 2 {
        if y < 4 {
            // JP cc,a16
            then(fetch16(s), |s1: VmState, w: u16| if cond(s1.cpu, y) { jump(s1, w) } else { Some((s1, Ok(true))) })
        } else if y == 4 {
            // LD (C),A
            then(vm_write(s, (0xFF00 + lo(c.bc)) as u16, a), |s2: VmState, u: ()| done(s2))
        } else if y == 5 {
            // LD (a16),A
            then(fetch16(s), |s1: VmState, w: u16| then(vm_write(s1, w, hi(s1.cpu.af)), |s2: VmState, u: ()| done(s2)))
        } else if y == 6 {
            // LD A,(C)
            load_a(s, (0xFF00 + lo(c.bc)) as u16)
        } else {
            // LD A,(a16)
            then(fetch16(s), |s1: VmState, w: u16| load_a(s1, w))
        }
    } else if z == 3 {
        if y == 0 {
            then(fetch16(s), |s1: VmState, w: u16| jump(s1, w))
        } else if y == 6 {
            // DI: takes effect after the next instruction.
            done(VmState { delayed_cmds: s.delayed_cmds.push(DelayedCommand { cycle_delay: 2, op: DelayedOp::MasterInterruptDisable }), ..s })
        } else {
            // EI
            done(VmState { delayed_cmds: s.delayed_cmds.push(DelayedCommand { cycle_delay: 2, op: DelayedOp::MasterInterruptEnable }), ..s })
        }
    } else if z == 4 {
        // CALL cc,a16
        then(fetch16(s), |s1: VmState, w: u16| if cond(s1.cpu, y) { call(s1, w) } else { Some((s1, Ok(true))) })
    } else if z == 5 {
        if y % 2 == 0 {
            // PUSH rr; F goes with its low nibble cleared.
            then(vm_push(s, if p == 3 { (c.af - c.af % 16) as u16 } else { rp(c, p) }), |s2: VmState, u: ()| done(s2))
        } else {
            // CALL a16
            then(fetch16(s), |s1: VmState, w: u16| call(s1, w))
        }
    } else if z == 6 {
        // ALU A,d8
        then(fetch(s), |s1: VmState, b: u8| done(with_cpu(s1, alu(s1.cpu, y, b))))
    } else {
        // RST
        call(s, (y * 8) as u16)
    }
}

/// The opcodes after the 0xCB prefix.
#[verifier::opaque]
pub open spec fn spec_cb(s: VmState, op: u8) -> Option<(VmState, Result<bool, Error>)> {
    let x = op / 64;
    let y = (op / 8) % 8;
    let z = op % 8;
    then(
        load8(s, z),
        |s1: VmState, v: u8|
            if x == 0 {
                let (nv, cy) = rot(y, v, flag_c(s1.cpu.af));
                then(store8(s1, z, nv), |s2: VmState, u: ()| done(with_cpu(s2, set_flags4(s2.cpu, nv == 0, false, false, cy))))
            } else if x == 1 {
                // BIT y: Z 0 1 -
                done(with_cpu(s1, set_flags4(s1.cpu, !bit_of(v, y), false, true, flag_c(s1.cpu.af))))
            } else if x == 2 {
                // RES y
                then(store8(s1, z, (v & !(1u8 << y)) as u8), |s2: VmState, u: ()| done(s2))
            } else {
                // SET y
                then(store8(s1, z, (v | (1u8 << y)) as u8), |s2: VmState, u: ()| done(s2))
            },
    )
}

/// An instruction after its opcode was fetched, and the machine cycles it took.
pub open spec fn spec_instr(s: VmState, op: u8) -> Option<(VmState, Result<u8, Error>)> {
    if op == 0xCB {
        then(
            fetch(s),
            |s1: VmState, cb: u8|
                then(spec_cb(s1, cb), |s2: VmState, alt: bool| Some((s2, Ok((OPCODE_MCYCLE_PREFIX[cb as int] + OPCODE_MCYCLE[0xCB]) as u8)))),
        )
    } else if invalid_opcode(op) {
        None
    } else {
        let x = op / 64;
        let y = (op / 8) % 8;
        let z = op % 8;
        let r = if x == 0 {
            spec_x0(s, y, z)
        } else if x == 1 {
            if op == 0x76 {
                // HALT
                done(VmState { state: State::Halt, ..s })
            } else {
                then(load8(s, z), |s1: VmState, v: u8| then(store8(s1, y, v), |s2: VmState, u: ()| done(s2)))
            }
        } else if x == 2 {
            then(load8(s, z), |s1: VmState, v: u8| done(with_cpu(s1, alu(s1.cpu, y, v))))
        } else {
            spec_x3(s, y, z)
        };
        then(r, |s1: VmState, alt: bool| Some((s1, Ok(if alt { OPCODE_MCYCLE_ALT[op as int] } else { OPCODE_MCYCLE[op as int] }))))
    }
}

/// The machine cycles an instruction took are counted; the counter must not overflow.
pub open spec fn spec_tick(s: VmState, m: u8) -> Option<(VmState, Result<(), Error>)> {
    if s.cpu.mcycle + m > u64::MAX {
        None
    } else {
        Some((with_cpu(s, Cpu { mcycle: (s.cpu.mcycle + m) as u64, ..s.cpu }), Ok(())))
    }
}

/// One instruction: its opcode is fetched and recorded in the histories, then it runs and its
/// machine cycles are counted. An opcode fetched at 0xFFFF cannot be recorded.
pub open spec fn spec_exec_op(s: VmState) -> Option<(VmState, Result<(), Error>)> {
    then(
        fetch(s),
        |s1: VmState, op: u8|
            if s1.cpu.pc == 0 {
                None
            } else {
                let pc = (s1.cpu.pc - 1) as u16;
                let s2 = VmState {
                    op_history: keep_last(s1.op_history.push((pc, op)), 128),
                    deep_op_history: if s1.counter % 64 == 0 {
                        keep_last(s1.deep_op_history.push((s1.counter, pc, op)), 128)
                    } else {
                        s1.deep_op_history
                    },
                    ..s1
                };
                then(spec_instr(s2, op), |s3: VmState, m: u8| spec_tick(s3, m))
            },
    )
}

/// The result and carry of a rotation or shift after the 0xCB prefix.
fn rotate(y: u8, v: u8, cy: bool) -> (r: (u8, bool))
    requires
        y < 8,
    ensures
        r == rot(y, v, cy),
{
    let c: u8 = if cy { 1 } else { 0 };
    proof {
        lemma_u8(v);
        lemma_u8(v << 1u8);
        lemma_u8(v >> 1u8);
    }
    if y == 0 {
        // RLC
        ((v << 1u8) | (v >> 7u8), is_carry_rot_left_u8(v))
    } else if y == 1 {
        // RRC
        ((v >> 1u8) | (v << 7u8), is_carry_rot_right_u8(v))
    } else if y == 2 {
        // RL
        ((v << 1u8) | c, is_carry_rot_left_u8(v))
    } else if y == 3 {
        // RR
        ((v >> 1u8) | (c << 7u8), is_carry_rot_right_u8(v))
    } else if y == 4 {
        // SLA
        (shift_left_a(v), is_carry_rot_left_u8(v))
    } else if y == 5 {
        // SRA
        (shift_right_arithmetic_u8(v), is_carry_rot_right_u8(v))
    } else if y == 6 {
        (swap(v), false)
    } else {
        // SRL
        (shift_right_logical(v), is_carry_rot_right_u8(v))
    }
}

/// Sets an 8 bit register by its operand number.
fn cpu_set_reg8(c: &mut Cpu, r: u8, v: u8)
    requires
        r < 8,
        r != 6,
    ensures
        *final(c) == set_reg8(*old(c), r, v),
{
    reveal(set_reg8);
    if r == 0 {
        c.set_b(v);
    } else if r == 1 {
        c.set_c(v);
    } else if r == 2 {
        c.set_d(v);
    } else if r == 3 {
        c.set_e(v);
    } else if r == 4 {
        c.set_h(v);
    } else if r == 5 {
        c.set_l(v);
    } else {
        c.set_a(v);
    }
}


/// Sets the four flags.
fn cpu_set_flags(c: &mut Cpu, z: bool, n: bool, h: bool, cy: bool)
    ensures
        *final(c) == set_flags4(*old(c), z, n, h, cy),
{
    reveal(set_flags4);
    c.set_flags(z, n, h, cy);
}

/// RLCA, RRCA, RLA, RRA, DAA, CPL, SCF and CCF.
fn cpu_acc_op(c: &mut Cpu, y: u8)
    requires
        y < 8,
    ensures
        *final(c) == acc_op(*old(c), y),
{
    reveal(acc_op);
    reveal(set_a_flags);
    reveal(set_flags4);
    let a = c.get_a();
    let fz = c.is_fz();
    let fc = c.is_fc();
    if y < 4 {
        let (v, cy) = rotate(y, a, fc);
        c.set_a_and_flags(v, false, false, false, cy);
    } else if y == 4 {
        cpu_daa(c);
    } else if y == 5 {
        proof {
            lemma_u8(a);
        }
        c.set_a_and_flags(!a, fz, true, true, fc);
    } else if y == 6 {
        c.set_flags(fz, false, false, true);
    } else {
        c.set_flags(fz, false, false, !fc);
    }
}

/// The values of DAA.
fn daa_compute(a: u8, n: bool, h: bool, cy: bool) -> (r: (u8, bool))
    ensures
        r == daa_values(a, n, h, cy),
{
    let a0 = a as u16;
    if !n {
        // It was addition before.
        let (a1, c1) = if cy || a > 0x99 {
            ((a0 + 0x60) % 256, true)
        } else {
            (a0, cy)
        };
        let a2 = if h || a1 % 16 > 9 {
            (a1 + 6) % 256
        } else {
            a1
        };
        (a2 as u8, c1)
    } else {
        // It was substraction before.
        let a1 = if cy {
            (a0 + 256 - 0x60) % 256
        } else {
            a0
        };
        let a2 = if h {
            (a1 + 256 - 6) % 256
        } else {
            a1
        };
        (a2 as u8, cy)
    }
}

/// DAA: Z - 0 C.
fn cpu_daa(c: &mut Cpu)
    ensures
        *final(c) == daa(*old(c)),
{
    reveal(daa);
    reveal(set_a_flags);
    let n = c.is_fn();
    let (v, cy) = daa_compute(c.get_a(), n, c.is_fh(), c.is_fc());
    c.set_a_and_flags(v, v == 0, n, false, cy);
}

/// The accumulator operations.
fn cpu_alu(c: &mut Cpu, y: u8, v: u8)
    ensures
        *final(c) == alu(*old(c), y, v),
{
    reveal(alu);
    reveal(set_a_flags);
    if y == 0 {
        c.add(v);
    } else if y == 1 {
        c.add_with_carry(v);
    } else if y == 2 {
        c.sub(v);
    } else if y == 3 {
        c.sub_with_carry(v);
    } else if y == 4 {
        c.and(v);
    } else if y == 5 {
        c.xor(v);
    } else if y == 6 {
        c.or(v);
    } else {
        let _ = c.cp(v);
    }
}

impl VM {
    /// Reads the byte at PC and moves PC on.
    pub fn read_op(&mut self) -> (r: Result<u8, Error>)
        requires
            old(self).wf(),
        ensures
            final(self).wf(),
            outcome(fetch(old(self)@), final(self)@, r),
    {
        let op = self.mem_read(self.cpu.pc)?;
        self.cpu.pc = self.cpu.pc.wrapping_add(1);

        Ok(op)
    }

    /// Reads the little endian word at PC and moves PC on by two.
    pub fn read_op_imm16(&mut self) -> (r: Result<u16, Error>)
        requires
            old(self).wf(),
        ensures
            final(self).wf(),
            outcome(fetch16(old(self)@), final(self)@, r),
    {
        let lo = self.read_op()?;
        let hi = self.read_op()?;
        proof {
            lemma_word_of(lo, hi);
        }

        Ok(((hi as u16) << 8u16) | lo as u16)
    }

    fn get_reg8(&self, r: u8) -> (v: u8)
        requires
            r < 8,
            r != 6,
        ensures
            v == reg8(self.cpu, r),
    {
        if r == 0 {
            self.cpu.get_b()
        } else if r == 1 {
            self.cpu.get_c()
        } else if r == 2 {
            self.cpu.get_d()
        } else if r == 3 {
            self.cpu.get_e()
        } else if r == 4 {
            self.cpu.get_h()
        } else if r == 5 {
            self.cpu.get_l()
        } else {
            self.cpu.get_a()
        }
    }

    fn set_reg8(&mut self, r: u8, v: u8)
        requires
            old(self).wf(),
            r < 8,
            r != 6,
        ensures
            final(self).wf(),
            final(self)@ == with_cpu(old(self)@, set_reg8(old(self).cpu, r, v)),
    {
        let mut c = self.cpu;
        cpu_set_reg8(&mut c, r, v);
        self.cpu = c;
    }

    /// Reads an 8 bit operand: a register, or the byte at HL.
    fn load8(&self, r: u8) -> (res: Result<u8, Error>)
        requires
            self.wf(),
            r < 8,
        ensures
            outcome(load8(self@, r), self@, res),
    {
        if r == 6 {
            self.mem_read(self.cpu.hl)
        } else {
            Ok(self.get_reg8(r))
        }
    }

    /// Writes an 8 bit operand: a register, or the byte at HL.
    fn store8(&mut self, r: u8, v: u8) -> (res: Result<(), Error>)
        requires
            old(self).wf(),
            r < 8,
        ensures
            final(self).wf(),
            outcome(store8(old(self)@, r, v), final(self)@, res),
    {
        if r == 6 {
            self.mem_write(self.cpu.hl, v)
        } else {
            self.set_reg8(r, v);
            Ok(())
        }
    }

    fn get_rp(&self, p: u8) -> (w: u16)
        ensures
            w == rp(self.cpu, p),
    {
        if p == 0 {
            self.cpu.bc
        } else if p == 1 {
            self.cpu.de
        } else if p == 2 {
            self.cpu.hl
        } else {
            self.cpu.sp
        }
    }

    fn set_rp(&mut self, p: u8, w: u16)
        requires
            old(self).wf(),
        ensures
            final(self).wf(),
            final(self)@ == with_cpu(old(self)@, set_rp(old(self).cpu, p, w)),
    {
        if p == 0 {
            self.cpu.bc = w;
        } else if p == 1 {
            self.cpu.de = w;
        } else if p == 2 {
            self.cpu.hl = w;
        } else {
            self.cpu.sp = w;
        }
    }

    fn cond(&self, cc: u8) -> (r: bool)
        ensures
            r == cond(self.cpu, cc),
    {
        if cc == 0 {
            !self.cpu.is_fz()
        } else if cc == 1 {
            self.cpu.is_fz()
        } else if cc == 2 {
            !self.cpu.is_fc()
        } else {
            self.cpu.is_fc()
        }
    }

    /// Reads A from an address.
    fn load_a(&mut self, loc: u16) -> (r: Result<bool, Error>)
        requires
            old(self).wf(),
        ensures
            final(self).wf(),
            outcome(load_a(old(self)@, loc), final(self)@, r),
    {
        let byte = self.mem_read(loc)?;
        self.set_reg8(7, byte);
        Ok(false)
    }

    /// JR and JR cc.
    #[verifier::rlimit(30)]
    fn jr(&mut self, cc: u8, always: bool) -> (r: Result<bool, Error>)
        requires
            old(self).wf(),
        ensures
            final(self).wf(),
            outcome(spec_jr(old(self)@, cc, always), final(self)@, r),
    {
        let b = self.read_op()?;
        if b == 0x80 {
            // The offset's absolute value overflows.
            return Err(Error::Unsupported(self.cpu.pc));
        }
        let offs = b as i8;
        proof {
            lemma_signed_offset(b, 0);
        }
        let new_pc = wrapping_add_u16_i8(self.cpu.pc, offs);
        if always || self.cond(cc) {
            self.cpu.pc = new_pc;
            Ok(false)
        } else {
            Ok(true)
        }
    }

    /// INC r and DEC r.
    #[verifier::spinoff_prover]
    #[verifier::rlimit(40)]
    fn inc_dec(&mut self, y: u8, dec: bool) -> (r: Result<bool, Error>)
        requires
            old(self).wf(),
            y < 8,
        ensures
            final(self).wf(),
            outcome(spec_inc_dec(old(self)@, y, dec), final(self)@, r),
    {
        let v = self.load8(y)?;
        let (nv, h) = if dec {
            (v.wrapping_sub(1), is_half_carry_sub_u8(v, 1))
        } else {
            (v.wrapping_add(1), is_half_carry_add_u8(v, 1))
        };
        self.store8(y, nv)?;
        let fc = self.cpu.is_fc();
        let mut c = self.cpu;
        cpu_set_flags(&mut c, nv == 0, dec, h, fc);
        self.cpu = c;
        Ok(false)
    }

    /// RLCA, RRCA, RLA, RRA, DAA, CPL, SCF and CCF.
    fn acc_op(&mut self, y: u8)
        requires
            old(self).wf(),
            y < 8,
        ensures
            final(self).wf(),
            final(self)@ == with_cpu(old(self)@, acc_op(old(self).cpu, y)),
    {
        let mut c = self.cpu;
        cpu_acc_op(&mut c, y);
        self.cpu = c;
    }

    /// The accumulator operations.
    fn alu(&mut self, y: u8, v: u8)
        requires
            old(self).wf(),
        ensures
            final(self).wf(),
            final(self)@ == with_cpu(old(self)@, alu(old(self).cpu, y, v)),
    {
        let mut c = self.cpu;
        cpu_alu(&mut c, y, v);
        self.cpu = c;
    }
}

impl VM {
    /// NOP, LD (a16),SP, STOP, JR and JR cc.
    fn exec_x0_z0(&mut self, y: u8) -> (r: Result<bool, Error>)
        requires
            old(self).wf(),
            y < 8,
        ensures
            final(self).wf(),
            outcome(spec_x0(old(self)@, y, 0), final(self)@, r),
    {
        reveal(spec_x0);
        if y == 0 {
            // NOP
            Ok(false)
        } else if y == 1 {
            // LD (a16),SP
            let word = self.read_op_imm16()?;
            self.mem_write_u16(word, self.cpu.sp)?;
            Ok(false)
        } else if y == 2 {
            // STOP
            self.state = State::Stop;
            self.mem_write(MEM_LOC_DIV, 0)?;
            Ok(false)
        } else if y == 3 {
            // JR r8
            self.jr(0, true)
        } else {
            // JR cc,r8
            self.jr(y - 4, false)
        }
    }

    /// LD rr,d16 and ADD HL,rr.
    fn exec_x0_z1(&mut self, y: u8) -> (r: Result<bool, Error>)
        requires
            old(self).wf(),
            y < 8,
        ensures
            final(self).wf(),
            outcome(spec_x0(old(self)@, y, 1), final(self)@, r),
    {
        reveal(spec_x0);
        let p = y / 2;
        if y % 2 == 0 {
            let word = self.read_op_imm16()?;
            self.set_rp(p, word);
        } else {
            // ADD HL,rr: - 0 H C
            let v = self.get_rp(p);
            let hl = self.cpu.hl;
            let is_half_carry = is_half_carry_add_u16(hl, v);
            let is_carry = is_carry_add_u16(hl, v);
            let fz = self.cpu.is_fz();
            let mut c = self.cpu;
            cpu_set_flags(&mut c, fz, false, is_half_carry, is_carry);
            c.hl = hl.wrapping_add(v);
            self.cpu = c;
        }
        Ok(false)
    }

    /// LD (BC),A, LD A,(BC), LD (DE),A, LD A,(DE) and the loads through HL that move it.
    fn exec_x0_z2(&mut self, y: u8) -> (r: Result<bool, Error>)
        requires
            old(self).wf(),
            y < 8,
        ensures
            final(self).wf(),
            outcome(spec_x0(old(self)@, y, 2), final(self)@, r),
    {
        reveal(spec_x0);
        if y % 2 == 0 {
            self.exec_x0_z2_store(y)
        } else {
            self.exec_x0_z2_load(y)
        }
    }

    /// LD (BC),A, LD (DE),A, LD (HL+),A and LD (HL-),A.
    #[verifier::spinoff_prover]
    #[verifier::rlimit(40)]
    fn exec_x0_z2_store(&mut self, y: u8) -> (r: Result<bool, Error>)
        requires
            old(self).wf(),
            y < 8,
            y % 2 == 0,
        ensures
            final(self).wf(),
            outcome(spec_x0(old(self)@, y, 2), final(self)@, r),
    {
        reveal(spec_x0);
        let a = self.cpu.get_a();
        if y == 0 {
            self.mem_write(self.cpu.bc, a)?;
        } else if y == 2 {
            self.mem_write(self.cpu.de, a)?;
        } else {
            let hl = self.cpu.hl;
            self.mem_write(hl, a)?;
            if y == 4 {
                self.cpu.hl = hl.wrapping_add(1);
            } else {
                self.cpu.hl = hl.wrapping_sub(1);
            }
        }
        Ok(false)
    }

    /// LD A,(BC), LD A,(DE), LD A,(HL+) and LD A,(HL-).
    #[verifier::rlimit(30)]
    fn exec_x0_z2_load(&mut self, y: u8) -> (r: Result<bool, Error>)
        requires
            old(self).wf(),
            y < 8,
            y % 2 == 1,
        ensures
            final(self).wf(),
            outcome(spec_x0(old(self)@, y, 2), final(self)@, r),
    {
        reveal(spec_x0);
        if y == 1 {
            self.load_a(self.cpu.bc)
        } else if y == 3 {
            self.load_a(self.cpu.de)
        } else {
            let hl = self.cpu.hl;
            let byte = self.mem_read(hl)?;
            self.set_reg8(7, byte);
            if y == 5 {
                self.cpu.hl = hl.wrapping_add(1);
            } else {
                self.cpu.hl = hl.wrapping_sub(1);
            }
            Ok(false)
        }
    }

    /// INC rr and DEC rr.
    #[verifier::rlimit(30)]
    fn exec_x0_z3(&mut self, y: u8) -> (r: Result<bool, Error>)
        requires
            old(self).wf(),
            y < 8,
        ensures
            final(self).wf(),
            outcome(spec_x0(old(self)@, y, 3), final(self)@, r),
    {
        reveal(spec_x0);
        let p = y / 2;
        let v = self.get_rp(p);
        if y % 2 == 0 {
            self.set_rp(p, v.wrapping_add(1));
        } else {
            self.set_rp(p, v.wrapping_sub(1));
        }
        Ok(false)
    }

    /// The opcodes 0x00 to 0x3F.
    fn exec_x0(&mut self, y: u8, z: u8) -> (r: Result<bool, Error>)
        requires
            old(self).wf(),
            y < 8,
            z < 8,
        ensures
            final(self).wf(),
            outcome(spec_x0(old(self)@, y, z), final(self)@, r),
    {
        reveal(spec_x0);
        if z == 0 {
            self.exec_x0_z0(y)
        } else if z == 1 {
            self.exec_x0_z1(y)
        } else if z == 2 {
            self.exec_x0_z2(y)
        } else if z == 3 {
            self.exec_x0_z3(y)
        } else if z == 4 {
            // INC r
            self.inc_dec(y, false)
        } else if z == 5 {
            // DEC r
            self.inc_dec(y, true)
        } else if z == 6 {
            // LD r,d8
            let byte = self.read_op()?;
            self.store8(y, byte)?;
            Ok(false)
        } else {
            self.acc_op(y);
            Ok(false)
        }
    }

    /// RET, RETI, POP, JP (HL) and LD SP,HL.
    fn exec_x3_z1(&mut self, y: u8) -> (r: Result<bool, Error>)
        requires
            old(self).wf(),
            y < 8,
        ensures
            final(self).wf(),
            outcome(spec_x3(old(self)@, y, 1), final(self)@, r),
    {
        reveal(spec_x3);
        let p = y / 2;
        if y % 2 == 0 {
            let word = self.pop_u16()?;
            if p == 3 {
                // The rightmost 4 bits of F in AF is unused and must remain 0 at all times.
                proof {
                    lemma_u16(word);
                }
                self.cpu.af = word & !0xFu16;
            } else {
                self.set_rp(p, word);
            }
        } else if p == 0 {
            // RET
            let addr = self.pop_u16()?;
            self.cpu.pc = addr;
        } else if p == 1 {
            // RETI
            let addr = self.pop_u16()?;
            self.cpu.pc = addr;
            self.interrupt_master_enable_flag = true;
        } else if p == 2 {
            // JP (HL)
            self.cpu.pc = self.cpu.hl;
        } else {
            // LD SP,HL
            self.cpu.sp = self.cpu.hl;
        }
        Ok(false)
    }

    /// RET cc, LDH (a8),A, ADD SP,r8, LDH A,(a8) and LD HL,SP+r8.
    fn exec_x3_z0(&mut self, y: u8) -> (r: Result<bool, Error>)
        requires
            old(self).wf(),
            y < 8,
        ensures
            final(self).wf(),
            outcome(spec_x3(old(self)@, y, 0), final(self)@, r),
    {
        reveal(spec_x3);
        if y < 4 {
            if self.cond(y) {
                let addr = self.pop_u16()?;
                self.cpu.pc = addr;
                Ok(false)
            } else {
                Ok(true)
            }
        } else if y == 4 {
            // LDH (a8),A
            let byte = self.cpu.get_a();
            let b = self.read_op()?;
            let word = 0xFF00u16 | b as u16;
            proof {
                lemma_u8(b);
            }
            self.mem_write(word, byte)?;
            Ok(false)
        } else if y == 6 {
            // LDH A,(a8)
            let b = self.read_op()?;
            let word = 0xFF00u16 | b as u16;
            proof {
                lemma_u8(b);
            }
            self.load_a(word)
        } else {
            // ADD SP,r8 and LD HL,SP+r8: 0 0 H C
            let b = self.read_op()?;
            let sp = self.cpu.sp;
            proof {
                lemma_u16(sp);
                lemma_signed_offset(b, sp);
            }
            let l = (sp & 0xFF) as u8;
            let offs = b as i8;
            let word = (sp as i32 + offs as i32) as u16;
            let is_carry = is_carry_add_u8(l, b);
            let is_half_carry = is_half_carry_add_u8(l, b);
            let mut c = self.cpu;
            cpu_set_flags(&mut c, false, false, is_half_carry, is_carry);
            if y == 5 {
                c.sp = word;
            } else {
                c.hl = word;
            }
            self.cpu = c;
            proof {
                reveal(sp_plus);
            }
            Ok(false)
        }
    }
}

impl VM {
    /// JP cc, LD (C),A, LD (a16),A, LD A,(C) and LD A,(a16).
    fn exec_x3_z2(&mut self, y: u8) -> (r: Result<bool, Error>)
        requires
            old(self).wf(),
            y < 8,
        ensures
            final(self).wf(),
            outcome(spec_x3(old(self)@, y, 2), final(self)@, r),
    {
        reveal(spec_x3);
        if y < 4 {
            // JP cc,a16
            let addr = self.read_op_imm16()?;
            if self.cond(y) {
                self.cpu.pc = addr;
                Ok(false)
            } else {
                Ok(true)
            }
        } else if y == 4 || y == 6 {
            // LD (C),A and LD A,(C)
            let c = self.cpu.get_c();
            let word = 0xFF00u16 | c as u16;
            proof {
                lemma_u8(c);
            }
            if y == 4 {
                let byte = self.cpu.get_a();
                self.mem_write(word, byte)?;
                Ok(false)
            } else {
                self.load_a(word)
            }
        } else if y == 5 {
            // LD (a16),A
            let word = self.read_op_imm16()?;
            let byte = self.cpu.get_a();
            self.mem_write(word, byte)?;
            Ok(false)
        } else {
            // LD A,(a16)
            let word = self.read_op_imm16()?;
            self.load_a(word)
        }
    }

    /// JP a16, DI and EI (0xCB is the prefix, the rest are invalid).
    fn exec_x3_z3(&mut self, y: u8) -> (r: Result<bool, Error>)
        requires
            old(self).wf(),
            y == 0 || y == 6 || y == 7,
        ensures
            final(self).wf(),
            outcome(spec_x3(old(self)@, y, 3), final(self)@, r),
    {
        reveal(spec_x3);
        if y == 0 {
            // JP a16
            let addr = self.read_op_imm16()?;
            self.cpu.pc = addr;
        } else if y == 6 {
            // DI
            self.delayed_cmds.push(DelayedCommand::new(2, DelayedOp::MasterInterruptDisable));
        } else {
            // EI
            self.delayed_cmds.push(DelayedCommand::new(2, DelayedOp::MasterInterruptEnable));
        }
        Ok(false)
    }

    /// Pushes PC and jumps to `target`.
    fn call(&mut self, target: u16) -> (r: Result<bool, Error>)
        requires
            old(self).wf(),
        ensures
            final(self).wf(),
            outcome(call(old(self)@, target), final(self)@, r),
    {
        self.push_u16(self.cpu.pc)?;
        self.cpu.pc = target;
        Ok(false)
    }

    /// CALL cc, PUSH, CALL, ALU A,d8 and RST.
    fn exec_x3_z4_7(&mut self, y: u8, z: u8) -> (r: Result<bool, Error>)
        requires
            old(self).wf(),
            y < 8,
            4 <= z < 8,
            z == 4 ==> y < 4,
            z == 5 && y % 2 == 1 ==> y == 1,
        ensures
            final(self).wf(),
            outcome(spec_x3(old(self)@, y, z), final(self)@, r),
    {
        reveal(spec_x3);
        if z == 4 {
            // CALL cc,a16
            let addr = self.read_op_imm16()?;
            if self.cond(y) {
                self.call(addr)
            } else {
                Ok(true)
            }
        } else if z == 5 {
            if y % 2 == 0 {
                let p = y / 2;
                let word = if p == 3 {
                    let af = self.cpu.af;
                    proof {
                        lemma_u16(af);
                    }
                    af & 0xFFF0
                } else {
                    self.get_rp(p)
                };
                self.push_u16(word)?;
                Ok(false)
            } else {
                // CALL a16
                let addr = self.read_op_imm16()?;
                self.call(addr)
            }
        } else if z == 6 {
            // ALU A,d8
            let byte = self.read_op()?;
            self.alu(y, byte);
            Ok(false)
        } else {
            // RST
            self.call((y * 8) as u16)
        }
    }

    /// The opcodes 0xC0 to 0xFF but 0xCB and the invalid ones.
    fn exec_x3(&mut self, y: u8, z: u8) -> (r: Result<bool, Error>)
        requires
            old(self).wf(),
            y < 8,
            z < 8,
            !invalid_opcode((0xC0 + y * 8 + z) as u8),
            !(y == 1 && z == 3),
        ensures
            final(self).wf(),
            outcome(spec_x3(old(self)@, y, z), final(self)@, r),
    {
        if z == 0 {
            self.exec_x3_z0(y)
        } else if z == 1 {
            self.exec_x3_z1(y)
        } else if z == 2 {
            self.exec_x3_z2(y)
        } else if z == 3 {
            self.exec_x3_z3(y)
        } else {
            self.exec_x3_z4_7(y, z)
        }
    }

    /// The opcodes after the 0xCB prefix.
    fn exec_cb(&mut self, op: u8) -> (r: Result<bool, Error>)
        requires
            old(self).wf(),
        ensures
            final(self).wf(),
            outcome(spec_cb(old(self)@, op), final(self)@, r),
    {
        reveal(spec_cb);
        let x = op >> 6u8;
        let y = (op >> 3u8) & 7;
        let z = op & 7;
        proof {
            lemma_u8(op);
        }
        let v = self.load8(z)?;
        if x == 0 {
            let cy = self.cpu.is_fc();
            let (nv, c) = rotate(y, v, cy);
            self.store8(z, nv)?;
            let mut cpu = self.cpu;
            cpu_set_flags(&mut cpu, nv == 0, false, false, c);
            self.cpu = cpu;
        } else if x == 1 {
            // BIT: Z 0 1 -
            let b = is_bit(v, y);
            let fc = self.cpu.is_fc();
            let mut cpu = self.cpu;
            cpu_set_flags(&mut cpu, !b, false, true, fc);
            self.cpu = cpu;
        } else if x == 2 {
            // RES
            let nv = set_bit(v, y, false);
            self.store8(z, nv)?;
        } else {
            // SET
            let nv = set_bit(v, y, true);
            self.store8(z, nv)?;
        }
        Ok(false)
    }
}


impl VM {
    /// Runs an instruction whose opcode was fetched, and gives back its machine cycles.
    #[verifier::spinoff_prover]
    #[verifier::rlimit(60)]
    fn exec_instr(&mut self, op: u8) -> (r: Result<u8, Error>)
        requires
            old(self).wf(),
        ensures
            final(self).wf(),
            outcome(spec_instr(old(self)@, op), final(self)@, r),
    {
        assert(forall|i: int| 0 <= i < 256 ==> OPCODE_MCYCLE[i] <= 6 && OPCODE_MCYCLE_PREFIX[i] <= 4);
        if op == 0xCB {
            let op_cb = self.read_op()?;
            self.exec_cb(op_cb)?;
            return Ok(OPCODE_MCYCLE_PREFIX[op_cb as usize] + OPCODE_MCYCLE[0xCB]);
        }
        if op == 0xD3 || op == 0xDB || op == 0xDD || op == 0xE3 || op == 0xE4 || op == 0xEB || op
            == 0xEC || op == 0xED || op == 0xF4 || op == 0xFC || op == 0xFD {
            // Not an opcode of the CPU.
            return Err(Error::Unsupported(op as u16));
        }
        let x = op >> 6u8;
        let y = (op >> 3u8) & 7;
        let z = op & 7;
        proof {
            lemma_u8(op);
        }
        let is_alternative_mcycle = if x == 0 {
            self.exec_x0(y, z)?
        } else if x == 1 {
            if op == 0x76 {
                // HALT
                self.state = State::Halt;
            } else {
                // LD r,r
                let byte = self.load8(z)?;
                self.store8(y, byte)?;
            }
            false
        } else if x == 2 {
            // ADD, ADC, SUB, SBC, AND, XOR, OR, CP with a register or (HL)
            let byte = self.load8(z)?;
            self.alu(y, byte);
            false
        } else {
            self.exec_x3(y, z)?
        };
        if is_alternative_mcycle {
            Ok(OPCODE_MCYCLE_ALT[op as usize])
        } else {
            Ok(OPCODE_MCYCLE[op as usize])
        }
    }

    /// Counts the machine cycles an instruction took.
    pub(crate) fn tick(&mut self, mcycles: u8) -> (r: Result<(), Error>)
        requires
            old(self).wf(),
        ensures
            final(self).wf(),
            outcome(spec_tick(old(self)@, mcycles), final(self)@, r),
    {
        if self.cpu.mcycle > u64::MAX - mcycles as u64 {
            return Err(Error::Unsupported(self.cpu.pc));
        }
        self.cpu.mcycle = self.cpu.mcycle + mcycles as u64;
        Ok(())
    }

    /// Fetches, records and runs one instruction.
    pub fn exec_op(&mut self) -> (r: Result<(), Error>)
        requires
            old(self).wf(),
        ensures
            final(self).wf(),
            outcome(spec_exec_op(old(self)@), final(self)@, r),
    {
        let op = self.read_op()?;
        if self.cpu.pc == 0 {
            // The opcode was fetched at 0xFFFF: its address cannot be recorded.
            return Err(Error::Unsupported(0xFFFF));
        }

        self.op_history.push((self.cpu.pc - 1, op));
        if self.counter % 64 == 0 {
            self.deep_op_history.push((self.counter, self.cpu.pc - 1, op));
        }

        let iteration_mcycle = self.exec_instr(op)?;
        self.tick(iteration_mcycle)
    }
}


proof fn lemma_pack_af_low(a: u8, z: bool, n: bool, h: bool, cy: bool, low: u16)
    requires
        low < 16,
    ensures
        pack_af(a, z, n, h, cy, low) % 16 == low,
{
    let x: int = a * 256 + b2i(z) * 128 + b2i(n) * 64 + b2i(h) * 32 + b2i(cy) * 16 + low;
    assert(0 <= x < 0x10000);
    assert(x % 16 == low);
}

/// The register operations of the instruction set keep F's low nibble.
proof fn lemma_cpu_ops_keep_f_low()
    ensures
        forall|c: Cpu, r: u8, v: u8| (#[trigger] set_reg8(c, r, v)).af % 16 == c.af % 16,
        forall|c: Cpu, z: bool, n: bool, h: bool, cy: bool|
            (#[trigger] set_flags4(c, z, n, h, cy)).af % 16 == c.af % 16,
        forall|c: Cpu, a: u8, z: bool, n: bool, h: bool, cy: bool|
            (#[trigger] set_a_flags(c, a, z, n, h, cy)).af % 16 == c.af % 16,
        forall|c: Cpu, y: u8, v: u8| (#[trigger] alu(c, y, v)).af % 16 == c.af % 16,
        forall|c: Cpu, y: u8| (#[trigger] acc_op(c, y)).af % 16 == c.af % 16,
        forall|c: Cpu, b: u8| (#[trigger] sp_plus(c, b)).1.af % 16 == c.af % 16,
{
    assert forall|c: Cpu, z: bool, n: bool, h: bool, cy: bool|
        (#[trigger] set_flags4(c, z, n, h, cy)).af % 16 == c.af % 16 by {
        reveal(set_flags4);
        lemma_pack_af_low(hi(c.af), z, n, h, cy, c.af % 16);
    }
    assert forall|c: Cpu, a: u8, z: bool, n: bool, h: bool, cy: bool|
        (#[trigger] set_a_flags(c, a, z, n, h, cy)).af % 16 == c.af % 16 by {
        reveal(set_a_flags);
        lemma_pack_af_low(a, z, n, h, cy, c.af % 16);
    }
    assert forall|c: Cpu, r: u8, v: u8| (#[trigger] set_reg8(c, r, v)).af % 16 == c.af % 16 by {
        reveal(set_reg8);
        lemma_pack_af_low(v, flag_z(c.af), flag_n(c.af), flag_h(c.af), flag_c(c.af), c.af % 16);
    }
    assert forall|c: Cpu, y: u8, v: u8| (#[trigger] alu(c, y, v)).af % 16 == c.af % 16 by {
        reveal(alu);
    }
    assert forall|c: Cpu, y: u8| (#[trigger] acc_op(c, y)).af % 16 == c.af % 16 by {
        reveal(acc_op);
        reveal(daa);
    }
    assert forall|c: Cpu, b: u8| (#[trigger] sp_plus(c, b)).1.af % 16 == c.af % 16 by {
        reveal(sp_plus);
    }
}


/// The memory and stack operations leave F as it was.
proof fn lemma_state_ops_keep_f_low()
    ensures
        forall|s: VmState, loc: u16, b: u8|
            (#[trigger] vm_write(s, loc, b)) matches Some((s2, _)) ==> s2.cpu == s.cpu,
        forall|s: VmState, loc: u16, w: u16|
            (#[trigger] vm_write_u16(s, loc, w)) matches Some((s2, _)) ==> s2.cpu == s.cpu,
        forall|s: VmState, w: u16| (#[trigger] vm_push(s, w)) matches Some((s2, _)) ==> s2.cpu.af == s.cpu.af,
        forall|s: VmState| (#[trigger] vm_pop(s)) matches Some((s2, _)) ==> s2.cpu.af == s.cpu.af,
        forall|s: VmState| (#[trigger] fetch(s)) matches Some((s2, _)) ==> s2.cpu.af == s.cpu.af,
        forall|s: VmState| (#[trigger] fetch16(s)) matches Some((s2, _)) ==> s2.cpu.af == s.cpu.af,
        forall|s: VmState, r: u8| (#[trigger] load8(s, r)) matches Some((s2, _)) ==> s2 == s,
        forall|s: VmState, r: u8, v: u8|
            (#[trigger] store8(s, r, v)) matches Some((s2, _)) ==> s2.cpu.af % 16 == s.cpu.af % 16,
        forall|s: VmState, loc: u16|
            (#[trigger] load_a(s, loc)) matches Some((s2, _)) ==> s2.cpu.af % 16 == s.cpu.af % 16,
{
    lemma_cpu_ops_keep_f_low();
    assert forall|s: VmState, loc: u16, b: u8|
        (#[trigger] vm_write(s, loc, b)) matches Some((s2, _)) ==> s2.cpu == s.cpu by {
        reveal(vm_write);
        reveal(io_write);
    }
}

#[verifier::rlimit(60)]
proof fn lemma_x0_keeps_f_low(s: VmState, y: u8, z: u8)
    requires
        s.cpu.af % 16 == 0,
    ensures
        spec_x0(s, y, z) matches Some((s2, _)) ==> s2.cpu.af % 16 == 0,
{
    reveal(spec_x0);
    lemma_cpu_ops_keep_f_low();
    lemma_state_ops_keep_f_low();
}

#[verifier::rlimit(60)]
proof fn lemma_x3_keeps_f_low(s: VmState, y: u8, z: u8)
    requires
        s.cpu.af % 16 == 0,
    ensures
        spec_x3(s, y, z) matches Some((s2, _)) ==> s2.cpu.af % 16 == 0,
{
    reveal(spec_x3);
    lemma_cpu_ops_keep_f_low();
    lemma_state_ops_keep_f_low();
    if z == 1 && y % 2 == 0 {
        // POP AF clears the low nibble of what it pops.
        if let Some((s1, Ok(w))) = vm_pop(s) {
            assert(((w - w % 16) as u16) % 16 == 0) by (bit_vector);
        }
    }
}

#[verifier::rlimit(60)]
proof fn lemma_cb_keeps_f_low(s: VmState, op: u8)
    requires
        s.cpu.af % 16 == 0,
    ensures
        spec_cb(s, op) matches Some((s2, _)) ==> s2.cpu.af % 16 == 0,
{
    reveal(spec_cb);
    lemma_cpu_ops_keep_f_low();
    lemma_state_ops_keep_f_low();
}

proof fn lemma_instr_keeps_f_low(s: VmState, op: u8)
    requires
        s.cpu.af % 16 == 0,
    ensures
        spec_instr(s, op) matches Some((s2, _)) ==> s2.cpu.af % 16 == 0,
{
    lemma_cpu_ops_keep_f_low();
    lemma_state_ops_keep_f_low();
    if op == 0xCB {
        if let Some((s1, Ok(cb))) = fetch(s) {
            lemma_cb_keeps_f_low(s1, cb);
        }
    } else {
        lemma_x0_keeps_f_low(s, (op / 8) % 8, op % 8);
        lemma_x3_keeps_f_low(s, (op / 8) % 8, op % 8);
    }
}

/// The low nibble of F is unused and reads 0 at all times: from a state where it is clear, one
/// instruction (POP AF among them) leaves it clear, whatever the step returns.
pub proof fn lemma_exec_op_keeps_f_low(s: VmState)
    requires
        s.cpu.af % 16 == 0,
    ensures
        spec_exec_op(s) matches Some((s2, _)) ==> s2.cpu.af % 16 == 0,
{
    lemma_state_ops_keep_f_low();
    if let Some((s1, Ok(op))) = fetch(s) {
        if s1.cpu.pc != 0 {
            let pc = (s1.cpu.pc - 1) as u16;
            let s2 = VmState {
                op_history: keep_last(s1.op_history.push((pc, op)), 128),
                deep_op_history: if s1.counter % 64 == 0 {
                    keep_last(s1.deep_op_history.push((s1.counter, pc, op)), 128)
                } else {
                    s1.deep_op_history
                },
                ..s1
            };
            lemma_instr_keeps_f_low(s2, op);
        }
    }
}



/// The accumulator operations (ADD, ADC, SUB, SBC, AND, XOR, OR, CP with operand `v`) set A
/// and the flags as follows, and leave every other register: the carry is bit 8 of the 9 bit
/// sum, or for a subtraction clear in bit 8 of 0x100 plus the difference (a borrow); the half
/// carry is bit 4 of the sum of the low nibbles, or its borrow; Z says the result is 0 (for CP
/// that A equals v, A staying); N is set for SUB, SBC and CP; AND sets H; the logical
/// operations clear C.
#[verifier::rlimit(100)]
pub proof fn lemma_alu_results(c: Cpu, y: u8, v: u8)
    ensures
        ({
            let a = hi(c.af);
            let cin: u8 = if flag_c(c.af) { 1 } else { 0 };
            let r = alu(c, y, v);
            let sum = (a as u16 + v as u16) as u16;
            let sumc = (a as u16 + v as u16 + cin as u16) as u16;
            let diff = (0x100 + a as u16 - v as u16) as u16;
            let diffc = (0x100 + a as u16 - v as u16 - cin as u16) as u16;
            let h_add = (((a & 0xF) + (v & 0xF)) as u8) & 0x10 != 0;
            let h_adc = (((a & 0xF) + (v & 0xF) + cin) as u8) & 0x10 != 0;
            let h_sub = (((0x10 + (a & 0xF) - (v & 0xF)) as u8) & 0x10) == 0;
            let h_sbc = (((0x10 + (a & 0xF) - (v & 0xF) - cin) as u8) & 0x10) == 0;
            &&& crate::cpu::same_but_af(r, c)
            &&& r.af % 16 == c.af % 16
            &&& y == 0 ==> hi(r.af) == (sum & 0xFF) as u8 && flag_c(r.af) == (sum & 0x100 != 0)
                && flag_h(r.af) == h_add && !flag_n(r.af) && flag_z(r.af) == (hi(r.af) == 0)
            &&& y == 1 ==> hi(r.af) == (sumc & 0xFF) as u8 && flag_c(r.af) == (sumc & 0x100 != 0)
                && flag_h(r.af) == h_adc && !flag_n(r.af) && flag_z(r.af) == (hi(r.af) == 0)
            &&& y == 2 ==> hi(r.af) == (diff & 0xFF) as u8 && flag_c(r.af) == (diff & 0x100 == 0)
                && flag_h(r.af) == h_sub && flag_n(r.af) && flag_z(r.af) == (hi(r.af) == 0)
            &&& y == 3 ==> hi(r.af) == (diffc & 0xFF) as u8 && flag_c(r.af) == (diffc & 0x100
                == 0) && flag_h(r.af) == h_sbc && flag_n(r.af) && flag_z(r.af) == (hi(r.af) == 0)
            &&& y == 4 ==> hi(r.af) == a & v && !flag_c(r.af) && flag_h(r.af) && !flag_n(r.af)
                && flag_z(r.af) == (hi(r.af) == 0)
            &&& y == 5 ==> hi(r.af) == a ^ v && !flag_c(r.af) && !flag_h(r.af) && !flag_n(r.af)
                && flag_z(r.af) == (hi(r.af) == 0)
            &&& y == 6 ==> hi(r.af) == a | v && !flag_c(r.af) && !flag_h(r.af) && !flag_n(r.af)
                && flag_z(r.af) == (hi(r.af) == 0)
            &&& y >= 7 ==> hi(r.af) == a && flag_c(r.af) == (diff & 0x100 == 0) && flag_h(r.af)
                == h_sub && flag_n(r.af) && flag_z(r.af) == (a == v)
        }),
{
    let a = hi(c.af);
    let cin: u8 = if flag_c(c.af) { 1 } else { 0 };
    let cy = b2i(flag_c(c.af));
    let low = c.af % 16;
    crate::bits::lemma_alu_bits(a, v, cin);
    reveal(alu);
    reveal(set_a_flags);
    if y == 0 {
        crate::cpu::lemma_pack_af(((a + v) % 256) as u8, (a + v) % 256 == 0, false, a % 16 + v % 16 >= 16, a + v > 255, low);
    } else if y == 1 {
        crate::cpu::lemma_pack_af(((a + v + cy) % 256) as u8, (a + v + cy) % 256 == 0, false, a % 16 + v % 16 + cy >= 16, a + v + cy > 255, low);
    } else if y == 2 {
        crate::cpu::lemma_pack_af(((a - v + 256) % 256) as u8, a == v, true, a % 16 < v % 16, a < v, low);
    } else if y == 3 {
        crate::cpu::lemma_pack_af(((a - v - cy + 512) % 256) as u8, (a - v - cy + 512) % 256 == 0, true, a % 16 < v % 16 + cy, a < v + cy, low);
    } else if y == 4 {
        crate::cpu::lemma_pack_af(a & v, a & v == 0, false, true, false, low);
    } else if y == 5 {
        crate::cpu::lemma_pack_af(a ^ v, a ^ v == 0, false, false, false, low);
    } else if y == 6 {
        crate::cpu::lemma_pack_af(a | v, a | v == 0, false, false, false, low);
    } else {
        crate::cpu::lemma_pack_af(a, a == v, true, a % 16 < v % 16, a < v, low);
    }
}


/// Writing an 8 bit register and reading it back gives what was written, and the flags stay.
proof fn lemma_set_reg8_then_read(c: Cpu, r: u8, v: u8)
    requires
        r < 8,
        r != 6,
    ensures
        reg8(set_reg8(c, r, v), r) == v,
        flag_z(set_reg8(c, r, v).af) == flag_z(c.af),
        flag_n(set_reg8(c, r, v).af) == flag_n(c.af),
        flag_h(set_reg8(c, r, v).af) == flag_h(c.af),
        flag_c(set_reg8(c, r, v).af) == flag_c(c.af),
{
    reveal(set_reg8);
    crate::cpu::lemma_pack_af(v, flag_z(c.af), flag_n(c.af), flag_h(c.af), flag_c(c.af), c.af % 16);
}

/// BIT, RES and SET on a register operand (not (HL)). BIT y sets Z exactly when bit y of the
/// register is clear, clears N, sets H, and leaves C and the register. RES y clears bit y of
/// the register and SET y sets it; the other bits of the register and the flags stay.
#[verifier::rlimit(60)]
pub proof fn lemma_cb_bit_res_set(s: VmState, op: u8)
    requires
        op >= 0x40,
        op % 8 != 6,
    ensures
        ({
            let y = (op / 8) % 8;
            let z = op % 8;
            let v = reg8(s.cpu, z);
            let m = 1u8 << y;
            spec_cb(s, op) matches Some((s2, Ok(_))) && {
                &&& op < 0x80 ==> {
                    &&& flag_z(s2.cpu.af) == (v & m == 0)
                    &&& !flag_n(s2.cpu.af)
                    &&& flag_h(s2.cpu.af)
                    &&& flag_c(s2.cpu.af) == flag_c(s.cpu.af)
                    &&& reg8(s2.cpu, z) == v
                }
                &&& op >= 0x80 ==> {
                    &&& (reg8(s2.cpu, z) & m == 0) == (op < 0xC0)
                    &&& (reg8(s2.cpu, z) ^ v) | m == m
                    &&& flag_z(s2.cpu.af) == flag_z(s.cpu.af)
                    &&& flag_n(s2.cpu.af) == flag_n(s.cpu.af)
                    &&& flag_h(s2.cpu.af) == flag_h(s.cpu.af)
                    &&& flag_c(s2.cpu.af) == flag_c(s.cpu.af)
                }
            }
        }),
{
    let y = (op / 8) % 8;
    let z = op % 8;
    let c = s.cpu;
    let v = reg8(c, z);
    let m = 1u8 << y;
    reveal(spec_cb);
    assert(((v >> y) & 1 == 1) == (v & m != 0) && ((v & !(1u8 << y)) as u8) & m == 0 && (((v
        & !(1u8 << y)) as u8) ^ v) | m == m && ((v | (1u8 << y)) as u8) & m != 0 && (((v | (1u8
        << y)) as u8) ^ v) | m == m) by (bit_vector)
        requires
            y < 8,
            m == 1u8 << y,
    ;
    if op < 0x80 {
        reveal(set_flags4);
        crate::cpu::lemma_pack_af(hi(c.af), !bit_of(v, y), false, true, flag_c(c.af), c.af % 16);
        assert(reg8(set_flags4(c, !bit_of(v, y), false, true, flag_c(c.af)), z) == v);
    } else if op < 0xC0 {
        lemma_set_reg8_then_read(c, z, (v & !(1u8 << y)) as u8);
    } else {
        lemma_set_reg8_then_read(c, z, (v | (1u8 << y)) as u8);
    }
}


/// INC r and DEC r on a register operand (not (HL)) add or take 1, wrapping; Z says the result
/// is 0, N is set for DEC, H says a carry left the low nibble (INC of xF) or a borrow entered
/// it (DEC of x0), and C stays.
#[verifier::rlimit(60)]
pub proof fn lemma_inc_dec_results(s: VmState, y: u8, dec: bool)
    requires
        y < 8,
        y != 6,
    ensures
        ({
            let v = reg8(s.cpu, y);
            spec_inc_dec(s, y, dec) matches Some((s2, Ok(_))) && {
                &&& reg8(s2.cpu, y) == (if dec {
                    (((v as u16 + 0xFF) as u16) & 0xFF) as u8
                } else {
                    (((v as u16 + 1) as u16) & 0xFF) as u8
                })
                &&& flag_z(s2.cpu.af) == (reg8(s2.cpu, y) == 0)
                &&& flag_n(s2.cpu.af) == dec
                &&& flag_h(s2.cpu.af) == (if dec {
                    v & 0x0F == 0
                } else {
                    v & 0x0F == 0x0F
                })
                &&& flag_c(s2.cpu.af) == flag_c(s.cpu.af)
            }
        }),
{
    let c = s.cpu;
    let v = reg8(c, y);
    assert(((v + 1) % 256) as u8 == (((v as u16 + 1) as u16) & 0xFF) as u8 && ((v - 1 + 256) % 256) as u8
        == (((v as u16 + 0xFF) as u16) & 0xFF) as u8 && (v % 16 + 1 >= 16) == (v & 0x0F == 0x0F) && (v % 16
        < 1) == (v & 0x0F == 0)) by (bit_vector);
    let nv = if dec {
        ((v - 1 + 256) % 256) as u8
    } else {
        ((v + 1) % 256) as u8
    };
    let h = if dec {
        v % 16 < 1
    } else {
        v % 16 + 1 >= 16
    };
    lemma_set_reg8_then_read(c, y, nv);
    let c1 = set_reg8(c, y, nv);
    reveal(set_flags4);
    crate::cpu::lemma_pack_af(hi(c1.af), nv == 0, dec, h, flag_c(c1.af), c1.af % 16);
    assert(reg8(set_flags4(c1, nv == 0, dec, h, flag_c(c1.af)), y) == reg8(c1, y));
}

/// ADD HL,rr: HL takes the 16 bit sum, wrapping; H is the carry out of bit 11 and C the carry
/// out of bit 15; N is cleared, and Z and A stay.
#[verifier::rlimit(60)]
pub proof fn lemma_add_hl_results(s: VmState, p: u8)
    requires
        p < 4,
    ensures
        ({
            let c = s.cpu;
            let w = rp(c, p);
            let sum = (c.hl as u32 + w as u32) as u32;
            spec_x0(s, (2 * p + 1) as u8, 1) matches Some((s2, Ok(_))) && {
                &&& s2.cpu.hl == (sum & 0xFFFF) as u16
                &&& flag_h(s2.cpu.af) == ((((c.hl & 0x0FFF) + (w & 0x0FFF)) as u16) & 0x1000 != 0)
                &&& flag_c(s2.cpu.af) == (sum & 0x10000 != 0)
                &&& !flag_n(s2.cpu.af)
                &&& flag_z(s2.cpu.af) == flag_z(c.af)
                &&& hi(s2.cpu.af) == hi(c.af)
            }
        }),
{
    let c = s.cpu;
    let w = rp(c, p);
    let hl = c.hl;
    assert(((hl + w) % 0x10000) as u16 == (((hl as u32 + w as u32) as u32) & 0xFFFF) as u16 && (hl
        % 4096 + w % 4096 >= 4096) == ((((hl & 0x0FFF) + (w & 0x0FFF)) as u16) & 0x1000 != 0) && (hl
        + w > 65535) == (((hl as u32 + w as u32) as u32) & 0x10000 != 0)) by (bit_vector);
    reveal(spec_x0);
    reveal(set_flags4);
    crate::cpu::lemma_pack_af(
        hi(c.af),
        flag_z(c.af),
        false,
        hl % 4096 + w % 4096 >= 4096,
        hl + w > 65535,
        c.af % 16,
    );
}


/// The signed offset of JR, ADD SP,r8 and LD HL,SP+r8 is the byte sign extended to 16 bits and
/// added, wrapping: bit 7 of the byte makes it negative.
pub proof fn lemma_add_signed_extends(w: u16, b: u8)
    ensures
        add_signed(w, b) == (((w as u32 + (if b & 0x80 != 0 {
            0xFF00u32 | (b as u32)
        } else {
            b as u32
        })) as u32) & 0xFFFF) as u16,
{
    assert(((w + (if b < 128 { b as int } else { b - 256 }) + 0x10000) % 0x10000) as u16 == (((w
        as u32 + (if b & 0x80 != 0 {
        0xFF00u32 | (b as u32)
    } else {
        b as u32
    })) as u32) & 0xFFFF) as u16) by (bit_vector);
}

} // verus!
