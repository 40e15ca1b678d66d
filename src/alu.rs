//! Arithmetic-logic unit: every operation returns its result together with
//! the four status flags it leaves behind.

use vstd::prelude::*;

verus! {

/// The four status flags: Zero, Subtract, Half-carry, Carry.
#[derive(Debug, Clone, Copy, PartialEq, Eq, Structural)]
pub struct Flags {
    pub z: bool,
    pub n: bool,
    pub h: bool,
    pub c: bool,
}

/// Flag byte with Z at bit 7, N at bit 6, H at bit 5, C at bit 4 and a zero low
/// nibble.
pub open spec fn flags_byte(fl: Flags) -> u8 {
    ((if fl.z { 0x80int } else { 0 }) + (if fl.n { 0x40int } else { 0 }) + (if fl.h {
        0x20int
    } else {
        0
    }) + (if fl.c { 0x10int } else { 0 })) as u8
}

/// The flags held in a flag byte: bits 7, 6, 5 and 4.
pub open spec fn flags_of(f: u8) -> Flags {
    Flags { z: f / 128 % 2 == 1, n: f / 64 % 2 == 1, h: f / 32 % 2 == 1, c: f / 16 % 2 == 1 }
}

/// Packing and unpacking the flag byte agree, and a packed byte has a zero low
/// nibble.
pub proof fn lemma_flags_byte(fl: Flags)
    ensures
        flags_of(flags_byte(fl)) == fl,
        flags_byte(fl) % 16 == 0,
{
}

impl Flags {
    pub fn to_byte(self) -> (r: u8)
        ensures
            r == flags_byte(self),
    {
        let mut r: u8 = 0;
        if self.z {
            r = r + 0x80;
        }
        if self.n {
            r = r + 0x40;
        }
        if self.h {
            r = r + 0x20;
        }
        if self.c {
            r = r + 0x10;
        }
        r
    }

    pub fn from_byte(f: u8) -> (r: Flags)
        ensures
            r == flags_of(f),
    {
        Flags { z: f / 128 % 2 == 1, n: f / 64 % 2 == 1, h: f / 32 % 2 == 1, c: f / 16 % 2 == 1 }
    }
}

/// An 8-bit result and the flags it sets.
#[derive(Debug, Clone, Copy, PartialEq, Eq, Structural)]
pub struct Alu8 {
    pub value: u8,
    pub flags: Flags,
}

/// A 16-bit result and the flags it sets.
#[derive(Debug, Clone, Copy, PartialEq, Eq, Structural)]
pub struct Alu16 {
    pub value: u16,
    pub flags: Flags,
}

pub open spec fn bit_of(b: bool) -> int {
    if b { 1 } else { 0 }
}

/// ADD / ADC: `a + b + carry`, half-carry out of bit 3 and carry out of bit 7.
pub open spec fn add8_spec(a: u8, b: u8, carry: bool) -> Alu8 {
    let sum = a + b + bit_of(carry);
    let value = (sum % 256) as u8;
    Alu8 {
        value,
        flags: Flags {
            z: value == 0,
            n: false,
            h: a % 16 + b % 16 + bit_of(carry) > 15,
            c: sum > 255,
        },
    }
}

/// SUB / SBC / CP: `a - b - carry`, borrows out of bit 3 and bit 7.
pub open spec fn sub8_spec(a: u8, b: u8, carry: bool) -> Alu8 {
    let diff = a - b - bit_of(carry);
    let value = (if diff < 0 { diff + 256 } else { diff }) as u8;
    Alu8 {
        value,
        flags: Flags {
            z: value == 0,
            n: true,
            h: a % 16 < b % 16 + bit_of(carry),
            c: a < b + bit_of(carry),
        },
    }
}

pub open spec fn and8_spec(a: u8, b: u8) -> Alu8 {
    Alu8 { value: a & b, flags: Flags { z: a & b == 0, n: false, h: true, c: false } }
}

pub open spec fn or8_spec(a: u8, b: u8) -> Alu8 {
    Alu8 { value: a | b, flags: Flags { z: a | b == 0, n: false, h: false, c: false } }
}

pub open spec fn xor8_spec(a: u8, b: u8) -> Alu8 {
    Alu8 { value: a ^ b, flags: Flags { z: a ^ b == 0, n: false, h: false, c: false } }
}

/// INC keeps the carry flag.
pub open spec fn inc8_spec(v: u8, carry: bool) -> Alu8 {
    let value = v.wrapping_add(1);
    Alu8 { value, flags: Flags { z: value == 0, n: false, h: v % 16 == 15, c: carry } }
}

/// DEC keeps the carry flag.
pub open spec fn dec8_spec(v: u8, carry: bool) -> Alu8 {
    let value = v.wrapping_sub(1);
    Alu8 { value, flags: Flags { z: value == 0, n: true, h: v % 16 == 0, c: carry } }
}

/// Result flags of rotates and shifts: Z from the result, C from the bit
/// shifted out.
pub open spec fn shifted(value: u8, out: bool) -> Alu8 {
    Alu8 { value, flags: Flags { z: value == 0, n: false, h: false, c: out } }
}

pub open spec fn rlc8_spec(v: u8) -> Alu8 {
    shifted((v << 1u8) | (v >> 7u8), v >= 0x80)
}

pub open spec fn rl8_spec(v: u8, carry: bool) -> Alu8 {
    shifted((v << 1u8) | (if carry { 1u8 } else { 0u8 }), v >= 0x80)
}

pub open spec fn rrc8_spec(v: u8) -> Alu8 {
    shifted((v >> 1u8) | (v << 7u8), v % 2 == 1)
}

pub open spec fn rr8_spec(v: u8, carry: bool) -> Alu8 {
    shifted((v >> 1u8) | (if carry { 0x80u8 } else { 0u8 }), v % 2 == 1)
}

pub open spec fn sla8_spec(v: u8) -> Alu8 {
    shifted(v << 1u8, v >= 0x80)
}

pub open spec fn sra8_spec(v: u8) -> Alu8 {
    shifted((v >> 1u8) | (v & 0x80u8), v % 2 == 1)
}

pub open spec fn srl8_spec(v: u8) -> Alu8 {
    shifted(v >> 1u8, v % 2 == 1)
}

pub open spec fn swap8_spec(v: u8) -> Alu8 {
    shifted(((v & 0x0fu8) << 4u8) | (v >> 4u8), false)
}

/// BIT: Z is set when bit `pos` of `v` is clear; C is kept.
pub open spec fn bit8_spec(pos: u8, v: u8, carry: bool) -> Flags {
    Flags { z: (v >> pos) & 1u8 == 0, n: false, h: true, c: carry }
}

pub open spec fn set8_spec(pos: u8, v: u8) -> u8 {
    v | (1u8 << pos)
}

pub open spec fn res8_spec(pos: u8, v: u8) -> u8 {
    v & !(1u8 << pos)
}

/// DAA: BCD correction of `a` after an addition (`fl.n` clear) or a
/// subtraction (`fl.n` set). N is kept and H cleared.
pub open spec fn daa_spec(a: u8, fl: Flags) -> Alu8 {
    if !fl.n {
        let hi = fl.c || a > 0x99;
        let a1 = if hi { a.wrapping_add(0x60) } else { a };
        let a2 = if fl.h || a1 % 16 > 9 { a1.wrapping_add(0x06) } else { a1 };
        Alu8 { value: a2, flags: Flags { z: a2 == 0, n: false, h: false, c: hi } }
    } else {
        let a1 = if fl.c { a.wrapping_sub(0x60) } else { a };
        let a2 = if fl.h { a1.wrapping_sub(0x06) } else { a1 };
        Alu8 { value: a2, flags: Flags { z: a2 == 0, n: true, h: false, c: fl.c } }
    }
}

/// ADD HL, r16: Z kept, half-carry out of bit 11, carry out of bit 15.
pub open spec fn add16_spec(hl: u16, v: u16, zero: bool) -> Alu16 {
    Alu16 {
        value: hl.wrapping_add(v),
        flags: Flags { z: zero, n: false, h: hl % 4096 + v % 4096 > 4095, c: hl + v > 0xffff },
    }
}

/// SP plus a signed 8-bit offset; the flags treat the offset as an unsigned
/// byte added to the low byte of SP.
pub open spec fn add_sp_spec(sp: u16, offset: u8) -> Alu16 {
    Alu16 {
        value: sp.wrapping_add_signed(offset as i8 as i16),
        flags: Flags { z: false, n: false, h: sp % 16 + offset % 16 > 15, c: sp % 256 + offset > 255 },
    }
}

pub fn add8(a: u8, b: u8, carry: bool) -> (r: Alu8)
    ensures
        r == add8_spec(a, b, carry),
{
    let cin: u8 = if carry { 1 } else { 0 };
    let sum: u16 = a as u16 + b as u16 + cin as u16;
    let value = (sum % 256) as u8;
    Alu8 {
        value,
        flags: Flags { z: value == 0, n: false, h: a % 16 + b % 16 + cin > 15, c: sum > 255 },
    }
}

pub fn sub8(a: u8, b: u8, carry: bool) -> (r: Alu8)
    ensures
        r == sub8_spec(a, b, carry),
{
    let cin: u8 = if carry { 1 } else { 0 };
    let value = a.wrapping_sub(b).wrapping_sub(cin);
    Alu8 {
        value,
        flags: Flags {
            z: value == 0,
            n: true,
            h: a % 16 < b % 16 + cin,
            c: (a as u16) < b as u16 + cin as u16,
        },
    }
}

pub fn and8(a: u8, b: u8) -> (r: Alu8)
    ensures
        r == and8_spec(a, b),
{
    let value = a & b;
    Alu8 { value, flags: Flags { z: value == 0, n: false, h: true, c: false } }
}

pub fn or8(a: u8, b: u8) -> (r: Alu8)
    ensures
        r == or8_spec(a, b),
{
    let value = a | b;
    Alu8 { value, flags: Flags { z: value == 0, n: false, h: false, c: false } }
}

pub fn xor8(a: u8, b: u8) -> (r: Alu8)
    ensures
        r == xor8_spec(a, b),
{
    let value = a ^ b;
    Alu8 { value, flags: Flags { z: value == 0, n: false, h: false, c: false } }
}

pub fn inc8(v: u8, carry: bool) -> (r: Alu8)
    ensures
        r == inc8_spec(v, carry),
{
    let value = v.wrapping_add(1);
    Alu8 { value, flags: Flags { z: value == 0, n: false, h: v % 16 == 15, c: carry } }
}

pub fn dec8(v: u8, carry: bool) -> (r: Alu8)
    ensures
        r == dec8_spec(v, carry),
{
    let value = v.wrapping_sub(1);
    Alu8 { value, flags: Flags { z: value == 0, n: true, h: v % 16 == 0, c: carry } }
}

fn shift_result(value: u8, out: bool) -> (r: Alu8)
    ensures
        r == shifted(value, out),
{
    Alu8 { value, flags: Flags { z: value == 0, n: false, h: false, c: out } }
}

pub fn rlc8(v: u8) -> (r: Alu8)
    ensures
        r == rlc8_spec(v),
{
    shift_result((v << 1u8) | (v >> 7u8), v >= 0x80)
}

pub fn rl8(v: u8, carry: bool) -> (r: Alu8)
    ensures
        r == rl8_spec(v, carry),
{
    shift_result((v << 1u8) | (if carry { 1u8 } else { 0u8 }), v >= 0x80)
}

pub fn rrc8(v: u8) -> (r: Alu8)
    ensures
        r == rrc8_spec(v),
{
    shift_result((v >> 1u8) | (v << 7u8), v % 2 == 1)
}

pub fn rr8(v: u8, carry: bool) -> (r: Alu8)
    ensures
        r == rr8_spec(v, carry),
{
    shift_result((v >> 1u8) | (if carry { 0x80u8 } else { 0u8 }), v % 2 == 1)
}

pub fn sla8(v: u8) -> (r: Alu8)
    ensures
        r == sla8_spec(v),
{
    shift_result(v << 1u8, v >= 0x80)
}

pub fn sra8(v: u8) -> (r: Alu8)
    ensures
        r == sra8_spec(v),
{
    shift_result((v >> 1u8) | (v & 0x80u8), v % 2 == 1)
}

pub fn srl8(v: u8) -> (r: Alu8)
    ensures
        r == srl8_spec(v),
{
    shift_result(v >> 1u8, v % 2 == 1)
}

pub fn swap8(v: u8) -> (r: Alu8)
    ensures
        r == swap8_spec(v),
{
    shift_result(((v & 0x0fu8) << 4u8) | (v >> 4u8), false)
}

pub fn bit8(pos: u8, v: u8, carry: bool) -> (r: Flags)
    requires
        pos < 8,
    ensures
        r == bit8_spec(pos, v, carry),
{
    Flags { z: (v >> pos) & 1u8 == 0, n: false, h: true, c: carry }
}

pub fn set8(pos: u8, v: u8) -> (r: u8)
    requires
        pos < 8,
    ensures
        r == set8_spec(pos, v),
{
    v | (1u8 << pos)
}

pub fn res8(pos: u8, v: u8) -> (r: u8)
    requires
        pos < 8,
    ensures
        r == res8_spec(pos, v),
{
    v & !(1u8 << pos)
}

pub fn daa8(a: u8, fl: Flags) -> (r: Alu8)
    ensures
        r == daa_spec(a, fl),
{
    let mut v = a;
    let mut c = fl.c;
    if !fl.n {
        if fl.c || v > 0x99 {
            v = v.wrapping_add(0x60);
            c = true;
        }
        if fl.h || v % 16 > 9 {
            v = v.wrapping_add(0x06);
        }
    } else {
        if fl.c {
            v = v.wrapping_sub(0x60);
        }
        if fl.h {
            v = v.wrapping_sub(0x06);
        }
    }
    Alu8 { value: v, flags: Flags { z: v == 0, n: fl.n, h: false, c } }
}

pub fn add16(hl: u16, v: u16, zero: bool) -> (r: Alu16)
    ensures
        r == add16_spec(hl, v, zero),
{
    let h = hl % 4096 + v % 4096 > 4095;
    let c = hl as u32 + v as u32 > 0xffff;
    Alu16 { value: hl.wrapping_add(v), flags: Flags { z: zero, n: false, h, c } }
}

pub fn add_sp(sp: u16, offset: u8) -> (r: Alu16)
    ensures
        r == add_sp_spec(sp, offset),
{
    let h = sp % 16 + (offset % 16) as u16 > 15;
    let c = sp % 256 + offset as u16 > 255;
    Alu16 {
        value: sp.wrapping_add_signed(offset as i8 as i16),
        flags: Flags { z: false, n: false, h, c },
    }
}

} // verus!
