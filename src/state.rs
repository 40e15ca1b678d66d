//! The architectural state as a mathematical value, and what each instruction
//! does to it.

use vstd::prelude::*;

use crate::alu::{
    add16_spec, add8_spec, add_sp_spec, and8_spec, bit8_spec, daa_spec, dec8_spec, flags_byte,
    flags_of, inc8_spec, or8_spec, res8_spec, rl8_spec, rlc8_spec, rr8_spec, rrc8_spec, set8_spec,
    sla8_spec, sra8_spec, srl8_spec, sub8_spec, swap8_spec, xor8_spec, Alu8, Flags,
};
use crate::decode::{decode_cb_spec, decode_spec, AluOp, CbInstr, CbOp, Cond, Instr};
use crate::mmu::{mem_read16, mem_write, mem_write16, ADDR_SPACE};

verus! {

/// Registers and the address space as the CPU sees them.
pub struct CpuView {
    pub pc: u16,
    pub sp: u16,
    pub a: u8,
    pub f: u8,
    pub b: u8,
    pub c: u8,
    pub d: u8,
    pub e: u8,
    pub h: u8,
    pub l: u8,
    pub mem: Seq<u8>,
}

/// A register pair: `hi` is the high byte.
pub open spec fn pair(hi: u8, lo: u8) -> u16 {
    (hi * 256 + lo) as u16
}

pub open spec fn hi_byte(v: u16) -> u8 {
    (v / 256) as u8
}

pub open spec fn lo_byte(v: u16) -> u8 {
    (v % 256) as u8
}

/// Target of a relative jump: `pc` plus the signed offset byte, wrapping.
pub open spec fn jr_target(pc: u16, offset: u8) -> u16 {
    pc.wrapping_add_signed(offset as i8 as i16)
}

/// Address of the I/O-port loads: 0xFF00 plus the offset byte.
pub open spec fn io_addr(offset: u8) -> u16 {
    (0xff00 + offset) as u16
}

impl CpuView {
    /// The flag register's low nibble is zero and the address space is whole.
    pub open spec fn wf(self) -> bool {
        self.f % 16 == 0 && self.mem.len() == ADDR_SPACE
    }

    pub open spec fn af(self) -> u16 {
        pair(self.a, self.f)
    }

    pub open spec fn bc(self) -> u16 {
        pair(self.b, self.c)
    }

    pub open spec fn de(self) -> u16 {
        pair(self.d, self.e)
    }

    pub open spec fn hl(self) -> u16 {
        pair(self.h, self.l)
    }

    pub open spec fn flags(self) -> Flags {
        flags_of(self.f)
    }

    pub open spec fn byte(self, addr: u16) -> u8 {
        self.mem[addr as int]
    }

    /// 8-bit operand `idx`: B, C, D, E, H, L, memory at HL, A.
    pub open spec fn reg8(self, idx: u8) -> u8 {
        match idx {
            0 => self.b,
            1 => self.c,
            2 => self.d,
            3 => self.e,
            4 => self.h,
            5 => self.l,
            6 => self.byte(self.hl()),
            _ => self.a,
        }
    }

    /// 16-bit operand `idx`: BC, DE, HL, SP.
    pub open spec fn reg16(self, idx: u8) -> u16 {
        match idx {
            0 => self.bc(),
            1 => self.de(),
            2 => self.hl(),
            _ => self.sp,
        }
    }

    /// Stack operand `idx` of push and pop: BC, DE, HL, AF.
    pub open spec fn pair16(self, idx: u8) -> u16 {
        if idx == 3 {
            self.af()
        } else {
            self.reg16(idx)
        }
    }

    /// The 8-bit immediate at PC.
    pub open spec fn imm8(self) -> u8 {
        self.byte(self.pc)
    }

    /// The little-endian 16-bit immediate at PC.
    pub open spec fn imm16(self) -> u16 {
        mem_read16(self.mem, self.pc)
    }

    pub open spec fn cond(self, cc: Cond) -> bool {
        match cc {
            Cond::NZ => !self.flags().z,
            Cond::Z => self.flags().z,
            Cond::NC => !self.flags().c,
            Cond::C => self.flags().c,
        }
    }

    pub open spec fn with_pc(self, pc: u16) -> CpuView {
        CpuView { pc, ..self }
    }

    /// PC moved past `n` operand bytes.
    pub open spec fn advance(self, n: u16) -> CpuView {
        self.with_pc(self.pc.wrapping_add(n))
    }

    pub open spec fn with_sp(self, sp: u16) -> CpuView {
        CpuView { sp, ..self }
    }

    pub open spec fn with_a(self, a: u8) -> CpuView {
        CpuView { a, ..self }
    }

    pub open spec fn with_flags(self, fl: Flags) -> CpuView {
        CpuView { f: flags_byte(fl), ..self }
    }

    pub open spec fn write(self, addr: u16, val: u8) -> CpuView {
        CpuView { mem: mem_write(self.mem, addr, val), ..self }
    }

    pub open spec fn write16(self, addr: u16, val: u16) -> CpuView {
        CpuView { mem: mem_write16(self.mem, addr, val), ..self }
    }

    pub open spec fn with_bc(self, v: u16) -> CpuView {
        CpuView { b: hi_byte(v), c: lo_byte(v), ..self }
    }

    pub open spec fn with_de(self, v: u16) -> CpuView {
        CpuView { d: hi_byte(v), e: lo_byte(v), ..self }
    }

    pub open spec fn with_hl(self, v: u16) -> CpuView {
        CpuView { h: hi_byte(v), l: lo_byte(v), ..self }
    }

    /// AF written as a pair: the low nibble of F is forced to zero.
    pub open spec fn with_af(self, v: u16) -> CpuView {
        CpuView { a: hi_byte(v), f: (lo_byte(v) / 16 * 16) as u8, ..self }
    }

    pub open spec fn with_reg8(self, idx: u8, v: u8) -> CpuView {
        match idx {
            0 => CpuView { b: v, ..self },
            1 => CpuView { c: v, ..self },
            2 => CpuView { d: v, ..self },
            3 => CpuView { e: v, ..self },
            4 => CpuView { h: v, ..self },
            5 => CpuView { l: v, ..self },
            6 => self.write(self.hl(), v),
            _ => self.with_a(v),
        }
    }

    pub open spec fn with_reg16(self, idx: u8, v: u16) -> CpuView {
        match idx {
            0 => self.with_bc(v),
            1 => self.with_de(v),
            2 => self.with_hl(v),
            _ => self.with_sp(v),
        }
    }

    pub open spec fn with_pair16(self, idx: u8, v: u16) -> CpuView {
        if idx == 3 {
            self.with_af(v)
        } else {
            self.with_reg16(idx, v)
        }
    }

    /// Pre-decrement SP by two and store `v` there, little-endian.
    pub open spec fn push(self, v: u16) -> CpuView {
        let sp = self.sp.wrapping_sub(2);
        self.with_sp(sp).write16(sp, v)
    }

    /// Stack operand `idx` loaded from SP, then SP incremented by two.
    pub open spec fn pop(self, idx: u8) -> CpuView {
        self.with_pair16(idx, mem_read16(self.mem, self.sp)).with_sp(self.sp.wrapping_add(2))
    }

    /// Push the return address (the current PC) and go to `target`.
    pub open spec fn call(self, target: u16) -> CpuView {
        self.push(self.pc).with_pc(target)
    }

    /// Load PC from the stack and release its two bytes.
    pub open spec fn ret(self) -> CpuView {
        CpuView { pc: mem_read16(self.mem, self.sp), sp: self.sp.wrapping_add(2), ..self }
    }

    /// Store an 8-bit result into operand `idx` and set its flags.
    pub open spec fn store8(self, idx: u8, r: Alu8) -> CpuView {
        self.with_reg8(idx, r.value).with_flags(r.flags)
    }
}

/// The accumulator operation `op` on A and `v`.
pub open spec fn alu_spec(op: AluOp, a: u8, v: u8, fl: Flags) -> Alu8 {
    match op {
        AluOp::Add => add8_spec(a, v, false),
        AluOp::Adc => add8_spec(a, v, fl.c),
        AluOp::Sub => sub8_spec(a, v, false),
        AluOp::Sbc => sub8_spec(a, v, fl.c),
        AluOp::And => and8_spec(a, v),
        AluOp::Xor => xor8_spec(a, v),
        AluOp::Or => or8_spec(a, v),
        AluOp::Cp => sub8_spec(a, v, false),
    }
}

/// Result of an accumulator operation: CP only sets the flags.
pub open spec fn apply_alu(s: CpuView, op: AluOp, v: u8) -> CpuView {
    let r = alu_spec(op, s.a, v, s.flags());
    if op == AluOp::Cp {
        s.with_flags(r.flags)
    } else {
        s.with_a(r.value).with_flags(r.flags)
    }
}

/// A prefixed instruction on state `s`.
pub open spec fn cb_spec(s: CpuView, i: CbInstr) -> CpuView {
    let v = s.reg8(i.reg);
    let carry = s.flags().c;
    match i.op {
        CbOp::Rlc => s.store8(i.reg, rlc8_spec(v)),
        CbOp::Rrc => s.store8(i.reg, rrc8_spec(v)),
        CbOp::Rl => s.store8(i.reg, rl8_spec(v, carry)),
        CbOp::Rr => s.store8(i.reg, rr8_spec(v, carry)),
        CbOp::Sla => s.store8(i.reg, sla8_spec(v)),
        CbOp::Sra => s.store8(i.reg, sra8_spec(v)),
        CbOp::Swap => s.store8(i.reg, swap8_spec(v)),
        CbOp::Srl => s.store8(i.reg, srl8_spec(v)),
        CbOp::Bit { pos } => s.with_flags(bit8_spec(pos, v, carry)),
        CbOp::ResetBit { pos } => s.with_reg8(i.reg, res8_spec(pos, v)),
        CbOp::SetBit { pos } => s.with_reg8(i.reg, set8_spec(pos, v)),
    }
}

/// Rotates of A clear Z whatever the result.
pub open spec fn rotate_a(s: CpuView, r: Alu8) -> CpuView {
    s.with_a(r.value).with_flags(Flags { z: false, ..r.flags })
}

/// Instruction `i` on state `s`, whose PC is already past the opcode byte.
pub open spec fn execute_spec(s: CpuView, i: Instr) -> CpuView {
    let fl = s.flags();
    match i {
        Instr::Nop => s,
        Instr::LdR16D16 { reg } => s.advance(2).with_reg16(reg, s.imm16()),
        Instr::LdIndD16Sp => s.advance(2).write16(s.imm16(), s.sp),
        Instr::LdSpHl => s.with_sp(s.hl()),
        Instr::LdIndBcA => s.write(s.bc(), s.a),
        Instr::LdIndDeA => s.write(s.de(), s.a),
        Instr::LdAIndBc => s.with_a(s.byte(s.bc())),
        Instr::LdAIndDe => s.with_a(s.byte(s.de())),
        Instr::Push { pair } => s.push(s.pair16(pair)),
        Instr::Pop { pair } => s.pop(pair),
        Instr::JpCc { cond } => if s.cond(cond) {
            s.with_pc(s.imm16())
        } else {
            s.advance(2)
        },
        Instr::JpD16 => s.with_pc(s.imm16()),
        Instr::JpHl => s.with_pc(s.hl()),
        Instr::JrCc { cond } => if s.cond(cond) {
            s.with_pc(jr_target(s.pc.wrapping_add(1), s.imm8()))
        } else {
            s.advance(1)
        },
        Instr::JrD8 => s.with_pc(jr_target(s.pc.wrapping_add(1), s.imm8())),
        Instr::Rlca => rotate_a(s, rlc8_spec(s.a)),
        Instr::Rla => rotate_a(s, rl8_spec(s.a, fl.c)),
        Instr::Rrca => rotate_a(s, rrc8_spec(s.a)),
        Instr::Rra => rotate_a(s, rr8_spec(s.a, fl.c)),
        Instr::AddHlR16 { reg } => {
            let r = add16_spec(s.hl(), s.reg16(reg), fl.z);
            s.with_hl(r.value).with_flags(r.flags)
        },
        Instr::AddSpD8 => {
            let r = add_sp_spec(s.sp, s.imm8());
            s.advance(1).with_sp(r.value).with_flags(r.flags)
        },
        Instr::LdHlSpD8 => {
            let r = add_sp_spec(s.sp, s.imm8());
            s.advance(1).with_hl(r.value).with_flags(r.flags)
        },
        Instr::AluR8 { op, reg } => apply_alu(s, op, s.reg8(reg)),
        Instr::AluD8 { op } => apply_alu(s.advance(1), op, s.imm8()),
        Instr::Daa => {
            let r = daa_spec(s.a, fl);
            s.with_a(r.value).with_flags(r.flags)
        },
        Instr::Cpl => s.with_a(!s.a).with_flags(Flags { n: true, h: true, ..fl }),
        Instr::Scf => s.with_flags(Flags { n: false, h: false, c: true, ..fl }),
        Instr::Ccf => s.with_flags(Flags { n: false, h: false, c: !fl.c, ..fl }),
        Instr::LdiHlA => s.write(s.hl(), s.a).with_hl(s.hl().wrapping_add(1)),
        Instr::LddHlA => s.write(s.hl(), s.a).with_hl(s.hl().wrapping_sub(1)),
        Instr::LdiAHl => s.with_a(s.byte(s.hl())).with_hl(s.hl().wrapping_add(1)),
        Instr::LddAHl => s.with_a(s.byte(s.hl())).with_hl(s.hl().wrapping_sub(1)),
        Instr::LdIoD8A => s.advance(1).write(io_addr(s.imm8()), s.a),
        Instr::LdAIoD8 => s.advance(1).with_a(s.byte(io_addr(s.imm8()))),
        Instr::LdIoCA => s.write(io_addr(s.c), s.a),
        Instr::LdAIoC => s.with_a(s.byte(io_addr(s.c))),
        Instr::LdR8D8 { reg } => s.advance(1).with_reg8(reg, s.imm8()),
        Instr::IncR8 { reg } => s.store8(reg, inc8_spec(s.reg8(reg), fl.c)),
        Instr::DecR8 { reg } => s.store8(reg, dec8_spec(s.reg8(reg), fl.c)),
        Instr::LdR8R8 { dst, src } => s.with_reg8(dst, s.reg8(src)),
        Instr::LdIndD16A => s.advance(2).write(s.imm16(), s.a),
        Instr::LdAIndD16 => s.advance(2).with_a(s.byte(s.imm16())),
        Instr::IncR16 { reg } => s.with_reg16(reg, s.reg16(reg).wrapping_add(1)),
        Instr::DecR16 { reg } => s.with_reg16(reg, s.reg16(reg).wrapping_sub(1)),
        Instr::CallD16 => s.advance(2).call(s.imm16()),
        Instr::CallCc { cond } => if s.cond(cond) {
            s.advance(2).call(s.imm16())
        } else {
            s.advance(2)
        },
        Instr::Ret => s.ret(),
        Instr::RetCc { cond } => if s.cond(cond) {
            s.ret()
        } else {
            s
        },
        Instr::Reti => s.ret(),
        Instr::Rst { addr } => s.call(addr as u16),
        Instr::Di => s,
        Instr::Ei => s,
        Instr::Prefix => cb_spec(s.advance(1), decode_cb_spec(s.imm8())),
    }
}

/// One fetch-decode-execute step: `None` when the opcode at PC has no
/// operation.
pub open spec fn step_spec(s: CpuView) -> Option<CpuView> {
    match decode_spec(s.imm8()) {
        Some(i) => Some(execute_spec(s.advance(1), i)),
        None => None,
    }
}

} // verus!
