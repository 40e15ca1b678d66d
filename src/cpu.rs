//! The processor: register file, operand addressing and instruction
//! execution over an exclusively owned memory manager.

use vstd::prelude::*;

use crate::alu::{
    add16, add8, add_sp, and8, bit8, daa8, dec8, inc8, lemma_flags_byte, or8, res8, rl8, rlc8, rr8,
    rrc8, set8, sla8, sra8, srl8, sub8, swap8, xor8, Alu8, Flags,
};
use crate::decode::{
    cb_instr_wf, decode, decode_cb, instr_wf, AluOp, CbInstr, CbOp, Cond, Instr,
};
use crate::mmu::MMU;
use crate::state::{apply_alu, cb_spec, execute_spec, step_spec, CpuView};
use crate::Fault;

verus! {

pub open spec fn reg8_name(idx: u8) -> Seq<char> {
    match idx {
        0 => "B"@,
        1 => "C"@,
        2 => "D"@,
        3 => "E"@,
        4 => "H"@,
        5 => "L"@,
        6 => "(HL)"@,
        _ => "A"@,
    }
}

pub open spec fn reg16_name(idx: u8) -> Seq<char> {
    match idx {
        0 => "BC"@,
        1 => "DE"@,
        2 => "HL"@,
        _ => "SP"@,
    }
}

#[derive(Debug)]
pub struct CPU {
    mmu: MMU,
    pc: u16,
    sp: u16,
    a: u8,
    f: u8,
    b: u8,
    c: u8,
    d: u8,
    e: u8,
    h: u8,
    l: u8,
}

impl CPU {
    /// The memory manager is well formed and F's low nibble is zero.
    pub closed spec fn wf(&self) -> bool {
        self.mmu.wf() && self.f % 16 == 0
    }

    pub closed spec fn view(&self) -> CpuView {
        CpuView {
            pc: self.pc,
            sp: self.sp,
            a: self.a,
            f: self.f,
            b: self.b,
            c: self.c,
            d: self.d,
            e: self.e,
            h: self.h,
            l: self.l,
            mem: self.mmu@,
        }
    }

    /// A well-formed CPU has a well-formed view.
    pub proof fn lemma_wf(&self)
        requires
            self.wf(),
        ensures
            self@.wf(),
    {
        self.mmu.lemma_view_len();
    }

    /// PC at 0x0100, just past the boot hand-off; every other register zero.
    pub fn new(mmu: MMU) -> (r: Self)
        requires
            mmu.wf(),
        ensures
            r.wf(),
            r@ == (CpuView {
                pc: 0x100,
                sp: 0,
                a: 0,
                f: 0,
                b: 0,
                c: 0,
                d: 0,
                e: 0,
                h: 0,
                l: 0,
                mem: mmu@,
            }),
    {
        CPU { mmu, pc: 0x100, sp: 0, a: 0, f: 0, b: 0, c: 0, d: 0, e: 0, h: 0, l: 0 }
    }

    pub fn mmu(&self) -> (r: &MMU)
        requires
            self.wf(),
        ensures
            r.wf(),
            r@ == self@.mem,
    {
        &self.mmu
    }

    pub fn pc(&self) -> (r: u16)
        ensures
            r == self@.pc,
    {
        self.pc
    }

    pub fn set_pc(&mut self, pc: u16)
        requires
            old(self).wf(),
        ensures
            final(self).wf(),
            final(self)@ == old(self)@.with_pc(pc),
    {
        self.pc = pc;
    }

    pub fn sp(&self) -> (r: u16)
        ensures
            r == self@.sp,
    {
        self.sp
    }

    pub fn set_sp(&mut self, sp: u16)
        requires
            old(self).wf(),
        ensures
            final(self).wf(),
            final(self)@ == old(self)@.with_sp(sp),
    {
        self.sp = sp;
    }

    pub fn a(&self) -> (r: u8)
        ensures
            r == self@.a,
    {
        self.a
    }

    pub fn f(&self) -> (r: u8)
        ensures
            r == self@.f,
    {
        self.f
    }

    /// Read AF.
    pub fn af(&self) -> (r: u16)
        ensures
            r == self@.af(),
    {
        (self.a as u16) * 256 + self.f as u16
    }

    /// Write AF; the low nibble of F stays zero.
    pub fn set_af(&mut self, val: u16)
        requires
            old(self).wf(),
        ensures
            final(self).wf(),
            final(self)@ == old(self)@.with_af(val),
    {
        self.a = (val / 256) as u8;
        self.f = ((val % 256) as u8) / 16 * 16;
    }

    /// Read BC.
    pub fn bc(&self) -> (r: u16)
        ensures
            r == self@.bc(),
    {
        (self.b as u16) * 256 + self.c as u16
    }

    /// Write BC.
    pub fn set_bc(&mut self, val: u16)
        requires
            old(self).wf(),
        ensures
            final(self).wf(),
            final(self)@ == old(self)@.with_bc(val),
    {
        self.b = (val / 256) as u8;
        self.c = (val % 256) as u8;
    }

    /// Read DE.
    pub fn de(&self) -> (r: u16)
        ensures
            r == self@.de(),
    {
        (self.d as u16) * 256 + self.e as u16
    }

    /// Write DE.
    pub fn set_de(&mut self, val: u16)
        requires
            old(self).wf(),
        ensures
            final(self).wf(),
            final(self)@ == old(self)@.with_de(val),
    {
        self.d = (val / 256) as u8;
        self.e = (val % 256) as u8;
    }

    /// Read HL.
    pub fn hl(&self) -> (r: u16)
        ensures
            r == self@.hl(),
    {
        (self.h as u16) * 256 + self.l as u16
    }

    /// Write HL.
    pub fn set_hl(&mut self, val: u16)
        requires
            old(self).wf(),
        ensures
            final(self).wf(),
            final(self)@ == old(self)@.with_hl(val),
    {
        self.h = (val / 256) as u8;
        self.l = (val % 256) as u8;
    }

    /// The four flags held in F.
    pub fn flags(&self) -> (r: Flags)
        ensures
            r == self@.flags(),
    {
        Flags::from_byte(self.f)
    }

    /// Replace all four flags.
    pub fn set_flags(&mut self, fl: Flags)
        requires
            old(self).wf(),
        ensures
            final(self).wf(),
            final(self)@ == old(self)@.with_flags(fl),
    {
        proof {
            lemma_flags_byte(fl);
        }
        self.f = fl.to_byte();
    }

    pub fn f_z(&self) -> (r: bool)
        ensures
            r == self@.flags().z,
    {
        self.f / 128 % 2 == 1
    }

    pub fn f_n(&self) -> (r: bool)
        ensures
            r == self@.flags().n,
    {
        self.f / 64 % 2 == 1
    }

    pub fn f_h(&self) -> (r: bool)
        ensures
            r == self@.flags().h,
    {
        self.f / 32 % 2 == 1
    }

    pub fn f_c(&self) -> (r: bool)
        ensures
            r == self@.flags().c,
    {
        self.f / 16 % 2 == 1
    }

    fn cond(&self, cc: Cond) -> (r: bool)
        ensures
            r == self@.cond(cc),
    {
        match cc {
            Cond::NZ => !self.f_z(),
            Cond::Z => self.f_z(),
            Cond::NC => !self.f_c(),
            Cond::C => self.f_c(),
        }
    }

    /// Name of 8-bit operand `idx`, as written in assembly.
    pub fn reg_to_string(idx: u8) -> (r: String)
        requires
            idx < 8,
        ensures
            r@ == reg8_name(idx),
    {
        match idx {
            0 => "B".to_owned(),
            1 => "C".to_owned(),
            2 => "D".to_owned(),
            3 => "E".to_owned(),
            4 => "H".to_owned(),
            5 => "L".to_owned(),
            6 => "(HL)".to_owned(),
            _ => "A".to_owned(),
        }
    }

    /// Name of 16-bit operand `idx`, as written in assembly.
    pub fn reg16_to_string(idx: u8) -> (r: String)
        requires
            idx < 4,
        ensures
            r@ == reg16_name(idx),
    {
        match idx {
            0 => "BC".to_owned(),
            1 => "DE".to_owned(),
            2 => "HL".to_owned(),
            _ => "SP".to_owned(),
        }
    }

    /// Read 8-bit operand `idx`: B, C, D, E, H, L, memory at HL, A.
    pub fn read_r8(&self, idx: u8) -> (r: u8)
        requires
            self.wf(),
            idx < 8,
        ensures
            r == self@.reg8(idx),
    {
        match idx {
            0 => self.b,
            1 => self.c,
            2 => self.d,
            3 => self.e,
            4 => self.h,
            5 => self.l,
            6 => self.mmu.read(self.hl()),
            _ => self.a,
        }
    }

    /// Write 8-bit operand `idx`; index 6 writes memory at HL.
    pub fn write_r8(&mut self, idx: u8, val: u8)
        requires
            old(self).wf(),
            idx < 8,
        ensures
            final(self).wf(),
            final(self)@ == old(self)@.with_reg8(idx, val),
    {
        match idx {
            0 => self.b = val,
            1 => self.c = val,
            2 => self.d = val,
            3 => self.e = val,
            4 => self.h = val,
            5 => self.l = val,
            6 => {
                let hl = self.hl();
                self.mmu.write(hl, val);
            },
            _ => self.a = val,
        }
    }

    /// Read 16-bit operand `idx`: BC, DE, HL, SP.
    pub fn read_r16(&self, idx: u8) -> (r: u16)
        requires
            idx < 4,
        ensures
            r == self@.reg16(idx),
    {
        match idx {
            0 => self.bc(),
            1 => self.de(),
            2 => self.hl(),
            _ => self.sp,
        }
    }

    /// Write 16-bit operand `idx`: BC, DE, HL, SP.
    pub fn write_r16(&mut self, idx: u8, val: u16)
        requires
            old(self).wf(),
            idx < 4,
        ensures
            final(self).wf(),
            final(self)@ == old(self)@.with_reg16(idx, val),
    {
        match idx {
            0 => self.set_bc(val),
            1 => self.set_de(val),
            2 => self.set_hl(val),
            _ => self.sp = val,
        }
    }

    /// Read stack operand `idx`: BC, DE, HL, AF.
    fn read_pair(&self, idx: u8) -> (r: u16)
        requires
            idx < 4,
        ensures
            r == self@.pair16(idx),
    {
        if idx == 3 {
            self.af()
        } else {
            self.read_r16(idx)
        }
    }

    /// Write stack operand `idx`: BC, DE, HL, AF.
    fn write_pair(&mut self, idx: u8, val: u16)
        requires
            old(self).wf(),
            idx < 4,
        ensures
            final(self).wf(),
            final(self)@ == old(self)@.with_pair16(idx, val),
    {
        if idx == 3 {
            self.set_af(val)
        } else {
            self.write_r16(idx, val)
        }
    }

    /// Read the 8-bit immediate at PC and step past it.
    fn read_d8(&mut self) -> (r: u8)
        requires
            old(self).wf(),
        ensures
            final(self).wf(),
            r == old(self)@.imm8(),
            final(self)@ == old(self)@.advance(1),
    {
        let imm = self.mmu.read(self.pc);
        self.pc = self.pc.wrapping_add(1);
        imm
    }

    /// Read the little-endian 16-bit immediate at PC and step past it.
    fn read_d16(&mut self) -> (r: u16)
        requires
            old(self).wf(),
        ensures
            final(self).wf(),
            r == old(self)@.imm16(),
            final(self)@ == old(self)@.advance(2),
    {
        let imm = self.mmu.read16(self.pc);
        self.pc = self.pc.wrapping_add(2);
        imm
    }

    /// Store an 8-bit result into operand `idx` and set its flags.
    fn store8(&mut self, idx: u8, r: Alu8)
        requires
            old(self).wf(),
            idx < 8,
        ensures
            final(self).wf(),
            final(self)@ == old(self)@.store8(idx, r),
    {
        self.write_r8(idx, r.value);
        self.set_flags(r.flags);
    }
}

impl CPU {
    /// LD r16, d16
    fn ld_r16_d16(&mut self, reg: u8)
        requires
            old(self).wf(),
            reg < 4,
        ensures
            final(self).wf(),
            final(self)@ == execute_spec(old(self)@, Instr::LdR16D16 { reg }),
    {
        let val = self.read_d16();
        self.write_r16(reg, val);
    }

    /// LD (d16), SP
    fn ld_ind_d16_sp(&mut self)
        requires
            old(self).wf(),
        ensures
            final(self).wf(),
            final(self)@ == execute_spec(old(self)@, Instr::LdIndD16Sp),
    {
        let addr = self.read_d16();
        self.mmu.write16(addr, self.sp);
    }

    /// ADD HL, r16
    fn add_hl_r16(&mut self, reg: u8)
        requires
            old(self).wf(),
            reg < 4,
        ensures
            final(self).wf(),
            final(self)@ == execute_spec(old(self)@, Instr::AddHlR16 { reg }),
    {
        let z = self.f_z();
        let r = add16(self.hl(), self.read_r16(reg), z);
        self.set_hl(r.value);
        self.set_flags(r.flags);
    }

    /// ADD SP, d8
    fn add_sp_d8(&mut self)
        requires
            old(self).wf(),
        ensures
            final(self).wf(),
            final(self)@ == execute_spec(old(self)@, Instr::AddSpD8),
    {
        let offset = self.read_d8();
        let r = add_sp(self.sp, offset);
        self.sp = r.value;
        self.set_flags(r.flags);
    }

    /// LD HL, SP+d8
    fn ld_hl_sp_d8(&mut self)
        requires
            old(self).wf(),
        ensures
            final(self).wf(),
            final(self)@ == execute_spec(old(self)@, Instr::LdHlSpD8),
    {
        let offset = self.read_d8();
        let r = add_sp(self.sp, offset);
        self.set_hl(r.value);
        self.set_flags(r.flags);
    }

    /// Accumulator operation `op` with operand `val`; CP keeps A.
    fn alu(&mut self, op: AluOp, val: u8)
        requires
            old(self).wf(),
        ensures
            final(self).wf(),
            final(self)@ == apply_alu(old(self)@, op, val),
    {
        let fl = self.flags();
        let r = match op {
            AluOp::Add => add8(self.a, val, false),
            AluOp::Adc => add8(self.a, val, fl.c),
            AluOp::Sub => sub8(self.a, val, false),
            AluOp::Sbc => sub8(self.a, val, fl.c),
            AluOp::And => and8(self.a, val),
            AluOp::Xor => xor8(self.a, val),
            AluOp::Or => or8(self.a, val),
            AluOp::Cp => sub8(self.a, val, false),
        };
        match op {
            AluOp::Cp => {},
            _ => self.a = r.value,
        }
        self.set_flags(r.flags);
    }

    /// ADD/ADC/SUB/SBC/AND/XOR/OR/CP r8
    fn alu_r8(&mut self, op: AluOp, reg: u8)
        requires
            old(self).wf(),
            reg < 8,
        ensures
            final(self).wf(),
            final(self)@ == execute_spec(old(self)@, Instr::AluR8 { op, reg }),
    {
        let val = self.read_r8(reg);
        self.alu(op, val);
    }

    /// ADD/ADC/SUB/SBC/AND/XOR/OR/CP d8
    fn alu_d8(&mut self, op: AluOp)
        requires
            old(self).wf(),
        ensures
            final(self).wf(),
            final(self)@ == execute_spec(old(self)@, Instr::AluD8 { op }),
    {
        let val = self.read_d8();
        self.alu(op, val);
    }

    /// Decimal adjust register A
    fn daa(&mut self)
        requires
            old(self).wf(),
        ensures
            final(self).wf(),
            final(self)@ == execute_spec(old(self)@, Instr::Daa),
    {
        let r = daa8(self.a, self.flags());
        self.a = r.value;
        self.set_flags(r.flags);
    }

    /// Complement A
    fn cpl(&mut self)
        requires
            old(self).wf(),
        ensures
            final(self).wf(),
            final(self)@ == execute_spec(old(self)@, Instr::Cpl),
    {
        let fl = self.flags();
        self.a = !self.a;
        self.set_flags(Flags { n: true, h: true, ..fl });
    }

    /// Complement carry flag
    fn ccf(&mut self)
        requires
            old(self).wf(),
        ensures
            final(self).wf(),
            final(self)@ == execute_spec(old(self)@, Instr::Ccf),
    {
        let fl = self.flags();
        self.set_flags(Flags { n: false, h: false, c: !fl.c, ..fl });
    }

    /// Set carry flag
    fn scf(&mut self)
        requires
            old(self).wf(),
        ensures
            final(self).wf(),
            final(self)@ == execute_spec(old(self)@, Instr::Scf),
    {
        let fl = self.flags();
        self.set_flags(Flags { n: false, h: false, c: true, ..fl });
    }

    /// LD (HL+), A and LD (HL-), A
    fn ld_hl_a_step(&mut self, inc: bool)
        requires
            old(self).wf(),
        ensures
            final(self).wf(),
            final(self)@ == execute_spec(old(self)@, if inc { Instr::LdiHlA } else { Instr::LddHlA }),
    {
        let addr = self.hl();
        self.mmu.write(addr, self.a);
        if inc {
            self.set_hl(addr.wrapping_add(1));
        } else {
            self.set_hl(addr.wrapping_sub(1));
        }
    }

    /// LD A, (HL+) and LD A, (HL-)
    fn ld_a_hl_step(&mut self, inc: bool)
        requires
            old(self).wf(),
        ensures
            final(self).wf(),
            final(self)@ == execute_spec(old(self)@, if inc { Instr::LdiAHl } else { Instr::LddAHl }),
    {
        let addr = self.hl();
        self.a = self.mmu.read(addr);
        if inc {
            self.set_hl(addr.wrapping_add(1));
        } else {
            self.set_hl(addr.wrapping_sub(1));
        }
    }

    /// LD (0xFF00+d8), A
    fn ld_io_d8_a(&mut self)
        requires
            old(self).wf(),
        ensures
            final(self).wf(),
            final(self)@ == execute_spec(old(self)@, Instr::LdIoD8A),
    {
        let offset = self.read_d8();
        self.mmu.write(0xff00 + offset as u16, self.a);
    }

    /// LD A, (0xFF00+d8)
    fn ld_a_io_d8(&mut self)
        requires
            old(self).wf(),
        ensures
            final(self).wf(),
            final(self)@ == execute_spec(old(self)@, Instr::LdAIoD8),
    {
        let offset = self.read_d8();
        self.a = self.mmu.read(0xff00 + offset as u16);
    }

    /// LD r8, d8
    fn ld_r8_d8(&mut self, reg: u8)
        requires
            old(self).wf(),
            reg < 8,
        ensures
            final(self).wf(),
            final(self)@ == execute_spec(old(self)@, Instr::LdR8D8 { reg }),
    {
        let imm = self.read_d8();
        self.write_r8(reg, imm);
    }

    /// INC r8
    fn inc_r8(&mut self, reg: u8)
        requires
            old(self).wf(),
            reg < 8,
        ensures
            final(self).wf(),
            final(self)@ == execute_spec(old(self)@, Instr::IncR8 { reg }),
    {
        let r = inc8(self.read_r8(reg), self.f_c());
        self.store8(reg, r);
    }

    /// DEC r8
    fn dec_r8(&mut self, reg: u8)
        requires
            old(self).wf(),
            reg < 8,
        ensures
            final(self).wf(),
            final(self)@ == execute_spec(old(self)@, Instr::DecR8 { reg }),
    {
        let r = dec8(self.read_r8(reg), self.f_c());
        self.store8(reg, r);
    }

    /// LD r8, r8
    fn ld_r8_r8(&mut self, dst: u8, src: u8)
        requires
            old(self).wf(),
            dst < 8,
            src < 8,
        ensures
            final(self).wf(),
            final(self)@ == execute_spec(old(self)@, Instr::LdR8R8 { dst, src }),
    {
        let val = self.read_r8(src);
        self.write_r8(dst, val);
    }

    /// INC r16 and DEC r16
    fn inc_dec_r16(&mut self, reg: u8, inc: bool)
        requires
            old(self).wf(),
            reg < 4,
        ensures
            final(self).wf(),
            final(self)@ == execute_spec(
                old(self)@,
                if inc { Instr::IncR16 { reg } } else { Instr::DecR16 { reg } },
            ),
    {
        let val = self.read_r16(reg);
        if inc {
            self.write_r16(reg, val.wrapping_add(1));
        } else {
            self.write_r16(reg, val.wrapping_sub(1));
        }
    }

    /// Push the current PC and jump to `addr`.
    fn call_to(&mut self, addr: u16)
        requires
            old(self).wf(),
        ensures
            final(self).wf(),
            final(self)@ == old(self)@.call(addr),
    {
        self.sp = self.sp.wrapping_sub(2);
        self.mmu.write16(self.sp, self.pc);
        self.pc = addr;
    }

    /// CALL d16, and CALL cc, d16 when `cond` is given; the operand is
    /// consumed either way.
    fn call_d16(&mut self, cond: Option<Cond>)
        requires
            old(self).wf(),
        ensures
            final(self).wf(),
            final(self)@ == execute_spec(
                old(self)@,
                match cond {
                    Some(cond) => Instr::CallCc { cond },
                    None => Instr::CallD16,
                },
            ),
    {
        let taken = match cond {
            Some(cc) => self.cond(cc),
            None => true,
        };
        let addr = self.read_d16();
        if taken {
            self.call_to(addr);
        }
    }

    /// Pop PC from the stack.
    fn ret_from(&mut self)
        requires
            old(self).wf(),
        ensures
            final(self).wf(),
            final(self)@ == old(self)@.ret(),
    {
        self.pc = self.mmu.read16(self.sp);
        self.sp = self.sp.wrapping_add(2);
    }

    /// JP d16, and JP cc, d16 when `cond` is given; the operand is consumed
    /// either way.
    fn jp_d16(&mut self, cond: Option<Cond>)
        requires
            old(self).wf(),
        ensures
            final(self).wf(),
            final(self)@ == execute_spec(
                old(self)@,
                match cond {
                    Some(cond) => Instr::JpCc { cond },
                    None => Instr::JpD16,
                },
            ),
    {
        let taken = match cond {
            Some(cc) => self.cond(cc),
            None => true,
        };
        let addr = self.read_d16();
        if taken {
            self.pc = addr;
        }
    }

    /// JR d8, and JR cc, d8 when `cond` is given; the operand is consumed
    /// either way.
    fn jr_d8(&mut self, cond: Option<Cond>)
        requires
            old(self).wf(),
        ensures
            final(self).wf(),
            final(self)@ == execute_spec(
                old(self)@,
                match cond {
                    Some(cond) => Instr::JrCc { cond },
                    None => Instr::JrD8,
                },
            ),
    {
        let taken = match cond {
            Some(cc) => self.cond(cc),
            None => true,
        };
        let offset = self.read_d8();
        if taken {
            self.pc = self.pc.wrapping_add_signed(offset as i8 as i16);
        }
    }

    /// PUSH r16: BC, DE, HL or AF.
    fn push(&mut self, pair: u8)
        requires
            old(self).wf(),
            pair < 4,
        ensures
            final(self).wf(),
            final(self)@ == execute_spec(old(self)@, Instr::Push { pair }),
    {
        let val = self.read_pair(pair);
        self.sp = self.sp.wrapping_sub(2);
        self.mmu.write16(self.sp, val);
    }

    /// POP r16: BC, DE, HL or AF (F's low nibble cleared).
    fn pop(&mut self, pair: u8)
        requires
            old(self).wf(),
            pair < 4,
        ensures
            final(self).wf(),
            final(self)@ == execute_spec(old(self)@, Instr::Pop { pair }),
    {
        let val = self.mmu.read16(self.sp);
        self.write_pair(pair, val);
        self.sp = self.sp.wrapping_add(2);
    }

    /// RLCA, RLA, RRCA, RRA: a rotate of A that always clears Z.
    fn rotate_a(&mut self, r: Alu8)
        requires
            old(self).wf(),
        ensures
            final(self).wf(),
            final(self)@ == crate::state::rotate_a(old(self)@, r),
    {
        self.a = r.value;
        self.set_flags(Flags { z: false, ..r.flags });
    }

    /// A prefixed instruction.
    fn execute_cb(&mut self, i: CbInstr)
        requires
            old(self).wf(),
            cb_instr_wf(i),
        ensures
            final(self).wf(),
            final(self)@ == cb_spec(old(self)@, i),
    {
        let reg = i.reg;
        let v = self.read_r8(reg);
        let carry = self.f_c();
        match i.op {
            CbOp::Rlc => self.store8(reg, rlc8(v)),
            CbOp::Rrc => self.store8(reg, rrc8(v)),
            CbOp::Rl => self.store8(reg, rl8(v, carry)),
            CbOp::Rr => self.store8(reg, rr8(v, carry)),
            CbOp::Sla => self.store8(reg, sla8(v)),
            CbOp::Sra => self.store8(reg, sra8(v)),
            CbOp::Swap => self.store8(reg, swap8(v)),
            CbOp::Srl => self.store8(reg, srl8(v)),
            CbOp::Bit { pos } => {
                let fl = bit8(pos, v, carry);
                self.set_flags(fl);
            },
            CbOp::ResetBit { pos } => self.write_r8(reg, res8(pos, v)),
            CbOp::SetBit { pos } => self.write_r8(reg, set8(pos, v)),
        }
    }

    /// Prefixed instructions: fetch the second opcode byte and execute it.
    fn prefix(&mut self)
        requires
            old(self).wf(),
        ensures
            final(self).wf(),
            final(self)@ == execute_spec(old(self)@, Instr::Prefix),
    {
        let opcode = self.read_d8();
        let i = decode_cb(opcode);
        self.execute_cb(i);
    }
}

impl CPU {
    /// Execute a decoded instruction; PC is already past its opcode byte.
    pub fn execute(&mut self, i: Instr)
        requires
            old(self).wf(),
            instr_wf(i),
        ensures
            final(self).wf(),
            final(self)@ == execute_spec(old(self)@, i),
    {
        match i {
            Instr::Nop => {},
            Instr::LdR16D16 { reg } => self.ld_r16_d16(reg),
            Instr::LdIndD16Sp => self.ld_ind_d16_sp(),
            Instr::LdSpHl => self.sp = self.hl(),
            Instr::LdIndBcA => self.mmu.write(self.bc(), self.a),
            Instr::LdIndDeA => self.mmu.write(self.de(), self.a),
            Instr::LdAIndBc => self.a = self.mmu.read(self.bc()),
            Instr::LdAIndDe => self.a = self.mmu.read(self.de()),
            Instr::Push { pair } => self.push(pair),
            Instr::Pop { pair } => self.pop(pair),
            Instr::JpCc { cond } => self.jp_d16(Some(cond)),
            Instr::JpD16 => self.jp_d16(None),
            Instr::JpHl => self.pc = self.hl(),
            Instr::JrCc { cond } => self.jr_d8(Some(cond)),
            Instr::JrD8 => self.jr_d8(None),
            Instr::Rlca => self.rotate_a(rlc8(self.a)),
            Instr::Rla => {
                let carry = self.f_c();
                self.rotate_a(rl8(self.a, carry));
            },
            Instr::Rrca => self.rotate_a(rrc8(self.a)),
            Instr::Rra => {
                let carry = self.f_c();
                self.rotate_a(rr8(self.a, carry));
            },
            Instr::AddHlR16 { reg } => self.add_hl_r16(reg),
            Instr::AddSpD8 => self.add_sp_d8(),
            Instr::LdHlSpD8 => self.ld_hl_sp_d8(),
            Instr::AluR8 { op, reg } => self.alu_r8(op, reg),
            Instr::AluD8 { op } => self.alu_d8(op),
            Instr::Daa => self.daa(),
            Instr::Cpl => self.cpl(),
            Instr::Scf => self.scf(),
            Instr::Ccf => self.ccf(),
            Instr::LdiHlA => self.ld_hl_a_step(true),
            Instr::LddHlA => self.ld_hl_a_step(false),
            Instr::LdiAHl => self.ld_a_hl_step(true),
            Instr::LddAHl => self.ld_a_hl_step(false),
            Instr::LdIoD8A => self.ld_io_d8_a(),
            Instr::LdAIoD8 => self.ld_a_io_d8(),
            Instr::LdIoCA => self.mmu.write(0xff00 + self.c as u16, self.a),
            Instr::LdAIoC => self.a = self.mmu.read(0xff00 + self.c as u16),
            Instr::LdR8D8 { reg } => self.ld_r8_d8(reg),
            Instr::IncR8 { reg } => self.inc_r8(reg),
            Instr::DecR8 { reg } => self.dec_r8(reg),
            Instr::LdR8R8 { dst, src } => self.ld_r8_r8(dst, src),
            Instr::LdIndD16A => {
                let addr = self.read_d16();
                self.mmu.write(addr, self.a);
            },
            Instr::LdAIndD16 => {
                let addr = self.read_d16();
                self.a = self.mmu.read(addr);
            },
            Instr::IncR16 { reg } => self.inc_dec_r16(reg, true),
            Instr::DecR16 { reg } => self.inc_dec_r16(reg, false),
            Instr::CallD16 => self.call_d16(None),
            Instr::CallCc { cond } => self.call_d16(Some(cond)),
            Instr::Ret => self.ret_from(),
            Instr::RetCc { cond } => {
                if self.cond(cond) {
                    self.ret_from();
                }
            },
            // Interrupt delivery is not modelled: RETI is a plain return and
            // DI / EI change nothing.
            Instr::Reti => self.ret_from(),
            Instr::Rst { addr } => self.call_to(addr as u16),
            Instr::Di => {},
            Instr::Ei => {},
            Instr::Prefix => self.prefix(),
        }
    }

    /// One fetch-decode-execute step. An opcode with no operation leaves PC
    /// just past it and is reported.
    pub fn step(&mut self) -> (r: Result<(), Fault>)
        requires
            old(self).wf(),
        ensures
            final(self).wf(),
            r is Ok <==> step_spec(old(self)@) is Some,
            step_spec(old(self)@) matches Some(t) ==> final(self)@ == t,
            step_spec(old(self)@) is None ==> final(self)@ == old(self)@.advance(1) && r
                == Err::<(), Fault>((Fault::UnimplementedOpcode { opcode: old(self)@.imm8() })),
    {
        let opcode = self.read_d8();
        match decode(opcode) {
            Some(i) => {
                self.execute(i);
                Ok(())
            },
            None => Err(Fault::UnimplementedOpcode { opcode }),
        }
    }
}

} // verus!
