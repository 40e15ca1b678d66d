//! Opcode decoding: the primary and the 0xCB-prefixed opcode spaces mapped to
//! operation descriptors.

use vstd::prelude::*;

verus! {

/// Flag condition of a conditional jump, call or return.
#[derive(Debug, Clone, Copy, PartialEq, Eq, Structural)]
pub enum Cond {
    NZ,
    Z,
    NC,
    C,
}

/// The eight accumulator operations, in opcode order (bits 3-5).
#[derive(Debug, Clone, Copy, PartialEq, Eq, Structural)]
pub enum AluOp {
    Add,
    Adc,
    Sub,
    Sbc,
    And,
    Xor,
    Or,
    Cp,
}

/// Operations of the prefixed opcode space.
#[derive(Debug, Clone, Copy, PartialEq, Eq, Structural)]
pub enum CbOp {
    Rlc,
    Rrc,
    Rl,
    Rr,
    Sla,
    Sra,
    Swap,
    Srl,
    Bit { pos: u8 },
    ResetBit { pos: u8 },
    SetBit { pos: u8 },
}

/// A prefixed instruction: an operation and its 8-bit operand index.
#[derive(Debug, Clone, Copy, PartialEq, Eq, Structural)]
pub struct CbInstr {
    pub op: CbOp,
    pub reg: u8,
}

/// A primary instruction. `reg` fields of 8-bit operands index
/// B, C, D, E, H, L, (HL), A; those of 16-bit operands index BC, DE, HL, SP;
/// `pair` of push and pop indexes BC, DE, HL, AF.
#[derive(Debug, Clone, Copy, PartialEq, Eq, Structural)]
pub enum Instr {
    Nop,
    LdR16D16 { reg: u8 },
    LdIndD16Sp,
    LdSpHl,
    LdIndBcA,
    LdIndDeA,
    LdAIndBc,
    LdAIndDe,
    Push { pair: u8 },
    Pop { pair: u8 },
    JpCc { cond: Cond },
    JpD16,
    JpHl,
    JrCc { cond: Cond },
    JrD8,
    Rlca,
    Rla,
    Rrca,
    Rra,
    AddHlR16 { reg: u8 },
    AddSpD8,
    LdHlSpD8,
    AluR8 { op: AluOp, reg: u8 },
    AluD8 { op: AluOp },
    Daa,
    Cpl,
    Scf,
    Ccf,
    LdiHlA,
    LddHlA,
    LdiAHl,
    LddAHl,
    LdIoD8A,
    LdAIoD8,
    LdIoCA,
    LdAIoC,
    LdR8D8 { reg: u8 },
    IncR8 { reg: u8 },
    DecR8 { reg: u8 },
    LdR8R8 { dst: u8, src: u8 },
    LdIndD16A,
    LdAIndD16,
    IncR16 { reg: u8 },
    DecR16 { reg: u8 },
    CallD16,
    CallCc { cond: Cond },
    Ret,
    RetCc { cond: Cond },
    Reti,
    Rst { addr: u8 },
    Di,
    Ei,
    Prefix,
}

/// Operand indices of an instruction are in range.
pub open spec fn instr_wf(i: Instr) -> bool {
    match i {
        Instr::LdR16D16 { reg } => reg < 4,
        Instr::AddHlR16 { reg } => reg < 4,
        Instr::IncR16 { reg } => reg < 4,
        Instr::DecR16 { reg } => reg < 4,
        Instr::Push { pair } => pair < 4,
        Instr::Pop { pair } => pair < 4,
        Instr::AluR8 { op, reg } => reg < 8,
        Instr::LdR8D8 { reg } => reg < 8,
        Instr::IncR8 { reg } => reg < 8,
        Instr::DecR8 { reg } => reg < 8,
        Instr::LdR8R8 { dst, src } => dst < 8 && src < 8,
        _ => true,
    }
}

pub open spec fn cb_instr_wf(i: CbInstr) -> bool {
    i.reg < 8 && match i.op {
        CbOp::Bit { pos } => pos < 8,
        CbOp::ResetBit { pos } => pos < 8,
        CbOp::SetBit { pos } => pos < 8,
        _ => true,
    }
}

/// The accumulator operation selected by bits 3-5 of an opcode.
pub open spec fn alu_op_spec(op: u8) -> AluOp {
    let k = (op / 8) % 8;
    if k == 0 {
        AluOp::Add
    } else if k == 1 {
        AluOp::Adc
    } else if k == 2 {
        AluOp::Sub
    } else if k == 3 {
        AluOp::Sbc
    } else if k == 4 {
        AluOp::And
    } else if k == 5 {
        AluOp::Xor
    } else if k == 6 {
        AluOp::Or
    } else {
        AluOp::Cp
    }
}

fn alu_op(op: u8) -> (r: AluOp)
    ensures
        r == alu_op_spec(op),
{
    let k = (op / 8) % 8;
    if k == 0 {
        AluOp::Add
    } else if k == 1 {
        AluOp::Adc
    } else if k == 2 {
        AluOp::Sub
    } else if k == 3 {
        AluOp::Sbc
    } else if k == 4 {
        AluOp::And
    } else if k == 5 {
        AluOp::Xor
    } else if k == 6 {
        AluOp::Or
    } else {
        AluOp::Cp
    }
}

/// The primary opcode table; `None` for an opcode with no operation.
pub open spec fn decode_spec(op: u8) -> Option<Instr> {
    let reg = op % 8;
    let reg2 = (op / 8) % 8;
    let rp = (op / 16) % 4;
    if 0x80 <= op && op <= 0xbf {
        Some(Instr::AluR8 { op: alu_op_spec(op), reg })
    } else if 0x40 <= op && op <= 0x7f && op != 0x76 {
        Some(Instr::LdR8R8 { dst: reg2, src: reg })
    } else {
        match op {
            0x00 => Some(Instr::Nop),
            0x01 | 0x11 | 0x21 | 0x31 => Some(Instr::LdR16D16 { reg: rp }),
            0x08 => Some(Instr::LdIndD16Sp),
            0xf9 => Some(Instr::LdSpHl),
            0x02 => Some(Instr::LdIndBcA),
            0x12 => Some(Instr::LdIndDeA),
            0x0a => Some(Instr::LdAIndBc),
            0x1a => Some(Instr::LdAIndDe),
            0xc5 | 0xd5 | 0xe5 | 0xf5 => Some(Instr::Push { pair: rp }),
            0xc1 | 0xd1 | 0xe1 | 0xf1 => Some(Instr::Pop { pair: rp }),
            0xc2 => Some(Instr::JpCc { cond: Cond::NZ }),
            0xd2 => Some(Instr::JpCc { cond: Cond::NC }),
            0xca => Some(Instr::JpCc { cond: Cond::Z }),
            0xda => Some(Instr::JpCc { cond: Cond::C }),
            0xc3 => Some(Instr::JpD16),
            0xe9 => Some(Instr::JpHl),
            0x20 => Some(Instr::JrCc { cond: Cond::NZ }),
            0x30 => Some(Instr::JrCc { cond: Cond::NC }),
            0x28 => Some(Instr::JrCc { cond: Cond::Z }),
            0x38 => Some(Instr::JrCc { cond: Cond::C }),
            0x18 => Some(Instr::JrD8),
            0x07 => Some(Instr::Rlca),
            0x17 => Some(Instr::Rla),
            0x0f => Some(Instr::Rrca),
            0x1f => Some(Instr::Rra),
            0x09 | 0x19 | 0x29 | 0x39 => Some(Instr::AddHlR16 { reg: rp }),
            0xe8 => Some(Instr::AddSpD8),
            0xf8 => Some(Instr::LdHlSpD8),
            0x27 => Some(Instr::Daa),
            0x2f => Some(Instr::Cpl),
            0x37 => Some(Instr::Scf),
            0x3f => Some(Instr::Ccf),
            0xc6 | 0xce | 0xd6 | 0xde | 0xe6 | 0xee | 0xf6 | 0xfe => Some(
                Instr::AluD8 { op: alu_op_spec(op) },
            ),
            0x22 => Some(Instr::LdiHlA),
            0x32 => Some(Instr::LddHlA),
            0x2a => Some(Instr::LdiAHl),
            0x3a => Some(Instr::LddAHl),
            0xe0 => Some(Instr::LdIoD8A),
            0xf0 => Some(Instr::LdAIoD8),
            0xe2 => Some(Instr::LdIoCA),
            0xf2 => Some(Instr::LdAIoC),
            0x06 | 0x0e | 0x16 | 0x1e | 0x26 | 0x2e | 0x36 | 0x3e => Some(Instr::LdR8D8 { reg: reg2 }),
            0x04 | 0x0c | 0x14 | 0x1c | 0x24 | 0x2c | 0x34 | 0x3c => Some(Instr::IncR8 { reg: reg2 }),
            0x05 | 0x0d | 0x15 | 0x1d | 0x25 | 0x2d | 0x35 | 0x3d => Some(Instr::DecR8 { reg: reg2 }),
            0xea => Some(Instr::LdIndD16A),
            0xfa => Some(Instr::LdAIndD16),
            0x03 | 0x13 | 0x23 | 0x33 => Some(Instr::IncR16 { reg: rp }),
            0x0b | 0x1b | 0x2b | 0x3b => Some(Instr::DecR16 { reg: rp }),
            0xcd => Some(Instr::CallD16),
            0xc4 => Some(Instr::CallCc { cond: Cond::NZ }),
            0xd4 => Some(Instr::CallCc { cond: Cond::NC }),
            0xcc => Some(Instr::CallCc { cond: Cond::Z }),
            0xdc => Some(Instr::CallCc { cond: Cond::C }),
            0xc9 => Some(Instr::Ret),
            0xc0 => Some(Instr::RetCc { cond: Cond::NZ }),
            0xd0 => Some(Instr::RetCc { cond: Cond::NC }),
            0xc8 => Some(Instr::RetCc { cond: Cond::Z }),
            0xd8 => Some(Instr::RetCc { cond: Cond::C }),
            0xd9 => Some(Instr::Reti),
            0xc7 | 0xcf | 0xd7 | 0xdf | 0xe7 | 0xef | 0xf7 | 0xff => Some(Instr::Rst { addr: (op - 0xc7) as u8 }),
            0xf3 => Some(Instr::Di),
            0xfb => Some(Instr::Ei),
            0xcb => Some(Instr::Prefix),
            _ => None,
        }
    }
}

/// Decodes a primary opcode.
pub fn decode(op: u8) -> (r: Option<Instr>)
    ensures
        r == decode_spec(op),
        r matches Some(i) ==> instr_wf(i),
{
    let reg = op % 8;
    let reg2 = (op / 8) % 8;
    let rp = (op / 16) % 4;
    if 0x80 <= op && op <= 0xbf {
        Some(Instr::AluR8 { op: alu_op(op), reg })
    } else if 0x40 <= op && op <= 0x7f && op != 0x76 {
        Some(Instr::LdR8R8 { dst: reg2, src: reg })
    } else {
        match op {
            0x00 => Some(Instr::Nop),
            0x01 | 0x11 | 0x21 | 0x31 => Some(Instr::LdR16D16 { reg: rp }),
            0x08 => Some(Instr::LdIndD16Sp),
            0xf9 => Some(Instr::LdSpHl),
            0x02 => Some(Instr::LdIndBcA),
            0x12 => Some(Instr::LdIndDeA),
            0x0a => Some(Instr::LdAIndBc),
            0x1a => Some(Instr::LdAIndDe),
            0xc5 | 0xd5 | 0xe5 | 0xf5 => Some(Instr::Push { pair: rp }),
            0xc1 | 0xd1 | 0xe1 | 0xf1 => Some(Instr::Pop { pair: rp }),
            0xc2 => Some(Instr::JpCc { cond: Cond::NZ }),
            0xd2 => Some(Instr::JpCc { cond: Cond::NC }),
            0xca => Some(Instr::JpCc { cond: Cond::Z }),
            0xda => Some(Instr::JpCc { cond: Cond::C }),
            0xc3 => Some(Instr::JpD16),
            0xe9 => Some(Instr::JpHl),
            0x20 => Some(Instr::JrCc { cond: Cond::NZ }),
            0x30 => Some(Instr::JrCc { cond: Cond::NC }),
            0x28 => Some(Instr::JrCc { cond: Cond::Z }),
            0x38 => Some(Instr::JrCc { cond: Cond::C }),
            0x18 => Some(Instr::JrD8),
            0x07 => Some(Instr::Rlca),
            0x17 => Some(Instr::Rla),
            0x0f => Some(Instr::Rrca),
            0x1f => Some(Instr::Rra),
            0x09 | 0x19 | 0x29 | 0x39 => Some(Instr::AddHlR16 { reg: rp }),
            0xe8 => Some(Instr::AddSpD8),
            0xf8 => Some(Instr::LdHlSpD8),
            0x27 => Some(Instr::Daa),
            0x2f => Some(Instr::Cpl),
            0x37 => Some(Instr::Scf),
            0x3f => Some(Instr::Ccf),
            0xc6 | 0xce | 0xd6 | 0xde | 0xe6 | 0xee | 0xf6 | 0xfe => Some(
                Instr::AluD8 { op: alu_op(op) },
            ),
            0x22 => Some(Instr::LdiHlA),
            0x32 => Some(Instr::LddHlA),
            0x2a => Some(Instr::LdiAHl),
            0x3a => Some(Instr::LddAHl),
            0xe0 => Some(Instr::LdIoD8A),
            0xf0 => Some(Instr::LdAIoD8),
            0xe2 => Some(Instr::LdIoCA),
            0xf2 => Some(Instr::LdAIoC),
            0x06 | 0x0e | 0x16 | 0x1e | 0x26 | 0x2e | 0x36 | 0x3e => Some(Instr::LdR8D8 { reg: reg2 }),
            0x04 | 0x0c | 0x14 | 0x1c | 0x24 | 0x2c | 0x34 | 0x3c => Some(Instr::IncR8 { reg: reg2 }),
            0x05 | 0x0d | 0x15 | 0x1d | 0x25 | 0x2d | 0x35 | 0x3d => Some(Instr::DecR8 { reg: reg2 }),
            0xea => Some(Instr::LdIndD16A),
            0xfa => Some(Instr::LdAIndD16),
            0x03 | 0x13 | 0x23 | 0x33 => Some(Instr::IncR16 { reg: rp }),
            0x0b | 0x1b | 0x2b | 0x3b => Some(Instr::DecR16 { reg: rp }),
            0xcd => Some(Instr::CallD16),
            0xc4 => Some(Instr::CallCc { cond: Cond::NZ }),
            0xd4 => Some(Instr::CallCc { cond: Cond::NC }),
            0xcc => Some(Instr::CallCc { cond: Cond::Z }),
            0xdc => Some(Instr::CallCc { cond: Cond::C }),
            0xc9 => Some(Instr::Ret),
            0xc0 => Some(Instr::RetCc { cond: Cond::NZ }),
            0xd0 => Some(Instr::RetCc { cond: Cond::NC }),
            0xc8 => Some(Instr::RetCc { cond: Cond::Z }),
            0xd8 => Some(Instr::RetCc { cond: Cond::C }),
            0xd9 => Some(Instr::Reti),
            0xc7 | 0xcf | 0xd7 | 0xdf | 0xe7 | 0xef | 0xf7 | 0xff => Some(Instr::Rst { addr: op - 0xc7 }),
            0xf3 => Some(Instr::Di),
            0xfb => Some(Instr::Ei),
            0xcb => Some(Instr::Prefix),
            _ => None,
        }
    }
}

/// The prefixed opcode table: bits 3-5 select the bit position, bits 0-2 the
/// operand index.
pub open spec fn decode_cb_spec(op: u8) -> CbInstr {
    let pos = (op / 8) % 8;
    let reg = op % 8;
    let cb_op = if op < 0x08 {
        CbOp::Rlc
    } else if op < 0x10 {
        CbOp::Rrc
    } else if op < 0x18 {
        CbOp::Rl
    } else if op < 0x20 {
        CbOp::Rr
    } else if op < 0x28 {
        CbOp::Sla
    } else if op < 0x30 {
        CbOp::Sra
    } else if op < 0x38 {
        CbOp::Swap
    } else if op < 0x40 {
        CbOp::Srl
    } else if op < 0x80 {
        CbOp::Bit { pos }
    } else if op < 0xc0 {
        CbOp::ResetBit { pos }
    } else {
        CbOp::SetBit { pos }
    };
    CbInstr { op: cb_op, reg }
}

/// Decodes a prefixed opcode; every byte has an operation.
pub fn decode_cb(op: u8) -> (r: CbInstr)
    ensures
        r == decode_cb_spec(op),
        cb_instr_wf(r),
{
    let pos = (op / 8) % 8;
    let reg = op % 8;
    let cb_op = if op < 0x08 {
        CbOp::Rlc
    } else if op < 0x10 {
        CbOp::Rrc
    } else if op < 0x18 {
        CbOp::Rl
    } else if op < 0x20 {
        CbOp::Rr
    } else if op < 0x28 {
        CbOp::Sla
    } else if op < 0x30 {
        CbOp::Sra
    } else if op < 0x38 {
        CbOp::Swap
    } else if op < 0x40 {
        CbOp::Srl
    } else if op < 0x80 {
        CbOp::Bit { pos }
    } else if op < 0xc0 {
        CbOp::ResetBit { pos }
    } else {
        CbOp::SetBit { pos }
    };
    CbInstr { op: cb_op, reg }
}

} // verus!
