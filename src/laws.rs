//! Laws of the instruction set, proved over the state model.

use vstd::prelude::*;

use crate::alu::{lemma_flags_byte, Flags};
use crate::decode::{decode_spec, instr_wf, AluOp, Instr};
use crate::mmu::{mem_read16, mem_write16, writable, ADDR_SPACE};
use crate::state::{apply_alu, execute_spec, step_spec, CpuView};

verus! {

/// ADD A, b: A becomes `(a + b) mod 256`; C is set iff `a + b > 255`, H iff the
/// low nibbles sum past 15, Z iff the result is zero, and N is clear.
pub proof fn lemma_add_flags(s: CpuView, b: u8)
    requires
        s.wf(),
    ensures
        ({
            let t = apply_alu(s, AluOp::Add, b);
            &&& t.a == (s.a + b) % 256
            &&& t.flags().c == (s.a + b > 255)
            &&& t.flags().h == ((s.a & 0x0f) + (b & 0x0f) > 15)
            &&& t.flags().z == (t.a == 0)
            &&& !t.flags().n
        }),
{
    let a = s.a;
    assert(a & 0x0f == a % 16 && b & 0x0f == b % 16) by (bit_vector);
    let t = apply_alu(s, AluOp::Add, b);
    lemma_flags_byte(t.flags());
    lemma_flags_byte(crate::alu::add8_spec(a, b, false).flags);
}

/// SUB A, b: C is set iff `a < b`, H iff `(a & 0xF) < (b & 0xF)`, Z iff
/// `a == b`, and N is set.
pub proof fn lemma_sub_flags(s: CpuView, b: u8)
    requires
        s.wf(),
    ensures
        ({
            let t = apply_alu(s, AluOp::Sub, b);
            &&& t.a == (s.a - b) % 256
            &&& t.flags().c == (s.a < b)
            &&& t.flags().h == ((s.a & 0x0f) < (b & 0x0f))
            &&& t.flags().z == (s.a == b)
            &&& t.flags().n
        }),
{
    let a = s.a;
    assert(a & 0x0f == a % 16 && b & 0x0f == b % 16) by (bit_vector);
    lemma_flags_byte(crate::alu::sub8_spec(a, b, false).flags);
}

/// A 16-bit write followed by a 16-bit read at the same address gives the
/// value back, where both bytes land in RAM.
pub proof fn lemma_write16_read16(mem: Seq<u8>, addr: u16, v: u16)
    requires
        mem.len() == ADDR_SPACE,
        writable(addr),
        writable(addr.wrapping_add(1)),
    ensures
        mem_read16(mem_write16(mem, addr, v), addr) == v,
{
}

/// PUSH of a pair followed by POP of the same pair restores SP and the pair;
/// only the two stack bytes in RAM have changed.
pub proof fn lemma_push_pop(s: CpuView, pair: u8)
    requires
        s.wf(),
        pair < 4,
        writable(s.sp.wrapping_sub(2)),
        writable(s.sp.wrapping_sub(1)),
    ensures
        ({
            let t = execute_spec(execute_spec(s, Instr::Push { pair }), Instr::Pop { pair });
            &&& t.sp == s.sp
            &&& t.pair16(pair) == s.pair16(pair)
            &&& t == (CpuView {
                mem: mem_write16(s.mem, s.sp.wrapping_sub(2), s.pair16(pair)),
                ..s
            })
        }),
{
    let sp2 = s.sp.wrapping_sub(2);
    assert(sp2.wrapping_add(1) == s.sp.wrapping_sub(1));
    lemma_write16_read16(s.mem, sp2, s.pair16(pair));
}

/// Every instruction keeps F's low nibble zero (and the address space whole).
pub proof fn lemma_execute_wf(s: CpuView, i: Instr)
    requires
        s.wf(),
        instr_wf(i),
    ensures
        execute_spec(s, i).wf(),
{
    if i is AluR8 || i is AluD8 || i is Daa || i is Cpl || i is Scf || i is Ccf || i is Rlca || i is Rla || i is Rrca || i is Rra {
        lemma_execute_wf_alu(s, i);
    } else if i is AddHlR16 || i is AddSpD8 || i is LdHlSpD8 || i is IncR8 || i is DecR8 {
        lemma_execute_wf_arith(s, i);
    } else if i is Push || i is Pop || i is CallD16 || i is CallCc || i is Ret || i is RetCc || i is Reti || i is Rst {
        lemma_execute_wf_stack(s, i);
    } else if i is Prefix {
        lemma_execute_wf_prefix(s, i);
    } else {
        lemma_execute_wf_load(s, i);
    }
}

proof fn lemma_execute_wf_alu(s: CpuView, i: Instr)
    requires
        s.wf(),
        instr_wf(i),
        i is AluR8 || i is AluD8 || i is Daa || i is Cpl || i is Scf || i is Ccf || i is Rlca || i is Rla || i is Rrca || i is Rra,
    ensures
        execute_spec(s, i).wf(),
{
    assert forall|fl: Flags| #[trigger] crate::alu::flags_byte(fl) % 16 == 0 by {
        lemma_flags_byte(fl);
    }
}

proof fn lemma_execute_wf_arith(s: CpuView, i: Instr)
    requires
        s.wf(),
        instr_wf(i),
        i is AddHlR16 || i is AddSpD8 || i is LdHlSpD8 || i is IncR8 || i is DecR8,
    ensures
        execute_spec(s, i).wf(),
{
    assert forall|fl: Flags| #[trigger] crate::alu::flags_byte(fl) % 16 == 0 by {
        lemma_flags_byte(fl);
    }
}

proof fn lemma_execute_wf_stack(s: CpuView, i: Instr)
    requires
        s.wf(),
        instr_wf(i),
        i is Push || i is Pop || i is CallD16 || i is CallCc || i is Ret || i is RetCc || i is Reti || i is Rst,
    ensures
        execute_spec(s, i).wf(),
{
}

proof fn lemma_execute_wf_prefix(s: CpuView, i: Instr)
    requires
        s.wf(),
        instr_wf(i),
        i is Prefix,
    ensures
        execute_spec(s, i).wf(),
{
    assert forall|fl: Flags| #[trigger] crate::alu::flags_byte(fl) % 16 == 0 by {
        lemma_flags_byte(fl);
    }
}

proof fn lemma_execute_wf_load(s: CpuView, i: Instr)
    requires
        s.wf(),
        instr_wf(i),
        i is Nop || i is LdR16D16 || i is LdIndD16Sp || i is LdSpHl || i is LdIndBcA || i is LdIndDeA || i is LdAIndBc || i is LdAIndDe || i is JpCc || i is JpD16 || i is JpHl || i is JrCc || i is JrD8 || i is LdiHlA || i is LddHlA || i is LdiAHl || i is LddAHl || i is LdIoD8A || i is LdAIoD8 || i is LdIoCA || i is LdAIoC || i is LdR8D8 || i is LdR8R8 || i is LdIndD16A || i is LdAIndD16 || i is IncR16 || i is DecR16 || i is Di || i is Ei,
    ensures
        execute_spec(s, i).wf(),
{
}

/// Every step keeps F's low nibble zero: the flag-register invariant holds
/// after any sequence of steps.
pub proof fn lemma_step_wf(s: CpuView)
    requires
        s.wf(),
    ensures
        step_spec(s) matches Some(t) ==> t.wf(),
{
    if let Some(i) = decode_spec(s.imm8()) {
        lemma_decode_wf(s.imm8());
        lemma_execute_wf(s.advance(1), i);
    }
}

proof fn lemma_decode_wf(op: u8)
    ensures
        decode_spec(op) matches Some(i) ==> instr_wf(i),
{
}

/// A conditional JP or CALL whose condition fails still consumes its two
/// operand bytes: PC moves three bytes on and nothing else changes. A failing
/// JR moves PC two bytes on.
pub proof fn lemma_branch_not_taken(s: CpuView)
    requires
        s.wf(),
    ensures
        s.flags().z && (s.imm8() == 0xc2 || s.imm8() == 0xc4) ==> step_spec(s) == Some(
            s.advance(3),
        ),
        !s.flags().z && (s.imm8() == 0xca || s.imm8() == 0xcc) ==> step_spec(s) == Some(
            s.advance(3),
        ),
        s.flags().c && (s.imm8() == 0xd2 || s.imm8() == 0xd4) ==> step_spec(s) == Some(
            s.advance(3),
        ),
        !s.flags().c && (s.imm8() == 0xda || s.imm8() == 0xdc) ==> step_spec(s) == Some(
            s.advance(3),
        ),
        s.flags().z && s.imm8() == 0x20 ==> step_spec(s) == Some(s.advance(2)),
        !s.flags().z && s.imm8() == 0x28 ==> step_spec(s) == Some(s.advance(2)),
        s.flags().c && s.imm8() == 0x30 ==> step_spec(s) == Some(s.advance(2)),
        !s.flags().c && s.imm8() == 0x38 ==> step_spec(s) == Some(s.advance(2)),
{
    assert(s.advance(1).advance(2) == s.advance(3));
    assert(s.advance(1).advance(1) == s.advance(2));
}

} // verus!
