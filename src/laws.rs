use vstd::prelude::*;
use crate::bits::{sext, field_sign, high_mask};
use crate::registers::{cond_code, is_cond_code};
use crate::machine::{Machine, MEMORY_SIZE, KBSR};
use crate::instruction::{
    OpCode, TrapCode, Action, op_of, dr, sr1, long_mode, step, trap_code_of, trap_action,
    pc_target, has_terminator, lemma_fields,
};

verus! {

/// Sign extension of a `w`-bit field `x`: it is `x` when bit `w - 1` is clear,
/// and `x` with bits `w..16` set otherwise; read as a number, that is `x`
/// less `2^w`, modulo 2^16.
pub proof fn sign_extend_law(x: u16, w: u8)
    requires
        1 <= w <= 16,
        (x as u32) < (1u32 << w),
    ensures
        !field_sign(x, w) ==> sext(x, w) == x,
        field_sign(x, w) ==> sext(x, w) == x | high_mask(w),
        field_sign(x, w) ==> sext(x, w) as u32 == x as u32 + 65536 - (1u32 << w),
{
    assert(field_sign(x, w) ==> (x | high_mask(w)) as u32 == x as u32 + 65536 - (1u32 << w))
        by (bit_vector)
        requires
            1 <= w <= 16,
            (x as u32) < (1u32 << w),
    ;
}

/// Every instruction that writes a general register leaves in COND the sign
/// of the value written.
pub proof fn cond_follows_written_register(m: Machine, i: u16, key: Option<u8>)
    requires
        op_of(i) == OpCode::ADD || op_of(i) == OpCode::AND || op_of(i) == OpCode::NOT
            || op_of(i) == OpCode::LD || op_of(i) == OpCode::LDI || op_of(i) == OpCode::LDR
            || op_of(i) == OpCode::LEA,
    ensures
        step(m, i, key).regs.cond == cond_code(step(m, i, key).regs.reg(dr(i))),
{
    lemma_fields(i);
}

/// COND holds one of N, Z and P before an instruction, so it does after it.
pub proof fn cond_stays_valid(m: Machine, i: u16, key: Option<u8>)
    requires
        is_cond_code(m.regs.cond),
    ensures
        is_cond_code(step(m, i, key).regs.cond),
{
    lemma_fields(i);
}

/// Stores, branches, jumps, subroutine calls and traps leave COND as it was.
pub proof fn cond_kept_without_register_write(m: Machine, i: u16, key: Option<u8>)
    requires
        op_of(i) == OpCode::ST || op_of(i) == OpCode::STI || op_of(i) == OpCode::STR
            || op_of(i) == OpCode::BR || op_of(i) == OpCode::JMP || op_of(i) == OpCode::JSR
            || op_of(i) == OpCode::TRAP,
    ensures
        step(m, i, key).regs.cond == m.regs.cond,
{
}

/// JSR and JSRR leave in R7 the PC from before the call; since R7 is written
/// before the base register is read, JSRR R7 leaves PC where it was.
pub proof fn jsr_saves_return_address(m: Machine, i: u16, key: Option<u8>)
    requires
        op_of(i) == OpCode::JSR,
    ensures
        step(m, i, key).regs.r7 == m.regs.pc,
        !long_mode(i) && sr1(i) == 7 ==> step(m, i, key).regs.pc == m.regs.pc,
{
}

/// ST then LD through the same PC-relative offset, at the same PC, gives back
/// the stored register (the keyboard status address aside: reading it polls).
pub proof fn store_then_load(m: Machine, s: u16, l: u16, k1: Option<u8>, k2: Option<u8>)
    requires
        m.mem.len() == MEMORY_SIZE,
        op_of(s) == OpCode::ST,
        op_of(l) == OpCode::LD,
        s & 0x1FF == l & 0x1FF,
        pc_target(m, s) != KBSR,
    ensures
        step(step(m, s, k1), l, k2).regs.reg(dr(l)) == m.regs.reg(dr(s)),
{
    lemma_fields(s);
    lemma_fields(l);
}

/// STI then LDI through the same PC-relative offset, at the same PC, gives back
/// the stored register. Left out: a pointer cell or target at the keyboard
/// status address, and a pointer cell that points at itself while the stored
/// value differs from its address (the store then overwrites the pointer).
pub proof fn store_then_load_indirect(m: Machine, s: u16, l: u16, k1: Option<u8>, k2: Option<u8>)
    requires
        m.mem.len() == MEMORY_SIZE,
        op_of(s) == OpCode::STI,
        op_of(l) == OpCode::LDI,
        s & 0x1FF == l & 0x1FF,
        pc_target(m, s) != KBSR,
        m.mem[pc_target(m, s) as int] != KBSR,
        m.mem[pc_target(m, s) as int] == pc_target(m, s) ==> m.regs.reg(dr(s)) == pc_target(m, s),
    ensures
        step(step(m, s, k1), l, k2).regs.reg(dr(l)) == m.regs.reg(dr(s)),
{
    lemma_fields(s);
    lemma_fields(l);
}

/// PUTS and PUTSP end exactly when a zero word is reachable from R0 by
/// ascending addresses, wrapping at the top of memory.
pub proof fn string_routines_end_iff_terminated(m: Machine, i: u16, a: Action)
    requires
        m.mem.len() == MEMORY_SIZE,
        trap_code_of(i & 0xFF) == Some(TrapCode::Puts) || trap_code_of(i & 0xFF) == Some(TrapCode::Putsp),
        trap_action(m, i, a),
    ensures
        a is Output <==> has_terminator(m.mem, m.regs.r0),
{
    if has_terminator(m.mem, m.regs.r0) {
        if a is OutputForever {
            let j = choose|j: int| 0 <= j < MEMORY_SIZE && #[trigger] crate::instruction::word_at(m.mem, m.regs.r0, j) == 0;
            assert(crate::instruction::word_at(m.mem, m.regs.r0, j) != 0);
        }
    }
}

} // verus!
