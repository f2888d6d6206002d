use vstd::prelude::*;
use crate::bits::{sext, wadd, sign_extend, add_words};
use crate::registers::Registers;
use crate::machine::{Machine, VM, MEMORY_SIZE, after_read, read_value};

verus! {

/// The sixteen opcodes, in the order of their 4-bit encodings.
#[derive(Clone, Copy, Debug, PartialEq, Eq, Structural)]
pub enum OpCode {
    BR,
    ADD,
    LD,
    ST,
    JSR,
    AND,
    LDR,
    STR,
    RTI,
    NOT,
    LDI,
    STI,
    JMP,
    RES,
    LEA,
    TRAP,
}

/// The built-in trap routines, selected by the low byte of a TRAP instruction.
#[derive(Clone, Copy, Debug, PartialEq, Eq, Structural)]
pub enum TrapCode {
    /// 0x20: read one byte into R0, without echo.
    Getc,
    /// 0x21: write the low byte of R0.
    Out,
    /// 0x22: write the string of one character per word starting at R0.
    Puts,
    /// 0x23: prompt, then read one byte into R0.
    In,
    /// 0x24: write the string of two characters per word starting at R0.
    Putsp,
    /// 0x25: stop the machine.
    Halt,
}

/// What the console must do after an instruction ran.
#[derive(Debug, PartialEq, Eq)]
pub enum Action {
    /// Nothing: fetch the next instruction.
    Continue,
    /// Read one byte (blocking) and hand it to `VM::receive_input`.
    ReadChar,
    /// Prompt for a character, flush, read one byte and hand it to `VM::receive_input`.
    PromptChar,
    /// Write these bytes and flush.
    Output(Vec<u8>),
    /// Write these bytes over and over without end: the string never ends.
    OutputForever(Vec<u8>),
    /// Report the halt and stop with a non-zero status.
    Halt,
    /// Unknown trap vector: stop with a non-zero status.
    BadTrap,
}

/// The opcode held in the top four bits of `i`.
pub open spec fn op_of(i: u16) -> OpCode {
    let n = i >> 12;
    if n == 0 { OpCode::BR }
    else if n == 1 { OpCode::ADD }
    else if n == 2 { OpCode::LD }
    else if n == 3 { OpCode::ST }
    else if n == 4 { OpCode::JSR }
    else if n == 5 { OpCode::AND }
    else if n == 6 { OpCode::LDR }
    else if n == 7 { OpCode::STR }
    else if n == 8 { OpCode::RTI }
    else if n == 9 { OpCode::NOT }
    else if n == 10 { OpCode::LDI }
    else if n == 11 { OpCode::STI }
    else if n == 12 { OpCode::JMP }
    else if n == 13 { OpCode::RES }
    else if n == 14 { OpCode::LEA }
    else { OpCode::TRAP }
}

/// The routine that trap vector `v` selects, if any.
pub open spec fn trap_code_of(v: u16) -> Option<TrapCode> {
    if v == 0x20 { Some(TrapCode::Getc) }
    else if v == 0x21 { Some(TrapCode::Out) }
    else if v == 0x22 { Some(TrapCode::Puts) }
    else if v == 0x23 { Some(TrapCode::In) }
    else if v == 0x24 { Some(TrapCode::Putsp) }
    else if v == 0x25 { Some(TrapCode::Halt) }
    else { None }
}

/// Bits [11:9]: destination register (source register of the stores).
pub open spec fn dr(i: u16) -> u16 { (i >> 9) & 7 }

/// Bits [8:6]: first source register, or base register.
pub open spec fn sr1(i: u16) -> u16 { (i >> 6) & 7 }

/// Bits [2:0]: second source register.
pub open spec fn sr2(i: u16) -> u16 { i & 7 }

/// Bit 5: the second operand is the immediate field.
pub open spec fn imm_mode(i: u16) -> bool { (i >> 5) & 1 == 1 }

/// Bit 11 of JSR: the target is PC-relative.
pub open spec fn long_mode(i: u16) -> bool { (i >> 11) & 1 == 1 }

/// Bits [11:9] of BR: the n, z and p tests.
pub open spec fn nzp(i: u16) -> u16 { (i >> 9) & 7 }

/// Bits [4:0], sign-extended.
pub open spec fn imm5(i: u16) -> u16 { sext(i & 0x1F, 5) }

/// Bits [5:0], sign-extended.
pub open spec fn offset6(i: u16) -> u16 { sext(i & 0x3F, 6) }

/// Bits [8:0], sign-extended.
pub open spec fn pc_offset9(i: u16) -> u16 { sext(i & 0x1FF, 9) }

/// Bits [10:0], sign-extended.
pub open spec fn pc_offset11(i: u16) -> u16 { sext(i & 0x7FF, 11) }

/// The PC-relative address of LD, LDI, LEA, ST and STI.
pub open spec fn pc_target(m: Machine, i: u16) -> u16 { wadd(m.regs.pc, pc_offset9(i)) }

/// The base-relative address of LDR and STR.
pub open spec fn base_target(m: Machine, i: u16) -> u16 { wadd(m.regs.reg(sr1(i)), offset6(i)) }

/// The second operand of ADD and AND.
pub open spec fn operand2(m: Machine, i: u16) -> u16 {
    if imm_mode(i) { imm5(i) } else { m.regs.reg(sr2(i)) }
}

/// The machine with its register file replaced.
pub open spec fn with_regs(m: Machine, regs: Registers) -> Machine {
    Machine { regs, mem: m.mem }
}

/// ADD: DR <- SR1 + operand, modulo 2^16, with COND from the result.
pub open spec fn add_spec(m: Machine, i: u16) -> Machine {
    with_regs(m, m.regs.written(dr(i), wadd(m.regs.reg(sr1(i)), operand2(m, i))))
}

/// AND: DR <- SR1 & operand, with COND from the result.
pub open spec fn and_spec(m: Machine, i: u16) -> Machine {
    with_regs(m, m.regs.written(dr(i), m.regs.reg(sr1(i)) & operand2(m, i)))
}

/// NOT: DR <- complement of SR, with COND from the result.
pub open spec fn not_spec(m: Machine, i: u16) -> Machine {
    with_regs(m, m.regs.written(dr(i), !m.regs.reg(sr1(i))))
}

/// BR: PC <- PC + offset9 when a tested flag is set in COND.
pub open spec fn br_spec(m: Machine, i: u16) -> Machine {
    if nzp(i) & m.regs.cond != 0 {
        with_regs(m, m.regs.with_pc(wadd(m.regs.pc, pc_offset9(i))))
    } else {
        m
    }
}

/// JMP: PC <- base register.
pub open spec fn jmp_spec(m: Machine, i: u16) -> Machine {
    with_regs(m, m.regs.with_pc(m.regs.reg(sr1(i))))
}

/// R7 takes the return address first; JSRR then reads its base register.
pub open spec fn jsr_spec(m: Machine, i: u16) -> Machine {
    let r = m.regs.with_reg(7, m.regs.pc);
    let target = if long_mode(i) { wadd(m.regs.pc, pc_offset11(i)) } else { r.reg(sr1(i)) };
    with_regs(m, r.with_pc(target))
}

/// A load of `addr` into the destination register.
pub open spec fn load_spec(m: Machine, i: u16, addr: u16, key: Option<u8>) -> Machine {
    Machine {
        regs: m.regs.written(dr(i), read_value(m.mem, addr, key)),
        mem: after_read(m.mem, addr, key),
    }
}

/// LD: DR <- mem[PC + offset9], with COND from the value.
pub open spec fn ld_spec(m: Machine, i: u16, key: Option<u8>) -> Machine {
    load_spec(m, i, pc_target(m, i), key)
}

/// LDR: DR <- mem[base + offset6], with COND from the value.
pub open spec fn ldr_spec(m: Machine, i: u16, key: Option<u8>) -> Machine {
    load_spec(m, i, base_target(m, i), key)
}

/// LDI: the pointer is read first, then the word it points at.
pub open spec fn ldi_spec(m: Machine, i: u16, key: Option<u8>) -> Machine {
    let a = pc_target(m, i);
    let first = Machine { regs: m.regs, mem: after_read(m.mem, a, key) };
    load_spec(first, i, read_value(m.mem, a, key), key)
}

/// LEA: DR <- PC + offset9, with COND from the address.
pub open spec fn lea_spec(m: Machine, i: u16) -> Machine {
    with_regs(m, m.regs.written(dr(i), pc_target(m, i)))
}

/// ST: mem[PC + offset9] <- SR.
pub open spec fn st_spec(m: Machine, i: u16) -> Machine {
    Machine { regs: m.regs, mem: m.mem.update(pc_target(m, i) as int, m.regs.reg(dr(i))) }
}

/// STR: mem[base + offset6] <- SR.
pub open spec fn str_spec(m: Machine, i: u16) -> Machine {
    Machine { regs: m.regs, mem: m.mem.update(base_target(m, i) as int, m.regs.reg(dr(i))) }
}

/// STI: the pointer is read first, then the source register is stored where it points.
pub open spec fn sti_spec(m: Machine, i: u16, key: Option<u8>) -> Machine {
    let a = pc_target(m, i);
    let mem1 = after_read(m.mem, a, key);
    Machine { regs: m.regs, mem: mem1.update(read_value(m.mem, a, key) as int, m.regs.reg(dr(i))) }
}

/// The machine after instruction `i` ran, `key` being what the input holds.
/// TRAP and the unsupported opcodes RTI and RES leave it unchanged.
pub open spec fn step(m: Machine, i: u16, key: Option<u8>) -> Machine {
    match op_of(i) {
        OpCode::ADD => add_spec(m, i),
        OpCode::AND => and_spec(m, i),
        OpCode::NOT => not_spec(m, i),
        OpCode::BR => br_spec(m, i),
        OpCode::JMP => jmp_spec(m, i),
        OpCode::JSR => jsr_spec(m, i),
        OpCode::LD => ld_spec(m, i, key),
        OpCode::LDI => ldi_spec(m, i, key),
        OpCode::LDR => ldr_spec(m, i, key),
        OpCode::LEA => lea_spec(m, i),
        OpCode::ST => st_spec(m, i),
        OpCode::STI => sti_spec(m, i, key),
        OpCode::STR => str_spec(m, i),
        _ => m,
    }
}

pub(crate) proof fn lemma_fields(i: u16)
    by (bit_vector)
    ensures
        dr(i) < 8,
        sr1(i) < 8,
        sr2(i) < 8,
        (i >> 5) & 1 != 0 <==> imm_mode(i),
        (i >> 11) & 1 != 0 <==> long_mode(i),
{
}

/// Decodes the opcode of an instruction word.
pub fn get_op_code(instruction: &u16) -> (r: Option<OpCode>)
    ensures
        r == Some(op_of(*instruction)),
{
    match *instruction >> 12 {
        0 => Some(OpCode::BR),
        1 => Some(OpCode::ADD),
        2 => Some(OpCode::LD),
        3 => Some(OpCode::ST),
        4 => Some(OpCode::JSR),
        5 => Some(OpCode::AND),
        6 => Some(OpCode::LDR),
        7 => Some(OpCode::STR),
        8 => Some(OpCode::RTI),
        9 => Some(OpCode::NOT),
        10 => Some(OpCode::LDI),
        11 => Some(OpCode::STI),
        12 => Some(OpCode::JMP),
        13 => Some(OpCode::RES),
        14 => Some(OpCode::LEA),
        _ => Some(OpCode::TRAP),
    }
}

/// ADD: DR <- SR1 + (SR2 or imm5), modulo 2^16; sets the condition code.
pub fn add(instruction: u16, vm: &mut VM)
    requires
        old(vm).wf(),
    ensures
        final(vm).wf(),
        final(vm)@ == add_spec(old(vm)@, instruction),
{
    proof { lemma_fields(instruction); }
    let dr: u16 = (instruction >> 9) & 0x7;
    let sr1: u16 = (instruction >> 6) & 0x7;
    let imm_flag: u16 = (instruction >> 5) & 0x1;
    if imm_flag != 0 {
        let imm5 = sign_extend(instruction & 0x1F, 5);
        let val = add_words(vm.registers.get(sr1), imm5);
        vm.registers.update(dr, val);
    } else {
        let sr2: u16 = instruction & 0x7;
        let val = add_words(vm.registers.get(sr1), vm.registers.get(sr2));
        vm.registers.update(dr, val);
    }
    vm.registers.update_r_cond_register(dr);
}

/// AND: DR <- SR1 & (SR2 or imm5); sets the condition code.
pub fn and(instruction: u16, vm: &mut VM)
    requires
        old(vm).wf(),
    ensures
        final(vm).wf(),
        final(vm)@ == and_spec(old(vm)@, instruction),
{
    proof { lemma_fields(instruction); }
    let dr: u16 = (instruction >> 9) & 0x7;
    let sr1: u16 = (instruction >> 6) & 0x7;
    let imm_flag: u16 = (instruction >> 5) & 0x1;
    if imm_flag != 0 {
        let imm5 = sign_extend(instruction & 0x1F, 5);
        let val: u16 = vm.registers.get(sr1) & imm5;
        vm.registers.update(dr, val);
    } else {
        let sr2: u16 = instruction & 0x7;
        let val: u16 = vm.registers.get(sr1) & vm.registers.get(sr2);
        vm.registers.update(dr, val);
    }
    vm.registers.update_r_cond_register(dr);
}

/// NOT: DR <- bitwise complement of SR; sets the condition code.
pub fn not(instruction: u16, vm: &mut VM)
    requires
        old(vm).wf(),
    ensures
        final(vm).wf(),
        final(vm)@ == not_spec(old(vm)@, instruction),
{
    proof { lemma_fields(instruction); }
    let dr: u16 = (instruction >> 9) & 0x7;
    let sr1: u16 = (instruction >> 6) & 0x7;
    let val: u16 = !vm.registers.get(sr1);
    vm.registers.update(dr, val);
    vm.registers.update_r_cond_register(dr);
}

/// BR: when one of the tested flags matches COND, PC <- PC + offset9.
pub fn br(instruction: u16, vm: &mut VM)
    requires
        old(vm).wf(),
    ensures
        final(vm).wf(),
        final(vm)@ == br_spec(old(vm)@, instruction),
{
    let pc_offset = sign_extend(instruction & 0x1FF, 9);
    let cond_flag: u16 = (instruction >> 9) & 0x7;
    if cond_flag & vm.registers.cond != 0 {
        vm.registers.pc = add_words(vm.registers.pc, pc_offset);
    }
}

/// JMP (and RET, with base register R7): PC <- base register.
pub fn jmp(instruction: u16, vm: &mut VM)
    requires
        old(vm).wf(),
    ensures
        final(vm).wf(),
        final(vm)@ == jmp_spec(old(vm)@, instruction),
{
    proof { lemma_fields(instruction); }
    let base_reg: u16 = (instruction >> 6) & 0x7;
    vm.registers.pc = vm.registers.get(base_reg);
}

/// JSR / JSRR: R7 <- PC, then PC <- PC + offset11 or the base register.
pub fn jsr(instruction: u16, vm: &mut VM)
    requires
        old(vm).wf(),
    ensures
        final(vm).wf(),
        final(vm)@ == jsr_spec(old(vm)@, instruction),
{
    proof { lemma_fields(instruction); }
    let base_reg: u16 = (instruction >> 6) & 0x7;
    let long_pc_offset = sign_extend(instruction & 0x7FF, 11);
    let long_flag: u16 = (instruction >> 11) & 1;
    vm.registers.r7 = vm.registers.pc;
    if long_flag != 0 {
        vm.registers.pc = add_words(vm.registers.pc, long_pc_offset);
    } else {
        vm.registers.pc = vm.registers.get(base_reg);
    }
}

/// LD: DR <- mem[PC + offset9]; sets the condition code.
pub fn ld(instruction: u16, vm: &mut VM, key: Option<u8>)
    requires
        old(vm).wf(),
    ensures
        final(vm).wf(),
        final(vm)@ == ld_spec(old(vm)@, instruction, key),
{
    proof { lemma_fields(instruction); }
    let dr: u16 = (instruction >> 9) & 0x7;
    let pc_offset = sign_extend(instruction & 0x1FF, 9);
    let address = add_words(vm.registers.pc, pc_offset);
    let value = vm.read_memory(address, key);
    vm.registers.update(dr, value);
    vm.registers.update_r_cond_register(dr);
}

/// LDI: DR <- mem[mem[PC + offset9]]; sets the condition code.
pub fn ldi(instruction: u16, vm: &mut VM, key: Option<u8>)
    requires
        old(vm).wf(),
    ensures
        final(vm).wf(),
        final(vm)@ == ldi_spec(old(vm)@, instruction, key),
{
    proof { lemma_fields(instruction); }
    let dr: u16 = (instruction >> 9) & 0x7;
    let pc_offset = sign_extend(instruction & 0x1FF, 9);
    let address = add_words(vm.registers.pc, pc_offset);
    let first_read = vm.read_memory(address, key);
    let value = vm.read_memory(first_read, key);
    vm.registers.update(dr, value);
    vm.registers.update_r_cond_register(dr);
}

/// LDR: DR <- mem[base register + offset6]; sets the condition code.
pub fn ldr(instruction: u16, vm: &mut VM, key: Option<u8>)
    requires
        old(vm).wf(),
    ensures
        final(vm).wf(),
        final(vm)@ == ldr_spec(old(vm)@, instruction, key),
{
    proof { lemma_fields(instruction); }
    let dr: u16 = (instruction >> 9) & 0x7;
    let base_reg: u16 = (instruction >> 6) & 0x7;
    let offset = sign_extend(instruction & 0x3F, 6);
    let address = add_words(vm.registers.get(base_reg), offset);
    let value = vm.read_memory(address, key);
    vm.registers.update(dr, value);
    vm.registers.update_r_cond_register(dr);
}

/// LEA: DR <- PC + offset9; sets the condition code.
pub fn lea(instruction: u16, vm: &mut VM)
    requires
        old(vm).wf(),
    ensures
        final(vm).wf(),
        final(vm)@ == lea_spec(old(vm)@, instruction),
{
    proof { lemma_fields(instruction); }
    let dr: u16 = (instruction >> 9) & 0x7;
    let pc_offset = sign_extend(instruction & 0x1FF, 9);
    let val = add_words(vm.registers.pc, pc_offset);
    vm.registers.update(dr, val);
    vm.registers.update_r_cond_register(dr);
}

/// ST: mem[PC + offset9] <- SR.
pub fn st(instruction: u16, vm: &mut VM)
    requires
        old(vm).wf(),
    ensures
        final(vm).wf(),
        final(vm)@ == st_spec(old(vm)@, instruction),
{
    proof { lemma_fields(instruction); }
    let sr: u16 = (instruction >> 9) & 0x7;
    let pc_offset = sign_extend(instruction & 0x1FF, 9);
    let address = add_words(vm.registers.pc, pc_offset);
    let value = vm.registers.get(sr);
    vm.write_memory(address, value);
}

/// STI: mem[mem[PC + offset9]] <- SR.
pub fn sti(instruction: u16, vm: &mut VM, key: Option<u8>)
    requires
        old(vm).wf(),
    ensures
        final(vm).wf(),
        final(vm)@ == sti_spec(old(vm)@, instruction, key),
{
    proof { lemma_fields(instruction); }
    let sr: u16 = (instruction >> 9) & 0x7;
    let pc_offset = sign_extend(instruction & 0x1FF, 9);
    let pointer = add_words(vm.registers.pc, pc_offset);
    let address = vm.read_memory(pointer, key);
    let value = vm.registers.get(sr);
    vm.write_memory(address, value);
}

/// STR: mem[base register + offset6] <- SR.
pub fn str(instruction: u16, vm: &mut VM)
    requires
        old(vm).wf(),
    ensures
        final(vm).wf(),
        final(vm)@ == str_spec(old(vm)@, instruction),
{
    proof { lemma_fields(instruction); }
    let sr: u16 = (instruction >> 9) & 0x7;
    let base_reg: u16 = (instruction >> 6) & 0x7;
    let offset = sign_extend(instruction & 0x3F, 6);
    let address = add_words(vm.registers.get(base_reg), offset);
    let value = vm.registers.get(sr);
    vm.write_memory(address, value);
}

/// The word `k` places after `start`, addresses wrapping modulo 2^16.
pub open spec fn word_at(mem: Seq<u16>, start: u16, k: int) -> u16 {
    mem[(start as int + k) % (MEMORY_SIZE as int)]
}

/// None of the first `k` words from `start` is zero.
pub open spec fn no_zero_before(mem: Seq<u16>, start: u16, k: int) -> bool {
    forall|j: int| 0 <= j < k ==> #[trigger] word_at(mem, start, j) != 0
}

/// A zero word is reachable from `start` by ascending, wrapping addresses.
pub open spec fn has_terminator(mem: Seq<u16>, start: u16) -> bool {
    exists|k: int| 0 <= k < MEMORY_SIZE && #[trigger] word_at(mem, start, k) == 0
}

/// The bytes one word yields: its low byte, and for PUTSP its high byte too
/// when that is not zero.
pub open spec fn word_bytes(w: u16, packed: bool) -> Seq<u8> {
    if packed && (w >> 8) as u8 != 0 {
        seq![w as u8, (w >> 8) as u8]
    } else {
        seq![w as u8]
    }
}

/// The bytes that the first `k` words from `start` yield.
pub open spec fn string_bytes(mem: Seq<u16>, start: u16, k: nat, packed: bool) -> Seq<u8>
    decreases k,
{
    if k == 0 {
        seq![]
    } else {
        string_bytes(mem, start, (k - 1) as nat, packed) + word_bytes(word_at(mem, start, k - 1), packed)
    }
}

/// What PUTS (`packed == false`) or PUTSP (`packed == true`) writes for the
/// string at `start`: the bytes up to the first zero word, or, when memory holds
/// no zero word on the way, the bytes of one full lap of memory, repeated forever.
pub open spec fn string_action(mem: Seq<u16>, start: u16, packed: bool, a: Action) -> bool {
    match a {
        Action::Output(b) => exists|k: int|
            0 <= k < MEMORY_SIZE && #[trigger] word_at(mem, start, k) == 0
                && no_zero_before(mem, start, k)
                && b@ == string_bytes(mem, start, k as nat, packed),
        Action::OutputForever(b) => no_zero_before(mem, start, MEMORY_SIZE as int)
            && b@ == string_bytes(mem, start, MEMORY_SIZE as nat, packed),
        _ => false,
    }
}

/// Collects the string that PUTS or PUTSP writes, starting at `start`.
/// It ends at the first zero word; without one it stops after a full lap.
pub fn string_output(memory: &Vec<u16>, start: u16, packed: bool) -> (r: Action)
    requires
        memory@.len() == MEMORY_SIZE,
    ensures
        string_action(memory@, start, packed, r),
        r is Output <==> has_terminator(memory@, start),
{
    let mut out: Vec<u8> = Vec::new();
    let mut k: u32 = 0;
    while k < 65536
        invariant
            k <= MEMORY_SIZE,
            memory@.len() == MEMORY_SIZE,
            no_zero_before(memory@, start, k as int),
            out@ == string_bytes(memory@, start, k as nat, packed),
        decreases 65536 - k,
    {
        let index: u32 = (start as u32 + k) % 65536;
        let c: u16 = memory[index as usize];
        if c == 0 {
            assert(word_at(memory@, start, k as int) == 0);
            return Action::Output(out);
        }
        out.push(#[verifier::truncate] (c as u8));
        if packed {
            let high: u8 = #[verifier::truncate] ((c >> 8) as u8);
            if high != 0 {
                out.push(high);
            }
        }
        assert(out@ =~= string_bytes(memory@, start, (k + 1) as nat, packed));
        k = k + 1;
    }
    proof {
        if has_terminator(memory@, start) {
            let j = choose|j: int| 0 <= j < MEMORY_SIZE && #[trigger] word_at(memory@, start, j) == 0;
            assert(word_at(memory@, start, j) != 0);
        }
    }
    Action::OutputForever(out)
}

impl TrapCode {
    /// The routine that a trap vector selects, if any.
    pub fn from_vector(v: u16) -> (r: Option<TrapCode>)
        ensures
            r == trap_code_of(v),
    {
        match v {
            0x20 => Some(TrapCode::Getc),
            0x21 => Some(TrapCode::Out),
            0x22 => Some(TrapCode::Puts),
            0x23 => Some(TrapCode::In),
            0x24 => Some(TrapCode::Putsp),
            0x25 => Some(TrapCode::Halt),
            _ => None,
        }
    }
}

/// What trap instruction `i` asks of the console on machine `m`.
pub open spec fn trap_action(m: Machine, i: u16, a: Action) -> bool {
    match trap_code_of(i & 0xFF) {
        Some(TrapCode::Getc) => a == Action::ReadChar,
        Some(TrapCode::Out) => match a {
            Action::Output(b) => b@ == seq![m.regs.r0 as u8],
            _ => false,
        },
        Some(TrapCode::Puts) => string_action(m.mem, m.regs.r0, false, a),
        Some(TrapCode::In) => a == Action::PromptChar,
        Some(TrapCode::Putsp) => string_action(m.mem, m.regs.r0, true, a),
        Some(TrapCode::Halt) => a == Action::Halt,
        None => a == Action::BadTrap,
    }
}

/// TRAP: selects the console routine by the low byte of the instruction. The
/// machine is left as it is; GETC and IN finish in `VM::receive_input`.
pub fn trap(instruction: u16, vm: &VM) -> (r: Action)
    requires
        vm.wf(),
    ensures
        trap_action(vm@, instruction, r),
{
    match TrapCode::from_vector(instruction & 0xFF) {
        Some(TrapCode::Getc) => Action::ReadChar,
        Some(TrapCode::Out) => {
            let out: Vec<u8> = vec![#[verifier::truncate] (vm.registers.r0 as u8)];
            assert(out@ =~= seq![vm.registers.r0 as u8]);
            Action::Output(out)
        },
        Some(TrapCode::Puts) => string_output(&vm.memory, vm.registers.r0, false),
        Some(TrapCode::In) => Action::PromptChar,
        Some(TrapCode::Putsp) => string_output(&vm.memory, vm.registers.r0, true),
        Some(TrapCode::Halt) => Action::Halt,
        None => Action::BadTrap,
    }
}

/// Runs one instruction, PC having already been advanced past it. `key` is the
/// byte waiting on the input channel, if any, seen by a read of KBSR.
pub fn execute_instruction(instr: u16, vm: &mut VM, key: Option<u8>) -> (r: Action)
    requires
        old(vm).wf(),
    ensures
        final(vm).wf(),
        final(vm)@ == step(old(vm)@, instr, key),
        op_of(instr) == OpCode::TRAP ==> trap_action(old(vm)@, instr, r),
        op_of(instr) != OpCode::TRAP ==> r == Action::Continue,
{
    let op_code = get_op_code(&instr);
    match op_code {
        Some(OpCode::ADD) => crate::instruction::add(instr, vm),
        Some(OpCode::AND) => crate::instruction::and(instr, vm),
        Some(OpCode::NOT) => crate::instruction::not(instr, vm),
        Some(OpCode::BR) => br(instr, vm),
        Some(OpCode::JMP) => jmp(instr, vm),
        Some(OpCode::JSR) => jsr(instr, vm),
        Some(OpCode::LD) => ld(instr, vm, key),
        Some(OpCode::LDI) => ldi(instr, vm, key),
        Some(OpCode::LDR) => ldr(instr, vm, key),
        Some(OpCode::LEA) => lea(instr, vm),
        Some(OpCode::ST) => st(instr, vm),
        Some(OpCode::STI) => sti(instr, vm, key),
        Some(OpCode::STR) => crate::instruction::str(instr, vm),
        Some(OpCode::TRAP) => {
            return trap(instr, vm);
        },
        _ => {},
    }
    Action::Continue
}

/// The machine once the word at PC was fetched (a read, which polls the
/// keyboard at KBSR) and PC was advanced past it.
pub open spec fn fetched(m: Machine, key: Option<u8>) -> Machine {
    Machine { regs: m.regs.with_pc(wadd(m.regs.pc, 1)), mem: after_read(m.mem, m.regs.pc, key) }
}

/// One machine cycle: fetches the word at PC, advances PC, and runs it.
pub fn run_cycle(vm: &mut VM, key: Option<u8>) -> (r: Action)
    requires
        old(vm).wf(),
    ensures
        final(vm).wf(),
        ({
            let i = read_value(old(vm)@.mem, old(vm)@.regs.pc, key);
            &&& final(vm)@ == step(fetched(old(vm)@, key), i, key)
            &&& op_of(i) == OpCode::TRAP ==> trap_action(fetched(old(vm)@, key), i, r)
            &&& op_of(i) != OpCode::TRAP ==> r == Action::Continue
        }),
{
    let pc: u16 = vm.registers.pc;
    let instr: u16 = vm.read_memory(pc, key);
    vm.registers.pc = add_words(pc, 1);
    execute_instruction(instr, vm, key)
}

} // verus!
