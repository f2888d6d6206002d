use lc3_vm::bits::add_words;
use lc3_vm::machine::{KBDR, KBSR};
use lc3_vm::registers::{FL_NEG, FL_POS, FL_ZRO};
use lc3_vm::{
    add, and, br, execute_instruction, get_op_code, jmp, jsr, ld, ldi, ldr, lea, not, sign_extend,
    st, sti, str, string_output, trap, Action, OpCode, TrapCode, VM,
};

fn machine_at(pc: u16) -> VM {
    let mut vm = VM::new();
    vm.registers.pc = pc;
    vm
}

#[test]
fn sign_extend_negative_five_bit_field() {
    assert_eq!(sign_extend(0x1F, 5), 0xFFFF);
}

#[test]
fn sign_extend_positive_five_bit_field() {
    assert_eq!(sign_extend(0x0F, 5), 0x000F);
}

#[test]
fn sign_extend_nine_and_eleven_bit_fields() {
    assert_eq!(sign_extend(0x100, 9), 0xFF00);
    assert_eq!(sign_extend(0x0FF, 9), 0x00FF);
    assert_eq!(sign_extend(0x400, 11), 0xFC00);
    assert_eq!(sign_extend(0x20, 6), 0xFFE0);
}

#[test]
fn sign_extend_full_width_is_identity() {
    assert_eq!(sign_extend(0x8001, 16), 0x8001);
    assert_eq!(sign_extend(0x7FFF, 16), 0x7FFF);
    assert_eq!(sign_extend(1, 1), 0xFFFF);
    assert_eq!(sign_extend(0, 1), 0);
}

#[test]
fn sign_extend_matches_twos_complement_value() {
    for w in 1u8..=16 {
        for x in 0u32..(1u32 << w) {
            let r = sign_extend(x as u16, w);
            let expected = if x >> (w - 1) & 1 == 1 { (x + 65536 - (1u32 << w)) as u16 } else { x as u16 };
            assert_eq!(r, expected);
        }
    }
}

#[test]
fn add_words_wraps() {
    assert_eq!(add_words(0xFFFF, 2), 1);
    assert_eq!(add_words(0x3000, 0x0010), 0x3010);
}

#[test]
fn decoder_maps_every_nibble() {
    let ops = [
        OpCode::BR, OpCode::ADD, OpCode::LD, OpCode::ST, OpCode::JSR, OpCode::AND, OpCode::LDR,
        OpCode::STR, OpCode::RTI, OpCode::NOT, OpCode::LDI, OpCode::STI, OpCode::JMP, OpCode::RES,
        OpCode::LEA, OpCode::TRAP,
    ];
    for (n, op) in ops.iter().enumerate() {
        assert_eq!(get_op_code(&(((n as u16) << 12) | 0x0ABC)), Some(*op));
    }
}

#[test]
fn trap_vectors_decode() {
    assert_eq!(TrapCode::from_vector(0x20), Some(TrapCode::Getc));
    assert_eq!(TrapCode::from_vector(0x25), Some(TrapCode::Halt));
    assert_eq!(TrapCode::from_vector(0x26), None);
}

#[test]
fn add_immediate_sign_extended() {
    let mut vm = machine_at(0x3001);
    let a = execute_instruction(0x123F, &mut vm, None);
    assert_eq!(a, Action::Continue);
    assert_eq!(vm.registers.r1, 0xFFFF);
    assert_eq!(vm.registers.cond, FL_NEG);
}

#[test]
fn and_with_register() {
    let mut vm = machine_at(0x3001);
    vm.registers.r2 = 0x00F0;
    vm.registers.r3 = 0x0F0F;
    execute_instruction(0x5483, &mut vm, None);
    assert_eq!(vm.registers.r1, 0x0000);
    assert_eq!(vm.registers.cond, FL_ZRO);
}

#[test]
fn lea_then_ld() {
    let mut vm = machine_at(0x3000);
    vm.memory[0x3002] = 0xBEEF;
    execute_instruction(0xE001, &mut vm, None);
    assert_eq!(vm.registers.r0, 0x3001);
    assert_eq!(vm.registers.cond, FL_POS);
    vm.registers.pc = 0x3002;
    execute_instruction(0x2200, &mut vm, None);
    assert_eq!(vm.registers.r1, 0xBEEF);
    assert_eq!(vm.registers.cond, FL_NEG);
}

#[test]
fn branch_taken() {
    let mut vm = machine_at(0x3001);
    execute_instruction(0x123F, &mut vm, None);
    assert_eq!(vm.registers.cond, FL_NEG);
    vm.registers.pc = 0x3002;
    execute_instruction(0x0805, &mut vm, None);
    assert_eq!(vm.registers.pc, 0x3007);
}

#[test]
fn branch_not_taken_keeps_pc() {
    let mut vm = machine_at(0x3002);
    br(0x0805, &mut vm);
    assert_eq!(vm.registers.pc, 0x3002);
    br(0x0E05, &mut vm);
    assert_eq!(vm.registers.pc, 0x3007);
}

#[test]
fn branch_backwards_wraps() {
    let mut vm = machine_at(0x0001);
    br(0x05FE, &mut vm);
    assert_eq!(vm.registers.pc, 0xFFFF);
}

#[test]
fn jsr_long() {
    let mut vm = machine_at(0x3001);
    execute_instruction(0x4810, &mut vm, None);
    assert_eq!(vm.registers.r7, 0x3001);
    assert_eq!(vm.registers.pc, 0x3011);
}

#[test]
fn jsrr_jumps_to_base_register() {
    let mut vm = machine_at(0x3001);
    vm.registers.r3 = 0x4000;
    jsr(0x40C0, &mut vm);
    assert_eq!(vm.registers.r7, 0x3001);
    assert_eq!(vm.registers.pc, 0x4000);
}

#[test]
fn jsrr_r7_keeps_pc_and_saves_return_address() {
    let mut vm = machine_at(0x3001);
    vm.registers.r7 = 0x1234;
    vm.registers.cond = FL_POS;
    jsr(0x41C0, &mut vm);
    assert_eq!(vm.registers.r7, 0x3001);
    assert_eq!(vm.registers.pc, 0x3001);
    assert_eq!(vm.registers.cond, FL_POS);
}

#[test]
fn halt_trap_stops_machine() {
    let mut vm = machine_at(0x3001);
    assert_eq!(execute_instruction(0xF025, &mut vm, None), Action::Halt);
    assert_eq!(vm.registers.pc, 0x3001);
}

#[test]
fn unknown_trap_vector_is_fatal() {
    let vm = machine_at(0x3001);
    assert_eq!(trap(0xF030, &vm), Action::BadTrap);
}

#[test]
fn getc_and_in_ask_for_a_byte() {
    let mut vm = machine_at(0x3001);
    vm.registers.cond = FL_NEG;
    assert_eq!(trap(0xF020, &vm), Action::ReadChar);
    assert_eq!(trap(0xF023, &vm), Action::PromptChar);
    vm.receive_input(b'a');
    assert_eq!(vm.registers.r0, 0x61);
    assert_eq!(vm.registers.cond, FL_NEG);
}

#[test]
fn out_writes_low_byte_of_r0() {
    let mut vm = machine_at(0x3001);
    vm.registers.r0 = 0x1241;
    assert_eq!(trap(0xF021, &vm), Action::Output(vec![0x41]));
}

#[test]
fn puts_writes_up_to_zero_word() {
    let mut vm = machine_at(0x3001);
    vm.registers.r0 = 0x4000;
    vm.memory[0x4000] = 0x0148;
    vm.memory[0x4001] = 0x0069;
    vm.memory[0x4002] = 0;
    vm.memory[0x4003] = 0x0041;
    assert_eq!(execute_instruction(0xF022, &mut vm, None), Action::Output(vec![0x48, 0x69]));
}

#[test]
fn puts_of_empty_string() {
    let mut vm = machine_at(0x3001);
    vm.registers.r0 = 0x4000;
    assert_eq!(trap(0xF022, &vm), Action::Output(vec![]));
}

#[test]
fn putsp_writes_two_bytes_per_word() {
    let mut vm = machine_at(0x3001);
    vm.registers.r0 = 0x4000;
    vm.memory[0x4000] = 0x6548;
    vm.memory[0x4001] = 0x0079;
    vm.memory[0x4002] = 0;
    assert_eq!(trap(0xF024, &vm), Action::Output(vec![0x48, 0x65, 0x79]));
}

#[test]
fn string_wraps_past_top_of_memory() {
    let mut vm = machine_at(0x3001);
    for w in vm.memory.iter_mut() {
        *w = 0x0041;
    }
    vm.memory[0x0001] = 0;
    vm.registers.r0 = 0xFFFF;
    assert_eq!(trap(0xF022, &vm), Action::Output(vec![0x41, 0x41]));
}

#[test]
fn string_without_terminator_never_ends() {
    let mut memory = vec![0x2A2Au16; 65536];
    memory[7] = 0x002A;
    match string_output(&memory, 5, true) {
        Action::OutputForever(b) => {
            assert_eq!(b.len(), 2 * 65536 - 1);
            assert_eq!(&b[0..5], &[0x2A, 0x2A, 0x2A, 0x2A, 0x2A]);
        }
        other => panic!("unexpected {:?}", other),
    }
    match string_output(&memory, 5, false) {
        Action::OutputForever(b) => assert_eq!(b.len(), 65536),
        other => panic!("unexpected {:?}", other),
    }
}

#[test]
fn not_complements_and_sets_cc() {
    let mut vm = machine_at(0x3001);
    vm.registers.r2 = 0x0F0F;
    not(0x96BF, &mut vm);
    assert_eq!(vm.registers.r3, 0xF0F0);
    assert_eq!(vm.registers.cond, FL_NEG);
}

#[test]
fn add_registers_wraps() {
    let mut vm = machine_at(0x3001);
    vm.registers.r1 = 0xFFFF;
    vm.registers.r2 = 0x0001;
    add(0x1042, &mut vm);
    assert_eq!(vm.registers.r0, 0);
    assert_eq!(vm.registers.cond, FL_ZRO);
    add(0x1025, &mut vm);
    assert_eq!(vm.registers.r0, 5);
    assert_eq!(vm.registers.cond, FL_POS);
}

#[test]
fn and_immediate() {
    let mut vm = machine_at(0x3001);
    vm.registers.r1 = 0x1234;
    and(0x546F, &mut vm);
    assert_eq!(vm.registers.r2, 0x0004);
    assert_eq!(vm.registers.cond, FL_POS);
    and(0x5660, &mut vm);
    assert_eq!(vm.registers.r3, 0);
    assert_eq!(vm.registers.cond, FL_ZRO);
}

#[test]
fn jmp_and_ret() {
    let mut vm = machine_at(0x3001);
    vm.registers.r2 = 0x5000;
    jmp(0xC080, &mut vm);
    assert_eq!(vm.registers.pc, 0x5000);
    vm.registers.r7 = 0x3010;
    jmp(0xC1C0, &mut vm);
    assert_eq!(vm.registers.pc, 0x3010);
}

#[test]
fn ldr_and_str_use_base_plus_offset() {
    let mut vm = machine_at(0x3001);
    vm.registers.r1 = 0x4005;
    vm.registers.r2 = 0x8001;
    str(0x747E, &mut vm);
    assert_eq!(vm.memory[0x4003], 0x8001);
    ldr(0x6A7E, &mut vm, None);
    assert_eq!(vm.registers.r5, 0x8001);
    assert_eq!(vm.registers.cond, FL_NEG);
}

#[test]
fn store_then_load_round_trip() {
    let mut vm = machine_at(0x3001);
    vm.registers.r4 = 0x7777;
    st(0x39F0, &mut vm);
    assert_eq!(vm.memory[0x2FF1], 0x7777);
    ld(0x25F0, &mut vm, None);
    assert_eq!(vm.registers.r2, 0x7777);
    assert_eq!(vm.registers.cond, FL_POS);
}

#[test]
fn store_indirect_then_load_indirect_round_trip() {
    let mut vm = machine_at(0x3001);
    vm.memory[0x3003] = 0x6000;
    vm.registers.r6 = 0xABCD;
    sti(0xBC02, &mut vm, None);
    assert_eq!(vm.memory[0x6000], 0xABCD);
    ldi(0xA202, &mut vm, None);
    assert_eq!(vm.registers.r1, 0xABCD);
    assert_eq!(vm.registers.cond, FL_NEG);
}

#[test]
fn lea_sets_condition_code() {
    let mut vm = machine_at(0x0000);
    lea(0xE5FF, &mut vm);
    assert_eq!(vm.registers.r2, 0xFFFF);
    assert_eq!(vm.registers.cond, FL_NEG);
}

#[test]
fn stores_and_jumps_keep_condition_code() {
    let mut vm = machine_at(0x3001);
    vm.registers.cond = FL_NEG;
    for instr in [0x3005u16, 0xB005, 0x7045, 0x0E01, 0xC080, 0x4810, 0xF021] {
        execute_instruction(instr, &mut vm, None);
        assert_eq!(vm.registers.cond, FL_NEG);
    }
}

#[test]
fn rti_and_reserved_are_ignored() {
    let mut vm = machine_at(0x3001);
    vm.registers.r0 = 9;
    assert_eq!(execute_instruction(0x8000, &mut vm, None), Action::Continue);
    assert_eq!(execute_instruction(0xDFFF, &mut vm, None), Action::Continue);
    assert_eq!(vm.registers.pc, 0x3001);
    assert_eq!(vm.registers.r0, 9);
    assert_eq!(vm.registers.cond, FL_ZRO);
}

#[test]
fn keyboard_status_polls_waiting_byte() {
    let mut vm = machine_at(0x3001);
    assert_eq!(vm.read_memory(KBSR, Some(b'x')), 0x8000);
    assert_eq!(vm.read_memory(KBDR, None), 0x78);
    assert_eq!(vm.read_memory(KBSR, None), 0);
    assert_eq!(vm.read_memory(KBDR, None), 0x78);
}

#[test]
fn load_indirect_through_keyboard_registers() {
    let mut vm = machine_at(0x3001);
    vm.memory[0x3001] = KBSR;
    vm.memory[0x3002] = KBDR;
    ldi(0xA000, &mut vm, Some(b'k'));
    assert_eq!(vm.registers.r0, 0x8000);
    ldi(0xA201, &mut vm, Some(b'k'));
    assert_eq!(vm.registers.r1, 0x6B);
    assert_eq!(vm.registers.cond, FL_POS);
}

#[test]
fn fresh_machine_state() {
    let vm = VM::new();
    assert_eq!(vm.memory.len(), 65536);
    assert_eq!(vm.registers.pc, 0x3000);
    assert_eq!(vm.registers.cond, FL_ZRO);
    assert_eq!(vm.registers.get(7), 0);
}

#[test]
fn load_image_places_words_at_origin() {
    let mut vm = VM::new();
    let image = vec![0x30, 0x00, 0x12, 0x3F, 0xF0, 0x25, 0x99];
    assert_eq!(lc3_vm::load_image(&mut vm, &image), Some(0x3000));
    assert_eq!(vm.memory[0x3000], 0x123F);
    assert_eq!(vm.memory[0x3001], 0xF025);
    assert_eq!(vm.memory[0x3002], 0);
}

#[test]
fn load_image_stops_at_top_of_memory() {
    let mut vm = VM::new();
    let image = vec![0xFF, 0xFF, 0x00, 0x41, 0x00, 0x42];
    assert_eq!(lc3_vm::load_image(&mut vm, &image), Some(0xFFFF));
    assert_eq!(vm.memory[0xFFFF], 0x0041);
    assert_eq!(vm.memory[0x0000], 0);
}

#[test]
fn load_image_without_origin_is_refused() {
    let mut vm = VM::new();
    assert_eq!(lc3_vm::load_image(&mut vm, &vec![0x30]), None);
    assert!(vm.memory.iter().all(|w| *w == 0));
}

#[test]
fn run_cycle_fetches_advances_and_executes() {
    let mut vm = VM::new();
    vm.memory[0x3000] = 0x123F;
    vm.memory[0x3001] = 0x0805;
    vm.memory[0x3007] = 0xF025;
    assert_eq!(lc3_vm::run_cycle(&mut vm, None), Action::Continue);
    assert_eq!(vm.registers.r1, 0xFFFF);
    assert_eq!(vm.registers.pc, 0x3001);
    assert_eq!(lc3_vm::run_cycle(&mut vm, None), Action::Continue);
    assert_eq!(vm.registers.pc, 0x3007);
    assert_eq!(lc3_vm::run_cycle(&mut vm, None), Action::Halt);
    assert_eq!(vm.registers.pc, 0x3008);
}
