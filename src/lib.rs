//! An LC-3 instruction-execution engine: register file, memory with a
//! memory-mapped keyboard, decoder, per-opcode semantics and trap routines.
pub mod bits;
pub mod registers;
pub mod machine;
pub mod instruction;
pub mod laws;
pub mod loader;

pub use bits::sign_extend;
pub use registers::Registers;
pub use machine::VM;
pub use loader::load_image;
pub use instruction::{
    Action, OpCode, TrapCode, execute_instruction, get_op_code, add, and, not, br, jmp, jsr, ld,
    ldi, ldr, lea, st, sti, str, trap, string_output, run_cycle,
};
