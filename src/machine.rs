use vstd::prelude::*;
use crate::registers::Registers;

verus! {

/// Number of words of memory: one per 16-bit address.
pub const MEMORY_SIZE: usize = 65536;

/// Keyboard status register: bit 15 set iff a character is available.
pub const KBSR: u16 = 0xFE00;

/// Keyboard data register: the most recently polled character.
pub const KBDR: u16 = 0xFE02;

/// The abstract state of a machine: its register file and its memory.
pub struct Machine {
    pub regs: Registers,
    pub mem: Seq<u16>,
}

/// Memory after the keyboard was polled and `key` was found waiting (or nothing).
pub open spec fn polled(mem: Seq<u16>, key: Option<u8>) -> Seq<u16> {
    match key {
        Some(b) => mem.update(KBSR as int, 0x8000).update(KBDR as int, b as u16),
        None => mem.update(KBSR as int, 0),
    }
}

/// Memory after a read of `addr`: only a read of KBSR changes it, by polling.
pub open spec fn after_read(mem: Seq<u16>, addr: u16, key: Option<u8>) -> Seq<u16> {
    if addr == KBSR {
        polled(mem, key)
    } else {
        mem
    }
}

/// The word that a read of `addr` returns when `key` is what the input holds.
pub open spec fn read_value(mem: Seq<u16>, addr: u16, key: Option<u8>) -> u16 {
    after_read(mem, addr, key)[addr as int]
}

/// The machine: register file and 65,536 words of memory.
pub struct VM {
    pub registers: Registers,
    pub memory: Vec<u16>,
}

impl View for VM {
    type V = Machine;

    open spec fn view(&self) -> Machine {
        Machine { regs: self.registers, mem: self.memory@ }
    }
}

impl VM {
    /// Memory has one cell for every 16-bit address.
    pub open spec fn wf(&self) -> bool {
        self.memory@.len() == MEMORY_SIZE
    }

    /// A machine with zeroed memory and freshly reset registers.
    pub fn new() -> (r: VM)
        ensures
            r.wf(),
            forall|a: int| 0 <= a < MEMORY_SIZE ==> #[trigger] r.memory@[a] == 0,
            forall|i: u16| i < 8 ==> #[trigger] r.registers.reg(i) == 0,
            r.registers.pc == crate::registers::PC_START,
            r.registers.cond == crate::registers::FL_ZRO,
    {
        let mut memory: Vec<u16> = Vec::new();
        let mut n: usize = 0;
        while n < MEMORY_SIZE
            invariant
                n <= MEMORY_SIZE,
                memory@.len() == n,
                forall|a: int| 0 <= a < n ==> #[trigger] memory@[a] == 0,
            decreases MEMORY_SIZE - n,
        {
            memory.push(0);
            n = n + 1;
        }
        VM { registers: Registers::new(), memory }
    }

    /// Reads the word at `addr`. A read of KBSR first polls the keyboard:
    /// `key` is the byte waiting on the input channel, if any.
    pub fn read_memory(&mut self, addr: u16, key: Option<u8>) -> (r: u16)
        requires
            old(self).wf(),
        ensures
            final(self).wf(),
            final(self).registers == old(self).registers,
            final(self).memory@ == after_read(old(self).memory@, addr, key),
            r == read_value(old(self).memory@, addr, key),
    {
        if addr == KBSR {
            match key {
                Some(b) => {
                    self.memory.set(KBSR as usize, 0x8000);
                    self.memory.set(KBDR as usize, b as u16);
                },
                None => {
                    self.memory.set(KBSR as usize, 0);
                },
            }
        }
        self.memory[addr as usize]
    }

    /// Stores `value` at `addr`.
    pub fn write_memory(&mut self, addr: u16, value: u16)
        requires
            old(self).wf(),
        ensures
            final(self).wf(),
            final(self).registers == old(self).registers,
            final(self).memory@ == old(self).memory@.update(addr as int, value),
    {
        self.memory.set(addr as usize, value);
    }

    /// Delivers a byte read for GETC or IN: R0 takes it, zero-extended; the
    /// condition code is left alone.
    pub fn receive_input(&mut self, byte: u8)
        requires
            old(self).wf(),
        ensures
            final(self).wf(),
            final(self).registers == old(self).registers.with_reg(0, byte as u16),
            final(self).memory@ == old(self).memory@,
    {
        self.registers.r0 = byte as u16;
    }
}

} // verus!
