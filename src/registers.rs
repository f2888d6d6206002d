use vstd::prelude::*;

verus! {

/// Condition code: the last result written was positive.
pub const FL_POS: u16 = 0b001;

/// Condition code: the last result written was zero.
pub const FL_ZRO: u16 = 0b010;

/// Condition code: the last result written was negative.
pub const FL_NEG: u16 = 0b100;

/// Where the loader conventionally places the program.
pub const PC_START: u16 = 0x3000;

/// The condition code that describes the sign of `v` read as two's complement.
pub open spec fn cond_code(v: u16) -> u16 {
    if v == 0 {
        FL_ZRO
    } else if v >= 0x8000 {
        FL_NEG
    } else {
        FL_POS
    }
}

/// Is `c` one of the three condition codes?
pub open spec fn is_cond_code(c: u16) -> bool {
    c == FL_POS || c == FL_ZRO || c == FL_NEG
}

/// The register file: eight general registers, the program counter and the
/// condition-code register.
#[derive(Clone, Copy, Debug, PartialEq, Eq, Structural)]
pub struct Registers {
    pub r0: u16,
    pub r1: u16,
    pub r2: u16,
    pub r3: u16,
    pub r4: u16,
    pub r5: u16,
    pub r6: u16,
    pub r7: u16,
    pub pc: u16,
    pub cond: u16,
}

impl Registers {
    /// General register `i` (`i < 8`).
    pub open spec fn reg(self, i: u16) -> u16 {
        if i == 0 {
            self.r0
        } else if i == 1 {
            self.r1
        } else if i == 2 {
            self.r2
        } else if i == 3 {
            self.r3
        } else if i == 4 {
            self.r4
        } else if i == 5 {
            self.r5
        } else if i == 6 {
            self.r6
        } else {
            self.r7
        }
    }

    /// The register file with general register `i` (`i < 8`) set to `v`.
    pub open spec fn with_reg(self, i: u16, v: u16) -> Registers {
        if i == 0 {
            Registers { r0: v, ..self }
        } else if i == 1 {
            Registers { r1: v, ..self }
        } else if i == 2 {
            Registers { r2: v, ..self }
        } else if i == 3 {
            Registers { r3: v, ..self }
        } else if i == 4 {
            Registers { r4: v, ..self }
        } else if i == 5 {
            Registers { r5: v, ..self }
        } else if i == 6 {
            Registers { r6: v, ..self }
        } else {
            Registers { r7: v, ..self }
        }
    }

    /// The register file with the condition code set from general register `i`.
    pub open spec fn with_cc_of(self, i: u16) -> Registers {
        Registers { cond: cond_code(self.reg(i)), ..self }
    }

    /// The register file after a condition-setting write of `v` to register `i`.
    pub open spec fn written(self, i: u16, v: u16) -> Registers {
        self.with_reg(i, v).with_cc_of(i)
    }

    /// The register file with the program counter set to `pc`.
    pub open spec fn with_pc(self, pc: u16) -> Registers {
        Registers { pc, ..self }
    }

    /// All general registers zero, condition code Z, PC at the conventional start.
    pub fn new() -> (r: Registers)
        ensures
            forall|i: u16| i < 8 ==> #[trigger] r.reg(i) == 0,
            r.pc == PC_START,
            r.cond == FL_ZRO,
    {
        Registers { r0: 0, r1: 0, r2: 0, r3: 0, r4: 0, r5: 0, r6: 0, r7: 0, pc: PC_START, cond: FL_ZRO }
    }

    /// Reads general register `i`.
    pub fn get(&self, i: u16) -> (r: u16)
        requires
            i < 8,
        ensures
            r == self.reg(i),
    {
        match i {
            0 => self.r0,
            1 => self.r1,
            2 => self.r2,
            3 => self.r3,
            4 => self.r4,
            5 => self.r5,
            6 => self.r6,
            _ => self.r7,
        }
    }

    /// Writes `v` to general register `i`, leaving the condition code alone.
    pub fn update(&mut self, i: u16, v: u16)
        requires
            i < 8,
        ensures
            *final(self) == old(self).with_reg(i, v),
    {
        match i {
            0 => self.r0 = v,
            1 => self.r1 = v,
            2 => self.r2 = v,
            3 => self.r3 = v,
            4 => self.r4 = v,
            5 => self.r5 = v,
            6 => self.r6 = v,
            _ => self.r7 = v,
        }
    }

    /// Sets the condition code from the sign of general register `i`.
    pub fn update_r_cond_register(&mut self, i: u16)
        requires
            i < 8,
        ensures
            *final(self) == old(self).with_cc_of(i),
            is_cond_code(final(self).cond),
    {
        let v = self.get(i);
        if v == 0 {
            self.cond = FL_ZRO;
        } else if v >> 15 != 0 {
            assert(v >= 0x8000) by (bit_vector)
                requires
                    v >> 15 != 0,
            ;
            self.cond = FL_NEG;
        } else {
            assert(v < 0x8000) by (bit_vector)
                requires
                    v >> 15 == 0,
            ;
            self.cond = FL_POS;
        }
    }
}

} // verus!
