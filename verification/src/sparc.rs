//! The registers of SPARC.
//! Numbered as the engine numbers them.

use vstd::prelude::*;
use vstd::std_specs::convert::FromSpecImpl;

verus! {

/// A register of this architecture, under its canonical name.
#[derive(Clone, Copy, Debug, PartialEq, Eq, Structural)]
pub enum Register {
    INVALID,
    F0,
    F1,
    F2,
    F3,
    F4,
    F5,
    F6,
    F7,
    F8,
    F9,
    F10,
    F11,
    F12,
    F13,
    F14,
    F15,
    F16,
    F17,
    F18,
    F19,
    F20,
    F21,
    F22,
    F23,
    F24,
    F25,
    F26,
    F27,
    F28,
    F29,
    F30,
    F31,
    F32,
    F34,
    F36,
    F38,
    F40,
    F42,
    F44,
    F46,
    F48,
    F50,
    F52,
    F54,
    F56,
    F58,
    F60,
    F62,
    FCC0,
    FCC1,
    FCC2,
    FCC3,
    G0,
    G1,
    G2,
    G3,
    G4,
    G5,
    G6,
    G7,
    I0,
    I1,
    I2,
    I3,
    I4,
    I5,
    I6,
    I7,
    ICC,
    L0,
    L1,
    L2,
    L3,
    L4,
    L5,
    L6,
    L7,
    O0,
    O1,
    O2,
    O3,
    O4,
    O5,
    O6,
    O7,
    Y,
    XCC,
    PC,
    ENDING,
}

impl Register {
    // Conventional names: each one is the register on its right.
    pub const SP: Register = Register::O6;
    pub const FP: Register = Register::I6;

    /// The number by which the engine knows the register.
    pub open spec fn id(self) -> i32 {
        match self {
            Register::INVALID => 0,
            Register::F0 => 1,
            Register::F1 => 2,
            Register::F2 => 3,
            Register::F3 => 4,
            Register::F4 => 5,
            Register::F5 => 6,
            Register::F6 => 7,
            Register::F7 => 8,
            Register::F8 => 9,
            Register::F9 => 10,
            Register::F10 => 11,
            Register::F11 => 12,
            Register::F12 => 13,
            Register::F13 => 14,
            Register::F14 => 15,
            Register::F15 => 16,
            Register::F16 => 17,
            Register::F17 => 18,
            Register::F18 => 19,
            Register::F19 => 20,
            Register::F20 => 21,
            Register::F21 => 22,
            Register::F22 => 23,
            Register::F23 => 24,
            Register::F24 => 25,
            Register::F25 => 26,
            Register::F26 => 27,
            Register::F27 => 28,
            Register::F28 => 29,
            Register::F29 => 30,
            Register::F30 => 31,
            Register::F31 => 32,
            Register::F32 => 33,
            Register::F34 => 34,
            Register::F36 => 35,
            Register::F38 => 36,
            Register::F40 => 37,
            Register::F42 => 38,
            Register::F44 => 39,
            Register::F46 => 40,
            Register::F48 => 41,
            Register::F50 => 42,
            Register::F52 => 43,
            Register::F54 => 44,
            Register::F56 => 45,
            Register::F58 => 46,
            Register::F60 => 47,
            Register::F62 => 48,
            Register::FCC0 => 49,
            Register::FCC1 => 50,
            Register::FCC2 => 51,
            Register::FCC3 => 52,
            Register::G0 => 53,
            Register::G1 => 54,
            Register::G2 => 55,
            Register::G3 => 56,
            Register::G4 => 57,
            Register::G5 => 58,
            Register::G6 => 59,
            Register::G7 => 60,
            Register::I0 => 61,
            Register::I1 => 62,
            Register::I2 => 63,
            Register::I3 => 64,
            Register::I4 => 65,
            Register::I5 => 66,
            Register::I6 => 67,
            Register::I7 => 68,
            Register::ICC => 69,
            Register::L0 => 70,
            Register::L1 => 71,
            Register::L2 => 72,
            Register::L3 => 73,
            Register::L4 => 74,
            Register::L5 => 75,
            Register::L6 => 76,
            Register::L7 => 77,
            Register::O0 => 78,
            Register::O1 => 79,
            Register::O2 => 80,
            Register::O3 => 81,
            Register::O4 => 82,
            Register::O5 => 83,
            Register::O6 => 84,
            Register::O7 => 85,
            Register::Y => 86,
            Register::XCC => 87,
            Register::PC => 88,
            Register::ENDING => 89,
        }
    }

    /// No two registers share a number.
    pub proof fn lemma_id_is_injective(a: Register, b: Register)
        requires
            a.id() == b.id(),
        ensures
            a == b,
    {
    }
}

impl From<Register> for i32 {
    fn from(r: Register) -> (id: i32) {
        match r {
            Register::INVALID => 0,
            Register::F0 => 1,
            Register::F1 => 2,
            Register::F2 => 3,
            Register::F3 => 4,
            Register::F4 => 5,
            Register::F5 => 6,
            Register::F6 => 7,
            Register::F7 => 8,
            Register::F8 => 9,
            Register::F9 => 10,
            Register::F10 => 11,
            Register::F11 => 12,
            Register::F12 => 13,
            Register::F13 => 14,
            Register::F14 => 15,
            Register::F15 => 16,
            Register::F16 => 17,
            Register::F17 => 18,
            Register::F18 => 19,
            Register::F19 => 20,
            Register::F20 => 21,
            Register::F21 => 22,
            Register::F22 => 23,
            Register::F23 => 24,
            Register::F24 => 25,
            Register::F25 => 26,
            Register::F26 => 27,
            Register::F27 => 28,
            Register::F28 => 29,
            Register::F29 => 30,
            Register::F30 => 31,
            Register::F31 => 32,
            Register::F32 => 33,
            Register::F34 => 34,
            Register::F36 => 35,
            Register::F38 => 36,
            Register::F40 => 37,
            Register::F42 => 38,
            Register::F44 => 39,
            Register::F46 => 40,
            Register::F48 => 41,
            Register::F50 => 42,
            Register::F52 => 43,
            Register::F54 => 44,
            Register::F56 => 45,
            Register::F58 => 46,
            Register::F60 => 47,
            Register::F62 => 48,
            Register::FCC0 => 49,
            Register::FCC1 => 50,
            Register::FCC2 => 51,
            Register::FCC3 => 52,
            Register::G0 => 53,
            Register::G1 => 54,
            Register::G2 => 55,
            Register::G3 => 56,
            Register::G4 => 57,
            Register::G5 => 58,
            Register::G6 => 59,
            Register::G7 => 60,
            Register::I0 => 61,
            Register::I1 => 62,
            Register::I2 => 63,
            Register::I3 => 64,
            Register::I4 => 65,
            Register::I5 => 66,
            Register::I6 => 67,
            Register::I7 => 68,
            Register::ICC => 69,
            Register::L0 => 70,
            Register::L1 => 71,
            Register::L2 => 72,
            Register::L3 => 73,
            Register::L4 => 74,
            Register::L5 => 75,
            Register::L6 => 76,
            Register::L7 => 77,
            Register::O0 => 78,
            Register::O1 => 79,
            Register::O2 => 80,
            Register::O3 => 81,
            Register::O4 => 82,
            Register::O5 => 83,
            Register::O6 => 84,
            Register::O7 => 85,
            Register::Y => 86,
            Register::XCC => 87,
            Register::PC => 88,
            Register::ENDING => 89,
        }
    }
}

impl FromSpecImpl<Register> for i32 {
    open spec fn obeys_from_spec() -> bool {
        true
    }

    open spec fn from_spec(r: Register) -> i32 {
        r.id()
    }
}

} // verus!
