//! The registers of RISC-V.
//! Numbered as the engine numbers them. The names of the calling convention
//! are constants of `Register`.

use vstd::prelude::*;
use vstd::std_specs::convert::FromSpecImpl;

verus! {

/// A register of this architecture, under its canonical name.
#[derive(Clone, Copy, Debug, PartialEq, Eq, Structural)]
pub enum Register {
    INVALID,
    // General purpose registers
    X0,
    X1,
    X2,
    X3,
    X4,
    X5,
    X6,
    X7,
    X8,
    X9,
    X10,
    X11,
    X12,
    X13,
    X14,
    X15,
    X16,
    X17,
    X18,
    X19,
    X20,
    X21,
    X22,
    X23,
    X24,
    X25,
    X26,
    X27,
    X28,
    X29,
    X30,
    X31,
    // Floating-point registers
    F0,
    F1,
    F2,
    F3,
    F4,
    F5,
    F6,
    F7,
    F8,
    F9,
    F10,
    F11,
    F12,
    F13,
    F14,
    F15,
    F16,
    F17,
    F18,
    F19,
    F20,
    F21,
    F22,
    F23,
    F24,
    F25,
    F26,
    F27,
    F28,
    F29,
    F30,
    F31,
    PC,
    ENDING,
}

impl Register {
    // Conventional names: each one is the register on its right.
    pub const ZERO: Register = Register::X0;
    pub const RA: Register = Register::X1;
    pub const SP: Register = Register::X2;
    pub const GP: Register = Register::X3;
    pub const TP: Register = Register::X4;
    pub const T0: Register = Register::X5;
    pub const T1: Register = Register::X6;
    pub const T2: Register = Register::X7;
    pub const S0: Register = Register::X8;
    pub const FP: Register = Register::X8;
    pub const S1: Register = Register::X9;
    pub const A0: Register = Register::X10;
    pub const A1: Register = Register::X11;
    pub const A2: Register = Register::X12;
    pub const A3: Register = Register::X13;
    pub const A4: Register = Register::X14;
    pub const A5: Register = Register::X15;
    pub const A6: Register = Register::X16;
    pub const A7: Register = Register::X17;
    pub const S2: Register = Register::X18;
    pub const S3: Register = Register::X19;
    pub const S4: Register = Register::X20;
    pub const S5: Register = Register::X21;
    pub const S6: Register = Register::X22;
    pub const S7: Register = Register::X23;
    pub const S8: Register = Register::X24;
    pub const S9: Register = Register::X25;
    pub const S10: Register = Register::X26;
    pub const S11: Register = Register::X27;
    pub const T3: Register = Register::X28;
    pub const T4: Register = Register::X29;
    pub const T5: Register = Register::X30;
    pub const T6: Register = Register::X31;
    pub const FT0: Register = Register::F0;
    pub const FT1: Register = Register::F1;
    pub const FT2: Register = Register::F2;
    pub const FT3: Register = Register::F3;
    pub const FT4: Register = Register::F4;
    pub const FT5: Register = Register::F5;
    pub const FT6: Register = Register::F6;
    pub const FT7: Register = Register::F7;
    pub const FS0: Register = Register::F8;
    pub const FS1: Register = Register::F9;
    pub const FA0: Register = Register::F10;
    pub const FA1: Register = Register::F11;
    pub const FA2: Register = Register::F12;
    pub const FA3: Register = Register::F13;
    pub const FA4: Register = Register::F14;
    pub const FA5: Register = Register::F15;
    pub const FA6: Register = Register::F16;
    pub const FA7: Register = Register::F17;
    pub const FS2: Register = Register::F18;
    pub const FS3: Register = Register::F19;
    pub const FS4: Register = Register::F20;
    pub const FS5: Register = Register::F21;
    pub const FS6: Register = Register::F22;
    pub const FS7: Register = Register::F23;
    pub const FS8: Register = Register::F24;
    pub const FS9: Register = Register::F25;
    pub const FS10: Register = Register::F26;
    pub const FS11: Register = Register::F27;
    pub const FT8: Register = Register::F28;
    pub const FT9: Register = Register::F29;
    pub const FT10: Register = Register::F30;
    pub const FT11: Register = Register::F31;

    /// The number by which the engine knows the register.
    pub open spec fn id(self) -> i32 {
        match self {
            Register::INVALID => 0,
            Register::X0 => 1,
            Register::X1 => 2,
            Register::X2 => 3,
            Register::X3 => 4,
            Register::X4 => 5,
            Register::X5 => 6,
            Register::X6 => 7,
            Register::X7 => 8,
            Register::X8 => 9,
            Register::X9 => 10,
            Register::X10 => 11,
            Register::X11 => 12,
            Register::X12 => 13,
            Register::X13 => 14,
            Register::X14 => 15,
            Register::X15 => 16,
            Register::X16 => 17,
            Register::X17 => 18,
            Register::X18 => 19,
            Register::X19 => 20,
            Register::X20 => 21,
            Register::X21 => 22,
            Register::X22 => 23,
            Register::X23 => 24,
            Register::X24 => 25,
            Register::X25 => 26,
            Register::X26 => 27,
            Register::X27 => 28,
            Register::X28 => 29,
            Register::X29 => 30,
            Register::X30 => 31,
            Register::X31 => 32,
            Register::F0 => 33,
            Register::F1 => 34,
            Register::F2 => 35,
            Register::F3 => 36,
            Register::F4 => 37,
            Register::F5 => 38,
            Register::F6 => 39,
            Register::F7 => 40,
            Register::F8 => 41,
            Register::F9 => 42,
            Register::F10 => 43,
            Register::F11 => 44,
            Register::F12 => 45,
            Register::F13 => 46,
            Register::F14 => 47,
            Register::F15 => 48,
            Register::F16 => 49,
            Register::F17 => 50,
            Register::F18 => 51,
            Register::F19 => 52,
            Register::F20 => 53,
            Register::F21 => 54,
            Register::F22 => 55,
            Register::F23 => 56,
            Register::F24 => 57,
            Register::F25 => 58,
            Register::F26 => 59,
            Register::F27 => 60,
            Register::F28 => 61,
            Register::F29 => 62,
            Register::F30 => 63,
            Register::F31 => 64,
            Register::PC => 65,
            Register::ENDING => 66,
        }
    }

    /// No two registers share a number.
    pub proof fn lemma_id_is_injective(a: Register, b: Register)
        requires
            a.id() == b.id(),
        ensures
            a == b,
    {
    }
}

impl From<Register> for i32 {
    fn from(r: Register) -> (id: i32) {
        match r {
            Register::INVALID => 0,
            Register::X0 => 1,
            Register::X1 => 2,
            Register::X2 => 3,
            Register::X3 => 4,
            Register::X4 => 5,
            Register::X5 => 6,
            Register::X6 => 7,
            Register::X7 => 8,
            Register::X8 => 9,
            Register::X9 => 10,
            Register::X10 => 11,
            Register::X11 => 12,
            Register::X12 => 13,
            Register::X13 => 14,
            Register::X14 => 15,
            Register::X15 => 16,
            Register::X16 => 17,
            Register::X17 => 18,
            Register::X18 => 19,
            Register::X19 => 20,
            Register::X20 => 21,
            Register::X21 => 22,
            Register::X22 => 23,
            Register::X23 => 24,
            Register::X24 => 25,
            Register::X25 => 26,
            Register::X26 => 27,
            Register::X27 => 28,
            Register::X28 => 29,
            Register::X29 => 30,
            Register::X30 => 31,
            Register::X31 => 32,
            Register::F0 => 33,
            Register::F1 => 34,
            Register::F2 => 35,
            Register::F3 => 36,
            Register::F4 => 37,
            Register::F5 => 38,
            Register::F6 => 39,
            Register::F7 => 40,
            Register::F8 => 41,
            Register::F9 => 42,
            Register::F10 => 43,
            Register::F11 => 44,
            Register::F12 => 45,
            Register::F13 => 46,
            Register::F14 => 47,
            Register::F15 => 48,
            Register::F16 => 49,
            Register::F17 => 50,
            Register::F18 => 51,
            Register::F19 => 52,
            Register::F20 => 53,
            Register::F21 => 54,
            Register::F22 => 55,
            Register::F23 => 56,
            Register::F24 => 57,
            Register::F25 => 58,
            Register::F26 => 59,
            Register::F27 => 60,
            Register::F28 => 61,
            Register::F29 => 62,
            Register::F30 => 63,
            Register::F31 => 64,
            Register::PC => 65,
            Register::ENDING => 66,
        }
    }
}

impl FromSpecImpl<Register> for i32 {
    open spec fn obeys_from_spec() -> bool {
        true
    }

    open spec fn from_spec(r: Register) -> i32 {
        r.id()
    }
}

} // verus!
