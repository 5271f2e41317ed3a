//! The registers of MIPS.
//! Numbered as the engine numbers them. The conventional names of the general
//! purpose registers, and `HI0`..`HI3` and `LO0`..`LO3` for the four
//! accumulators, are constants of `Register`.

use vstd::prelude::*;
use vstd::std_specs::convert::FromSpecImpl;

verus! {

/// A register of this architecture, under its canonical name.
#[derive(Clone, Copy, Debug, PartialEq, Eq, Structural)]
pub enum Register {
    INVALID,
    // General purpose registers
    PC,
    GPR0,
    GPR1,
    GPR2,
    GPR3,
    GPR4,
    GPR5,
    GPR6,
    GPR7,
    GPR8,
    GPR9,
    GPR10,
    GPR11,
    GPR12,
    GPR13,
    GPR14,
    GPR15,
    GPR16,
    GPR17,
    GPR18,
    GPR19,
    GPR20,
    GPR21,
    GPR22,
    GPR23,
    GPR24,
    GPR25,
    GPR26,
    GPR27,
    GPR28,
    GPR29,
    GPR30,
    GPR31,
    // DSP registers
    DSPCCOND,
    DSPCARRY,
    DSPEFI,
    DSPOUTFLAG,
    DSPOUTFLAG16_19,
    DSPOUTFLAG20,
    DSPOUTFLAG21,
    DSPOUTFLAG22,
    DSPOUTFLAG23,
    DSPPOS,
    DSPSCOUNT,
    // ACC registers
    AC0,
    AC1,
    AC2,
    AC3,
    // COP registers
    CC0,
    CC1,
    CC2,
    CC3,
    CC4,
    CC5,
    CC6,
    CC7,
    // FPU registers
    F0,
    F1,
    F2,
    F3,
    F4,
    F5,
    F6,
    F7,
    F8,
    F9,
    F10,
    F11,
    F12,
    F13,
    F14,
    F15,
    F16,
    F17,
    F18,
    F19,
    F20,
    F21,
    F22,
    F23,
    F24,
    F25,
    F26,
    F27,
    F28,
    F29,
    F30,
    F31,
    FCC0,
    FCC1,
    FCC2,
    FCC3,
    FCC4,
    FCC5,
    FCC6,
    FCC7,
    // AFPR128
    W0,
    W1,
    W2,
    W3,
    W4,
    W5,
    W6,
    W7,
    W8,
    W9,
    W10,
    W11,
    W12,
    W13,
    W14,
    W15,
    W16,
    W17,
    W18,
    W19,
    W20,
    W21,
    W22,
    W23,
    W24,
    W25,
    W26,
    W27,
    W28,
    W29,
    W30,
    W31,
    HI,
    LO,
    P0,
    P1,
    P2,
    MPL0,
    MPL1,
    MPL2,
    CP0_CONFIG3,
    CP0_USERLOCAL,
    CP0_STATUS,
    ENDING,
}

impl Register {
    // Conventional names: each one is the register on its right.
    pub const ZERO: Register = Register::GPR0;
    pub const AT: Register = Register::GPR1;
    pub const V0: Register = Register::GPR2;
    pub const V1: Register = Register::GPR3;
    pub const A0: Register = Register::GPR4;
    pub const A1: Register = Register::GPR5;
    pub const A2: Register = Register::GPR6;
    pub const A3: Register = Register::GPR7;
    pub const T0: Register = Register::GPR8;
    pub const T1: Register = Register::GPR9;
    pub const T2: Register = Register::GPR10;
    pub const T3: Register = Register::GPR11;
    pub const T4: Register = Register::GPR12;
    pub const T5: Register = Register::GPR13;
    pub const T6: Register = Register::GPR14;
    pub const T7: Register = Register::GPR15;
    pub const S0: Register = Register::GPR16;
    pub const S1: Register = Register::GPR17;
    pub const S2: Register = Register::GPR18;
    pub const S3: Register = Register::GPR19;
    pub const S4: Register = Register::GPR20;
    pub const S5: Register = Register::GPR21;
    pub const S6: Register = Register::GPR22;
    pub const S7: Register = Register::GPR23;
    pub const T8: Register = Register::GPR24;
    pub const T9: Register = Register::GPR25;
    pub const K0: Register = Register::GPR26;
    pub const K1: Register = Register::GPR27;
    pub const GP: Register = Register::GPR28;
    pub const SP: Register = Register::GPR29;
    pub const FP: Register = Register::GPR30;
    pub const S8: Register = Register::GPR30;
    pub const RA: Register = Register::GPR31;
    pub const HI0: Register = Register::AC0;
    pub const HI1: Register = Register::AC1;
    pub const HI2: Register = Register::AC2;
    pub const HI3: Register = Register::AC3;
    pub const LO0: Register = Register::AC0;
    pub const LO1: Register = Register::AC1;
    pub const LO2: Register = Register::AC2;
    pub const LO3: Register = Register::AC3;

    /// The number by which the engine knows the register.
    pub open spec fn id(self) -> i32 {
        match self {
            Register::INVALID => 0,
            Register::PC => 1,
            Register::GPR0 => 2,
            Register::GPR1 => 3,
            Register::GPR2 => 4,
            Register::GPR3 => 5,
            Register::GPR4 => 6,
            Register::GPR5 => 7,
            Register::GPR6 => 8,
            Register::GPR7 => 9,
            Register::GPR8 => 10,
            Register::GPR9 => 11,
            Register::GPR10 => 12,
            Register::GPR11 => 13,
            Register::GPR12 => 14,
            Register::GPR13 => 15,
            Register::GPR14 => 16,
            Register::GPR15 => 17,
            Register::GPR16 => 18,
            Register::GPR17 => 19,
            Register::GPR18 => 20,
            Register::GPR19 => 21,
            Register::GPR20 => 22,
            Register::GPR21 => 23,
            Register::GPR22 => 24,
            Register::GPR23 => 25,
            Register::GPR24 => 26,
            Register::GPR25 => 27,
            Register::GPR26 => 28,
            Register::GPR27 => 29,
            Register::GPR28 => 30,
            Register::GPR29 => 31,
            Register::GPR30 => 32,
            Register::GPR31 => 33,
            Register::DSPCCOND => 34,
            Register::DSPCARRY => 35,
            Register::DSPEFI => 36,
            Register::DSPOUTFLAG => 37,
            Register::DSPOUTFLAG16_19 => 38,
            Register::DSPOUTFLAG20 => 39,
            Register::DSPOUTFLAG21 => 40,
            Register::DSPOUTFLAG22 => 41,
            Register::DSPOUTFLAG23 => 42,
            Register::DSPPOS => 43,
            Register::DSPSCOUNT => 44,
            Register::AC0 => 45,
            Register::AC1 => 46,
            Register::AC2 => 47,
            Register::AC3 => 48,
            Register::CC0 => 49,
            Register::CC1 => 50,
            Register::CC2 => 51,
            Register::CC3 => 52,
            Register::CC4 => 53,
            Register::CC5 => 54,
            Register::CC6 => 55,
            Register::CC7 => 56,
            Register::F0 => 57,
            Register::F1 => 58,
            Register::F2 => 59,
            Register::F3 => 60,
            Register::F4 => 61,
            Register::F5 => 62,
            Register::F6 => 63,
            Register::F7 => 64,
            Register::F8 => 65,
            Register::F9 => 66,
            Register::F10 => 67,
            Register::F11 => 68,
            Register::F12 => 69,
            Register::F13 => 70,
            Register::F14 => 71,
            Register::F15 => 72,
            Register::F16 => 73,
            Register::F17 => 74,
            Register::F18 => 75,
            Register::F19 => 76,
            Register::F20 => 77,
            Register::F21 => 78,
            Register::F22 => 79,
            Register::F23 => 80,
            Register::F24 => 81,
            Register::F25 => 82,
            Register::F26 => 83,
            Register::F27 => 84,
            Register::F28 => 85,
            Register::F29 => 86,
            Register::F30 => 87,
            Register::F31 => 88,
            Register::FCC0 => 89,
            Register::FCC1 => 90,
            Register::FCC2 => 91,
            Register::FCC3 => 92,
            Register::FCC4 => 93,
            Register::FCC5 => 94,
            Register::FCC6 => 95,
            Register::FCC7 => 96,
            Register::W0 => 97,
            Register::W1 => 98,
            Register::W2 => 99,
            Register::W3 => 100,
            Register::W4 => 101,
            Register::W5 => 102,
            Register::W6 => 103,
            Register::W7 => 104,
            Register::W8 => 105,
            Register::W9 => 106,
            Register::W10 => 107,
            Register::W11 => 108,
            Register::W12 => 109,
            Register::W13 => 110,
            Register::W14 => 111,
            Register::W15 => 112,
            Register::W16 => 113,
            Register::W17 => 114,
            Register::W18 => 115,
            Register::W19 => 116,
            Register::W20 => 117,
            Register::W21 => 118,
            Register::W22 => 119,
            Register::W23 => 120,
            Register::W24 => 121,
            Register::W25 => 122,
            Register::W26 => 123,
            Register::W27 => 124,
            Register::W28 => 125,
            Register::W29 => 126,
            Register::W30 => 127,
            Register::W31 => 128,
            Register::HI => 129,
            Register::LO => 130,
            Register::P0 => 131,
            Register::P1 => 132,
            Register::P2 => 133,
            Register::MPL0 => 134,
            Register::MPL1 => 135,
            Register::MPL2 => 136,
            Register::CP0_CONFIG3 => 137,
            Register::CP0_USERLOCAL => 138,
            Register::CP0_STATUS => 139,
            Register::ENDING => 140,
        }
    }

    /// No two registers share a number.
    pub proof fn lemma_id_is_injective(a: Register, b: Register)
        requires
            a.id() == b.id(),
        ensures
            a == b,
    {
    }
}

impl From<Register> for i32 {
    fn from(r: Register) -> (id: i32) {
        match r {
            Register::INVALID => 0,
            Register::PC => 1,
            Register::GPR0 => 2,
            Register::GPR1 => 3,
            Register::GPR2 => 4,
            Register::GPR3 => 5,
            Register::GPR4 => 6,
            Register::GPR5 => 7,
            Register::GPR6 => 8,
            Register::GPR7 => 9,
            Register::GPR8 => 10,
            Register::GPR9 => 11,
            Register::GPR10 => 12,
            Register::GPR11 => 13,
            Register::GPR12 => 14,
            Register::GPR13 => 15,
            Register::GPR14 => 16,
            Register::GPR15 => 17,
            Register::GPR16 => 18,
            Register::GPR17 => 19,
            Register::GPR18 => 20,
            Register::GPR19 => 21,
            Register::GPR20 => 22,
            Register::GPR21 => 23,
            Register::GPR22 => 24,
            Register::GPR23 => 25,
            Register::GPR24 => 26,
            Register::GPR25 => 27,
            Register::GPR26 => 28,
            Register::GPR27 => 29,
            Register::GPR28 => 30,
            Register::GPR29 => 31,
            Register::GPR30 => 32,
            Register::GPR31 => 33,
            Register::DSPCCOND => 34,
            Register::DSPCARRY => 35,
            Register::DSPEFI => 36,
            Register::DSPOUTFLAG => 37,
            Register::DSPOUTFLAG16_19 => 38,
            Register::DSPOUTFLAG20 => 39,
            Register::DSPOUTFLAG21 => 40,
            Register::DSPOUTFLAG22 => 41,
            Register::DSPOUTFLAG23 => 42,
            Register::DSPPOS => 43,
            Register::DSPSCOUNT => 44,
            Register::AC0 => 45,
            Register::AC1 => 46,
            Register::AC2 => 47,
            Register::AC3 => 48,
            Register::CC0 => 49,
            Register::CC1 => 50,
            Register::CC2 => 51,
            Register::CC3 => 52,
            Register::CC4 => 53,
            Register::CC5 => 54,
            Register::CC6 => 55,
            Register::CC7 => 56,
            Register::F0 => 57,
            Register::F1 => 58,
            Register::F2 => 59,
            Register::F3 => 60,
            Register::F4 => 61,
            Register::F5 => 62,
            Register::F6 => 63,
            Register::F7 => 64,
            Register::F8 => 65,
            Register::F9 => 66,
            Register::F10 => 67,
            Register::F11 => 68,
            Register::F12 => 69,
            Register::F13 => 70,
            Register::F14 => 71,
            Register::F15 => 72,
            Register::F16 => 73,
            Register::F17 => 74,
            Register::F18 => 75,
            Register::F19 => 76,
            Register::F20 => 77,
            Register::F21 => 78,
            Register::F22 => 79,
            Register::F23 => 80,
            Register::F24 => 81,
            Register::F25 => 82,
            Register::F26 => 83,
            Register::F27 => 84,
            Register::F28 => 85,
            Register::F29 => 86,
            Register::F30 => 87,
            Register::F31 => 88,
            Register::FCC0 => 89,
            Register::FCC1 => 90,
            Register::FCC2 => 91,
            Register::FCC3 => 92,
            Register::FCC4 => 93,
            Register::FCC5 => 94,
            Register::FCC6 => 95,
            Register::FCC7 => 96,
            Register::W0 => 97,
            Register::W1 => 98,
            Register::W2 => 99,
            Register::W3 => 100,
            Register::W4 => 101,
            Register::W5 => 102,
            Register::W6 => 103,
            Register::W7 => 104,
            Register::W8 => 105,
            Register::W9 => 106,
            Register::W10 => 107,
            Register::W11 => 108,
            Register::W12 => 109,
            Register::W13 => 110,
            Register::W14 => 111,
            Register::W15 => 112,
            Register::W16 => 113,
            Register::W17 => 114,
            Register::W18 => 115,
            Register::W19 => 116,
            Register::W20 => 117,
            Register::W21 => 118,
            Register::W22 => 119,
            Register::W23 => 120,
            Register::W24 => 121,
            Register::W25 => 122,
            Register::W26 => 123,
            Register::W27 => 124,
            Register::W28 => 125,
            Register::W29 => 126,
            Register::W30 => 127,
            Register::W31 => 128,
            Register::HI => 129,
            Register::LO => 130,
            Register::P0 => 131,
            Register::P1 => 132,
            Register::P2 => 133,
            Register::MPL0 => 134,
            Register::MPL1 => 135,
            Register::MPL2 => 136,
            Register::CP0_CONFIG3 => 137,
            Register::CP0_USERLOCAL => 138,
            Register::CP0_STATUS => 139,
            Register::ENDING => 140,
        }
    }
}

impl FromSpecImpl<Register> for i32 {
    open spec fn obeys_from_spec() -> bool {
        true
    }

    open spec fn from_spec(r: Register) -> i32 {
        r.id()
    }
}

} // verus!
