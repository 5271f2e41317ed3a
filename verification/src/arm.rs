//! The registers of 32-bit ARM.
//! Numbered as the engine numbers them.

use vstd::prelude::*;
use vstd::std_specs::convert::FromSpecImpl;

verus! {

/// A register of this architecture, under its canonical name.
#[derive(Clone, Copy, Debug, PartialEq, Eq, Structural)]
pub enum Register {
    INVALID,
    APSR,
    APSR_NZCV,
    CPSR,
    FPEXC,
    FPINST,
    FPSCR,
    FPSCR_NZCV,
    FPSID,
    ITSTATE,
    LR,
    PC,
    SP,
    SPSR,
    D0,
    D1,
    D2,
    D3,
    D4,
    D5,
    D6,
    D7,
    D8,
    D9,
    D10,
    D11,
    D12,
    D13,
    D14,
    D15,
    D16,
    D17,
    D18,
    D19,
    D20,
    D21,
    D22,
    D23,
    D24,
    D25,
    D26,
    D27,
    D28,
    D29,
    D30,
    D31,
    FPINST2,
    MVFR0,
    MVFR1,
    MVFR2,
    Q0,
    Q1,
    Q2,
    Q3,
    Q4,
    Q5,
    Q6,
    Q7,
    Q8,
    Q9,
    Q10,
    Q11,
    Q12,
    Q13,
    Q14,
    Q15,
    R0,
    R1,
    R2,
    R3,
    R4,
    R5,
    R6,
    R7,
    R8,
    R9,
    R10,
    R11,
    R12,
    S0,
    S1,
    S2,
    S3,
    S4,
    S5,
    S6,
    S7,
    S8,
    S9,
    S10,
    S11,
    S12,
    S13,
    S14,
    S15,
    S16,
    S17,
    S18,
    S19,
    S20,
    S21,
    S22,
    S23,
    S24,
    S25,
    S26,
    S27,
    S28,
    S29,
    S30,
    S31,
    C1_C0_2,
    C13_C0_2,
    C13_C0_3,
    IPSR,
    MSP,
    PSP,
    CONTROL,
}

impl Register {
    // Conventional names: each one is the register on its right.
    pub const R13: Register = Register::SP;
    pub const R14: Register = Register::LR;
    pub const R15: Register = Register::PC;
    pub const SB: Register = Register::R9;
    pub const SL: Register = Register::R10;
    pub const FP: Register = Register::R11;
    pub const IP: Register = Register::R12;

    /// The number by which the engine knows the register.
    pub open spec fn id(self) -> i32 {
        match self {
            Register::INVALID => 0,
            Register::APSR => 1,
            Register::APSR_NZCV => 2,
            Register::CPSR => 3,
            Register::FPEXC => 4,
            Register::FPINST => 5,
            Register::FPSCR => 6,
            Register::FPSCR_NZCV => 7,
            Register::FPSID => 8,
            Register::ITSTATE => 9,
            Register::LR => 10,
            Register::PC => 11,
            Register::SP => 12,
            Register::SPSR => 13,
            Register::D0 => 14,
            Register::D1 => 15,
            Register::D2 => 16,
            Register::D3 => 17,
            Register::D4 => 18,
            Register::D5 => 19,
            Register::D6 => 20,
            Register::D7 => 21,
            Register::D8 => 22,
            Register::D9 => 23,
            Register::D10 => 24,
            Register::D11 => 25,
            Register::D12 => 26,
            Register::D13 => 27,
            Register::D14 => 28,
            Register::D15 => 29,
            Register::D16 => 30,
            Register::D17 => 31,
            Register::D18 => 32,
            Register::D19 => 33,
            Register::D20 => 34,
            Register::D21 => 35,
            Register::D22 => 36,
            Register::D23 => 37,
            Register::D24 => 38,
            Register::D25 => 39,
            Register::D26 => 40,
            Register::D27 => 41,
            Register::D28 => 42,
            Register::D29 => 43,
            Register::D30 => 44,
            Register::D31 => 45,
            Register::FPINST2 => 46,
            Register::MVFR0 => 47,
            Register::MVFR1 => 48,
            Register::MVFR2 => 49,
            Register::Q0 => 50,
            Register::Q1 => 51,
            Register::Q2 => 52,
            Register::Q3 => 53,
            Register::Q4 => 54,
            Register::Q5 => 55,
            Register::Q6 => 56,
            Register::Q7 => 57,
            Register::Q8 => 58,
            Register::Q9 => 59,
            Register::Q10 => 60,
            Register::Q11 => 61,
            Register::Q12 => 62,
            Register::Q13 => 63,
            Register::Q14 => 64,
            Register::Q15 => 65,
            Register::R0 => 66,
            Register::R1 => 67,
            Register::R2 => 68,
            Register::R3 => 69,
            Register::R4 => 70,
            Register::R5 => 71,
            Register::R6 => 72,
            Register::R7 => 73,
            Register::R8 => 74,
            Register::R9 => 75,
            Register::R10 => 76,
            Register::R11 => 77,
            Register::R12 => 78,
            Register::S0 => 79,
            Register::S1 => 80,
            Register::S2 => 81,
            Register::S3 => 82,
            Register::S4 => 83,
            Register::S5 => 84,
            Register::S6 => 85,
            Register::S7 => 86,
            Register::S8 => 87,
            Register::S9 => 88,
            Register::S10 => 89,
            Register::S11 => 90,
            Register::S12 => 91,
            Register::S13 => 92,
            Register::S14 => 93,
            Register::S15 => 94,
            Register::S16 => 95,
            Register::S17 => 96,
            Register::S18 => 97,
            Register::S19 => 98,
            Register::S20 => 99,
            Register::S21 => 100,
            Register::S22 => 101,
            Register::S23 => 102,
            Register::S24 => 103,
            Register::S25 => 104,
            Register::S26 => 105,
            Register::S27 => 106,
            Register::S28 => 107,
            Register::S29 => 108,
            Register::S30 => 109,
            Register::S31 => 110,
            Register::C1_C0_2 => 111,
            Register::C13_C0_2 => 112,
            Register::C13_C0_3 => 113,
            Register::IPSR => 114,
            Register::MSP => 115,
            Register::PSP => 116,
            Register::CONTROL => 117,
        }
    }

    /// No two registers share a number.
    pub proof fn lemma_id_is_injective(a: Register, b: Register)
        requires
            a.id() == b.id(),
        ensures
            a == b,
    {
    }
}

impl From<Register> for i32 {
    fn from(r: Register) -> (id: i32) {
        match r {
            Register::INVALID => 0,
            Register::APSR => 1,
            Register::APSR_NZCV => 2,
            Register::CPSR => 3,
            Register::FPEXC => 4,
            Register::FPINST => 5,
            Register::FPSCR => 6,
            Register::FPSCR_NZCV => 7,
            Register::FPSID => 8,
            Register::ITSTATE => 9,
            Register::LR => 10,
            Register::PC => 11,
            Register::SP => 12,
            Register::SPSR => 13,
            Register::D0 => 14,
            Register::D1 => 15,
            Register::D2 => 16,
            Register::D3 => 17,
            Register::D4 => 18,
            Register::D5 => 19,
            Register::D6 => 20,
            Register::D7 => 21,
            Register::D8 => 22,
            Register::D9 => 23,
            Register::D10 => 24,
            Register::D11 => 25,
            Register::D12 => 26,
            Register::D13 => 27,
            Register::D14 => 28,
            Register::D15 => 29,
            Register::D16 => 30,
            Register::D17 => 31,
            Register::D18 => 32,
            Register::D19 => 33,
            Register::D20 => 34,
            Register::D21 => 35,
            Register::D22 => 36,
            Register::D23 => 37,
            Register::D24 => 38,
            Register::D25 => 39,
            Register::D26 => 40,
            Register::D27 => 41,
            Register::D28 => 42,
            Register::D29 => 43,
            Register::D30 => 44,
            Register::D31 => 45,
            Register::FPINST2 => 46,
            Register::MVFR0 => 47,
            Register::MVFR1 => 48,
            Register::MVFR2 => 49,
            Register::Q0 => 50,
            Register::Q1 => 51,
            Register::Q2 => 52,
            Register::Q3 => 53,
            Register::Q4 => 54,
            Register::Q5 => 55,
            Register::Q6 => 56,
            Register::Q7 => 57,
            Register::Q8 => 58,
            Register::Q9 => 59,
            Register::Q10 => 60,
            Register::Q11 => 61,
            Register::Q12 => 62,
            Register::Q13 => 63,
            Register::Q14 => 64,
            Register::Q15 => 65,
            Register::R0 => 66,
            Register::R1 => 67,
            Register::R2 => 68,
            Register::R3 => 69,
            Register::R4 => 70,
            Register::R5 => 71,
            Register::R6 => 72,
            Register::R7 => 73,
            Register::R8 => 74,
            Register::R9 => 75,
            Register::R10 => 76,
            Register::R11 => 77,
            Register::R12 => 78,
            Register::S0 => 79,
            Register::S1 => 80,
            Register::S2 => 81,
            Register::S3 => 82,
            Register::S4 => 83,
            Register::S5 => 84,
            Register::S6 => 85,
            Register::S7 => 86,
            Register::S8 => 87,
            Register::S9 => 88,
            Register::S10 => 89,
            Register::S11 => 90,
            Register::S12 => 91,
            Register::S13 => 92,
            Register::S14 => 93,
            Register::S15 => 94,
            Register::S16 => 95,
            Register::S17 => 96,
            Register::S18 => 97,
            Register::S19 => 98,
            Register::S20 => 99,
            Register::S21 => 100,
            Register::S22 => 101,
            Register::S23 => 102,
            Register::S24 => 103,
            Register::S25 => 104,
            Register::S26 => 105,
            Register::S27 => 106,
            Register::S28 => 107,
            Register::S29 => 108,
            Register::S30 => 109,
            Register::S31 => 110,
            Register::C1_C0_2 => 111,
            Register::C13_C0_2 => 112,
            Register::C13_C0_3 => 113,
            Register::IPSR => 114,
            Register::MSP => 115,
            Register::PSP => 116,
            Register::CONTROL => 117,
        }
    }
}

impl FromSpecImpl<Register> for i32 {
    open spec fn obeys_from_spec() -> bool {
        true
    }

    open spec fn from_spec(r: Register) -> i32 {
        r.id()
    }
}

} // verus!
