//! The registers of PowerPC.
//! The program counter and the general purpose registers, numbered as the
//! engine numbers them.

use vstd::prelude::*;
use vstd::std_specs::convert::FromSpecImpl;

verus! {

/// A register of this architecture, under its canonical name.
#[derive(Clone, Copy, Debug, PartialEq, Eq, Structural)]
pub enum Register {
    INVALID,
    PC,
    // General purpose registers
    GPR0,
    GPR1,
    GPR2,
    GPR3,
    GPR4,
    GPR5,
    GPR6,
    GPR7,
    GPR8,
    GPR9,
    GPR10,
    GPR11,
    GPR12,
    GPR13,
    GPR14,
    GPR15,
    GPR16,
    GPR17,
    GPR18,
    GPR19,
    GPR20,
    GPR21,
    GPR22,
    GPR23,
    GPR24,
    GPR25,
    GPR26,
    GPR27,
    GPR28,
    GPR29,
    GPR30,
    GPR31,
}

impl Register {
    /// The number by which the engine knows the register.
    pub open spec fn id(self) -> i32 {
        match self {
            Register::INVALID => 0,
            Register::PC => 1,
            Register::GPR0 => 2,
            Register::GPR1 => 3,
            Register::GPR2 => 4,
            Register::GPR3 => 5,
            Register::GPR4 => 6,
            Register::GPR5 => 7,
            Register::GPR6 => 8,
            Register::GPR7 => 9,
            Register::GPR8 => 10,
            Register::GPR9 => 11,
            Register::GPR10 => 12,
            Register::GPR11 => 13,
            Register::GPR12 => 14,
            Register::GPR13 => 15,
            Register::GPR14 => 16,
            Register::GPR15 => 17,
            Register::GPR16 => 18,
            Register::GPR17 => 19,
            Register::GPR18 => 20,
            Register::GPR19 => 21,
            Register::GPR20 => 22,
            Register::GPR21 => 23,
            Register::GPR22 => 24,
            Register::GPR23 => 25,
            Register::GPR24 => 26,
            Register::GPR25 => 27,
            Register::GPR26 => 28,
            Register::GPR27 => 29,
            Register::GPR28 => 30,
            Register::GPR29 => 31,
            Register::GPR30 => 32,
            Register::GPR31 => 33,
        }
    }

    /// No two registers share a number.
    pub proof fn lemma_id_is_injective(a: Register, b: Register)
        requires
            a.id() == b.id(),
        ensures
            a == b,
    {
    }
}

impl From<Register> for i32 {
    fn from(r: Register) -> (id: i32) {
        match r {
            Register::INVALID => 0,
            Register::PC => 1,
            Register::GPR0 => 2,
            Register::GPR1 => 3,
            Register::GPR2 => 4,
            Register::GPR3 => 5,
            Register::GPR4 => 6,
            Register::GPR5 => 7,
            Register::GPR6 => 8,
            Register::GPR7 => 9,
            Register::GPR8 => 10,
            Register::GPR9 => 11,
            Register::GPR10 => 12,
            Register::GPR11 => 13,
            Register::GPR12 => 14,
            Register::GPR13 => 15,
            Register::GPR14 => 16,
            Register::GPR15 => 17,
            Register::GPR16 => 18,
            Register::GPR17 => 19,
            Register::GPR18 => 20,
            Register::GPR19 => 21,
            Register::GPR20 => 22,
            Register::GPR21 => 23,
            Register::GPR22 => 24,
            Register::GPR23 => 25,
            Register::GPR24 => 26,
            Register::GPR25 => 27,
            Register::GPR26 => 28,
            Register::GPR27 => 29,
            Register::GPR28 => 30,
            Register::GPR29 => 31,
            Register::GPR30 => 32,
            Register::GPR31 => 33,
        }
    }
}

impl FromSpecImpl<Register> for i32 {
    open spec fn obeys_from_spec() -> bool {
        true
    }

    open spec fn from_spec(r: Register) -> i32 {
        r.id()
    }
}

} // verus!
