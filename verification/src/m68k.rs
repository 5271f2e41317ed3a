//! The registers of the Motorola 68000.
//! Address registers, data registers, the status register and the program
//! counter, numbered as the engine numbers them.

use vstd::prelude::*;
use vstd::std_specs::convert::FromSpecImpl;

verus! {

/// A register of this architecture, under its canonical name.
#[derive(Clone, Copy, Debug, PartialEq, Eq, Structural)]
pub enum Register {
    INVALID,
    A0,
    A1,
    A2,
    A3,
    A4,
    A5,
    A6,
    A7,
    D0,
    D1,
    D2,
    D3,
    D4,
    D5,
    D6,
    D7,
    SR,
    PC,
}

impl Register {
    /// The number by which the engine knows the register.
    pub open spec fn id(self) -> i32 {
        match self {
            Register::INVALID => 0,
            Register::A0 => 1,
            Register::A1 => 2,
            Register::A2 => 3,
            Register::A3 => 4,
            Register::A4 => 5,
            Register::A5 => 6,
            Register::A6 => 7,
            Register::A7 => 8,
            Register::D0 => 9,
            Register::D1 => 10,
            Register::D2 => 11,
            Register::D3 => 12,
            Register::D4 => 13,
            Register::D5 => 14,
            Register::D6 => 15,
            Register::D7 => 16,
            Register::SR => 17,
            Register::PC => 18,
        }
    }

    /// No two registers share a number.
    pub proof fn lemma_id_is_injective(a: Register, b: Register)
        requires
            a.id() == b.id(),
        ensures
            a == b,
    {
    }
}

impl From<Register> for i32 {
    fn from(r: Register) -> (id: i32) {
        match r {
            Register::INVALID => 0,
            Register::A0 => 1,
            Register::A1 => 2,
            Register::A2 => 3,
            Register::A3 => 4,
            Register::A4 => 5,
            Register::A5 => 6,
            Register::A6 => 7,
            Register::A7 => 8,
            Register::D0 => 9,
            Register::D1 => 10,
            Register::D2 => 11,
            Register::D3 => 12,
            Register::D4 => 13,
            Register::D5 => 14,
            Register::D6 => 15,
            Register::D7 => 16,
            Register::SR => 17,
            Register::PC => 18,
        }
    }
}

impl FromSpecImpl<Register> for i32 {
    open spec fn obeys_from_spec() -> bool {
        true
    }

    open spec fn from_spec(r: Register) -> i32 {
        r.id()
    }
}

} // verus!
