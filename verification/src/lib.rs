//! The core of a binding to a CPU emulation engine for several architectures.
//!
//! The engine is native code. This crate is what a binding decides around it,
//! and the proof that it decides as it says:
//!
//! - [`consts`] and the modules named after architectures hold the numbers
//!   that the engine and its callers exchange;
//! - [`engine`] names the calls into the engine;
//! - [`unicorn`] is the handle on an engine instance: what it refuses before
//!   the engine is asked, what it asks, and what it keeps of the answer;
//! - [`mmio`] keeps track of the addresses that MMIO callbacks answer for;
//! - [`registers`] knows the program counter and the wide registers of each
//!   architecture;
//! - [`context`] is a saved processor context;
//! - [`arrayvec`] states what is taken on trust of the `tinyvec` crate.
//!
//! No function here calls the engine. A function that needs the engine
//! returns a [`engine::Call`], the caller makes the call, and the engine's
//! answer goes to the function that concludes the operation. How the engine
//! answers is not for this crate to say.
#![allow(non_camel_case_types)]

pub mod arm;
pub mod arm64;
pub mod arrayvec;
pub mod consts;
pub mod context;
pub mod engine;
pub mod m68k;
pub mod mips;
pub mod mmio;
pub mod ppc;
pub mod registers;
pub mod riscv;
pub mod sparc;
pub mod unicorn;
pub mod x86;
