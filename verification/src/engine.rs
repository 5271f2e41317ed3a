//! What the handle asks of the engine.
//!
//! The engine is native code behind a C interface, and this crate does not
//! call it. A function of the handle that needs the engine returns a [`Call`]:
//! the entry point to use and its arguments, as plain values. The caller makes
//! the call and hands what came back to the function that concludes the
//! operation.

use crate::consts::{Arch, HookType, Mode, Permission, Query};
use crate::x86::Insn;
use vstd::prelude::*;

verus! {

/// An engine instance, as the engine names it. Zero is no instance.
pub type uc_handle = usize;

/// A registered hook, as the engine names it.
pub type uc_hook = usize;

/// A saved processor context, as the engine names it. Zero is no context.
pub type uc_context = usize;

/// One call into the engine.
///
/// But for `Open` and `Close`, a call is made on the instance of the handle
/// that asked for it.
#[derive(Clone, Copy, Debug, PartialEq, Eq)]
pub enum Call {
    /// Open an instance for `arch`, running in `mode`.
    Open { arch: Arch, mode: Mode },
    /// Close the instance `uc`.
    Close { uc: uc_handle },
    /// Ask the instance about itself.
    Query { query: Query },
    /// Map `size` bytes of fresh memory at `address`.
    MemMap { address: u64, size: usize, perms: Permission },
    /// Map the `size` bytes that `ptr` points to at `address`.
    MemMapPtr { address: u64, size: usize, perms: Permission, ptr: usize },
    /// Map `size` bytes at `address` that callbacks answer for. `read` and
    /// `write` say which of the two callbacks there is.
    MmioMap { address: u64, size: usize, read: bool, write: bool },
    /// Unmap `size` bytes at `address`.
    MemUnmap { address: u64, size: usize },
    /// Set the permissions of the `size` bytes at `address`.
    MemProtect { address: u64, size: usize, perms: Permission },
    /// List the mapped regions.
    MemRegions,
    /// Read `size` bytes at `address`.
    MemRead { address: u64, size: usize },
    /// Write `size` bytes at `address`.
    MemWrite { address: u64, size: usize },
    /// Write `value` to the register `regid`, which is at most 64 bits wide.
    RegWrite { regid: i32, value: u64 },
    /// Write the caller's `size` bytes to the register `regid`: for a register
    /// of more than 64 bits, which has to have that many bytes.
    RegWriteLong { regid: i32, size: usize },
    /// Read the register `regid` into a buffer of `size` bytes.
    RegRead { regid: i32, size: usize },
    /// Register a hook for the events of `hook_type` between `begin` and `end`.
    /// With `begin` above `end` the hook sees every address. A hook of type
    /// `insn` names its instruction in `insn`.
    HookAdd { hook_type: HookType, begin: u64, end: u64, insn: Option<Insn> },
    /// Remove the hook `hook`.
    HookDel { hook: uc_hook },
    /// Allocate a context.
    ContextAlloc,
    /// Save the state of the processor into `context`.
    ContextSave { context: uc_context },
    /// Set the state of the processor from `context`.
    ContextRestore { context: uc_context },
    /// Free `context`.
    ContextFree { context: uc_context },
    /// Run from `begin` until `until` is reached, `timeout` microseconds have
    /// passed or `count` instructions have run; zero is no limit.
    EmuStart { begin: u64, until: u64, timeout: u64, count: usize },
    /// Stop a run.
    EmuStop,
}

} // verus!
