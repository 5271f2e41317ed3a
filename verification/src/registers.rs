//! What the handle has to know of the registers of each architecture: which
//! one is the program counter, and which ones are wider than 64 bits.

use crate::arm;
use crate::arm64;
use crate::arrayvec::{from_array, from_array_len, register_bytes};
use crate::consts::{uc_error, Arch};
use crate::m68k;
use crate::mips;
use crate::ppc;
use crate::riscv;
use crate::sparc;
use crate::x86;
use tinyvec::ArrayVec;
use vstd::prelude::*;

verus! {

/// The register that holds the program counter of `arch`, by its number.
/// `Arch::MAX` is no architecture and has none.
pub open spec fn pc_register(arch: Arch) -> Option<i32> {
    match arch {
        Arch::X86 => Some(x86::Register::RIP.id()),
        Arch::ARM => Some(arm::Register::PC.id()),
        Arch::ARM64 => Some(arm64::Register::PC.id()),
        Arch::MIPS => Some(mips::Register::PC.id()),
        Arch::SPARC => Some(sparc::Register::PC.id()),
        Arch::M68K => Some(m68k::Register::PC.id()),
        Arch::PPC => Some(ppc::Register::PC.id()),
        Arch::RISCV => Some(riscv::Register::PC.id()),
        Arch::MAX => None,
    }
}

/// The number of the register that holds the program counter of `arch`.
/// `Arch::MAX` has no such register, and no number stands in for it: a caller
/// that this crate does not check and that asks for it all the same is
/// stopped.
pub fn pc_register_of(arch: Arch) -> (regid: i32)
    requires
        arch != Arch::MAX,
    ensures
        pc_register(arch) == Some(regid),
{
    match arch {
        Arch::X86 => i32::from(x86::Register::RIP),
        Arch::ARM => i32::from(arm::Register::PC),
        Arch::ARM64 => i32::from(arm64::Register::PC),
        Arch::MIPS => i32::from(mips::Register::PC),
        Arch::SPARC => i32::from(sparc::Register::PC),
        Arch::M68K => i32::from(m68k::Register::PC),
        Arch::PPC => i32::from(ppc::Register::PC),
        Arch::RISCV => i32::from(riscv::Register::PC),
        Arch::MAX => vstd::pervasive::unreached(),
    }
}

/// How many bytes the register `regid` of `arch` has, for the registers that
/// are read as bytes: on x86 the vector registers (16, 32 and 64 bytes), the
/// two descriptor table registers and the x87 registers (10 bytes each); on
/// 64-bit ARM the vector registers under both of their names (16 bytes).
/// Another register of these two architectures is a bad argument, and no
/// other architecture has such registers.
pub open spec fn wide_register_size(arch: Arch, regid: i32) -> Result<usize, uc_error> {
    if arch == Arch::X86 {
        if x86::Register::XMM0.id() <= regid <= x86::Register::XMM31.id() {
            Ok(16)
        } else if x86::Register::YMM0.id() <= regid <= x86::Register::YMM31.id() {
            Ok(32)
        } else if x86::Register::ZMM0.id() <= regid <= x86::Register::ZMM31.id() {
            Ok(64)
        } else if regid == x86::Register::GDTR.id() || regid == x86::Register::IDTR.id()
            || x86::Register::ST0.id() <= regid <= x86::Register::ST7.id() {
            Ok(10)
        } else {
            Err(uc_error::ARG)
        }
    } else if arch == Arch::ARM64 {
        if arm64::Register::Q0.id() <= regid <= arm64::Register::Q31.id()
            || arm64::Register::V0.id() <= regid <= arm64::Register::V31.id() {
            Ok(16)
        } else {
            Err(uc_error::ARG)
        }
    } else {
        Err(uc_error::ARCH)
    }
}

/// Whether `regid` is one of the registers numbered from `first` to `last`.
fn in_bank(regid: i32, first: i32, last: i32) -> (r: bool)
    ensures
        r == (first <= regid <= last),
{
    first <= regid && regid <= last
}

/// The size of the register `regid` of `arch`, where it is read as bytes.
pub fn wide_register_size_of(arch: Arch, regid: i32) -> (r: Result<usize, uc_error>)
    ensures
        r == wide_register_size(arch, regid),
{
    if arch == Arch::X86 {
        if in_bank(regid, x86::Register::XMM0.into(), x86::Register::XMM31.into()) {
            Ok(16)
        } else if in_bank(regid, x86::Register::YMM0.into(), x86::Register::YMM31.into()) {
            Ok(32)
        } else if in_bank(regid, x86::Register::ZMM0.into(), x86::Register::ZMM31.into()) {
            Ok(64)
        } else if regid == i32::from(x86::Register::GDTR) || regid == i32::from(
            x86::Register::IDTR,
        ) || in_bank(regid, x86::Register::ST0.into(), x86::Register::ST7.into()) {
            Ok(10)
        } else {
            Err(uc_error::ARG)
        }
    } else if arch == Arch::ARM64 {
        if in_bank(regid, arm64::Register::Q0.into(), arm64::Register::Q31.into()) || in_bank(
            regid,
            arm64::Register::V0.into(),
            arm64::Register::V31.into(),
        ) {
            Ok(16)
        } else {
            Err(uc_error::ARG)
        }
    } else {
        Err(uc_error::ARCH)
    }
}

/// `n` bytes, all zero.
pub open spec fn zeros(n: usize) -> Seq<u8> {
    Seq::new(n as nat, |i: int| 0u8)
}

/// A buffer of `size` zero bytes for a register of that size.
pub fn wide_register_buffer(size: usize) -> (buffer: ArrayVec<[u8; 64]>)
    requires
        size <= 64,
    ensures
        register_bytes(buffer) == zeros(size),
{
    let data = [0u8; 64];
    let buffer = if size == 64 {
        from_array(data)
    } else {
        from_array_len(data, size)
    };
    assert(register_bytes(buffer) =~= zeros(size));
    buffer
}

/// A register that is read as bytes has 10, 16, 32 or 64 of them.
pub proof fn lemma_wide_register_sizes(arch: Arch, regid: i32)
    ensures
        wide_register_size(arch, regid) matches Ok(n) ==> n == 10 || n == 16 || n == 32 || n == 64,
{
}

/// Only x86 and 64-bit ARM have registers that are read as bytes: on every
/// other architecture the answer is `ARCH`, and on these two a register
/// outside the table is `ARG`.
pub proof fn lemma_wide_register_errors(arch: Arch, regid: i32)
    ensures
        arch != Arch::X86 && arch != Arch::ARM64 ==> wide_register_size(arch, regid) == Err::<
            usize,
            uc_error,
        >(uc_error::ARCH),
        arch == Arch::X86 || arch == Arch::ARM64 ==> wide_register_size(arch, regid) is Ok
            || wide_register_size(arch, regid) == Err::<usize, uc_error>(uc_error::ARG),
{
}

/// Every architecture has a program counter, and `Arch::MAX`, which is none,
/// has none. The program counter is not the invalid register, and it is not
/// among the registers that are read as bytes.
pub proof fn lemma_pc_register_is_plain(arch: Arch)
    ensures
        pc_register(arch) is None <==> arch == Arch::MAX,
        pc_register(arch) matches Some(regid) ==> regid > 0 && wide_register_size(arch, regid)
            is Err,
{
}

} // verus!
