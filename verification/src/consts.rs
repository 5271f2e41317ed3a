//! The vocabulary shared with the engine: architectures, modes, permissions,
//! hook types, kinds of memory access, queries and outcomes.
//!
//! Every number here is one the engine reads or writes: it has to be the
//! engine's own.

use core::ops::BitOr;
use vstd::prelude::*;
use vstd::std_specs::ops::BitOrSpecImpl;

verus! {

/// What one second is in the unit of a timeout, the microsecond: a timeout of
/// ten seconds is `10 * SECOND_SCALE`.
pub const SECOND_SCALE: u64 = 1_000_000;

/// How a call into the engine ended.
#[derive(Clone, Copy, Debug, PartialEq, Eq, Structural)]
pub enum uc_error {
    /// The call succeeded.
    OK,
    /// The engine ran out of memory.
    NOMEM,
    /// The architecture is not supported.
    ARCH,
    /// The engine instance is not valid.
    HANDLE,
    /// The mode is not valid or not supported.
    MODE,
    /// The engine is of another version than the caller expects.
    VERSION,
    /// A read touched memory that is not mapped.
    READ_UNMAPPED,
    /// A write touched memory that is not mapped.
    WRITE_UNMAPPED,
    /// An instruction was fetched from memory that is not mapped.
    FETCH_UNMAPPED,
    /// The hook type is not valid.
    HOOK,
    /// The instruction is not valid.
    INSN_INVALID,
    /// The memory mapping is not valid.
    MAP,
    /// A write touched memory that may not be written.
    WRITE_PROT,
    /// A read touched memory that may not be read.
    READ_PROT,
    /// An instruction was fetched from memory that may not be executed.
    FETCH_PROT,
    /// An argument is not valid.
    ARG,
    /// A read was not aligned.
    READ_UNALIGNED,
    /// A write was not aligned.
    WRITE_UNALIGNED,
    /// An instruction fetch was not aligned.
    FETCH_UNALIGNED,
    /// The hook is registered already.
    HOOK_EXIST,
    /// A resource of the engine is exhausted.
    RESOURCE,
    /// The emulated processor raised an exception that nothing handled.
    EXCEPTION,
}

impl uc_error {
    /// The number by which the engine knows this outcome.
    #[verifier::allow_in_spec]
    pub fn code(self) -> i32
        returns
            (match self {
                uc_error::OK => 0i32,
                uc_error::NOMEM => 1i32,
                uc_error::ARCH => 2i32,
                uc_error::HANDLE => 3i32,
                uc_error::MODE => 4i32,
                uc_error::VERSION => 5i32,
                uc_error::READ_UNMAPPED => 6i32,
                uc_error::WRITE_UNMAPPED => 7i32,
                uc_error::FETCH_UNMAPPED => 8i32,
                uc_error::HOOK => 9i32,
                uc_error::INSN_INVALID => 10i32,
                uc_error::MAP => 11i32,
                uc_error::WRITE_PROT => 12i32,
                uc_error::READ_PROT => 13i32,
                uc_error::FETCH_PROT => 14i32,
                uc_error::ARG => 15i32,
                uc_error::READ_UNALIGNED => 16i32,
                uc_error::WRITE_UNALIGNED => 17i32,
                uc_error::FETCH_UNALIGNED => 18i32,
                uc_error::HOOK_EXIST => 19i32,
                uc_error::RESOURCE => 20i32,
                uc_error::EXCEPTION => 21i32,
            }),
    {
        match self {
            uc_error::OK => 0,
            uc_error::NOMEM => 1,
            uc_error::ARCH => 2,
            uc_error::HANDLE => 3,
            uc_error::MODE => 4,
            uc_error::VERSION => 5,
            uc_error::READ_UNMAPPED => 6,
            uc_error::WRITE_UNMAPPED => 7,
            uc_error::FETCH_UNMAPPED => 8,
            uc_error::HOOK => 9,
            uc_error::INSN_INVALID => 10,
            uc_error::MAP => 11,
            uc_error::WRITE_PROT => 12,
            uc_error::READ_PROT => 13,
            uc_error::FETCH_PROT => 14,
            uc_error::ARG => 15,
            uc_error::READ_UNALIGNED => 16,
            uc_error::WRITE_UNALIGNED => 17,
            uc_error::FETCH_UNALIGNED => 18,
            uc_error::HOOK_EXIST => 19,
            uc_error::RESOURCE => 20,
            uc_error::EXCEPTION => 21,
        }
    }

    /// The outcome that the engine knows by `code`, if there is one.
    pub fn from_code(code: i32) -> (r: Option<uc_error>)
        ensures
            r matches Some(v) ==> v.code() == code,
            r is None ==> forall|v: uc_error| v.code() != code,
    {
        match code {
            0 => Some(uc_error::OK),
            1 => Some(uc_error::NOMEM),
            2 => Some(uc_error::ARCH),
            3 => Some(uc_error::HANDLE),
            4 => Some(uc_error::MODE),
            5 => Some(uc_error::VERSION),
            6 => Some(uc_error::READ_UNMAPPED),
            7 => Some(uc_error::WRITE_UNMAPPED),
            8 => Some(uc_error::FETCH_UNMAPPED),
            9 => Some(uc_error::HOOK),
            10 => Some(uc_error::INSN_INVALID),
            11 => Some(uc_error::MAP),
            12 => Some(uc_error::WRITE_PROT),
            13 => Some(uc_error::READ_PROT),
            14 => Some(uc_error::FETCH_PROT),
            15 => Some(uc_error::ARG),
            16 => Some(uc_error::READ_UNALIGNED),
            17 => Some(uc_error::WRITE_UNALIGNED),
            18 => Some(uc_error::FETCH_UNALIGNED),
            19 => Some(uc_error::HOOK_EXIST),
            20 => Some(uc_error::RESOURCE),
            21 => Some(uc_error::EXCEPTION),
            _ => None,
        }
    }

    /// No two values share a number.
    pub proof fn lemma_code_is_injective(a: uc_error, b: uc_error)
        requires
            a.code() == b.code(),
        ensures
            a == b,
    {
    }

    /// `Ok(())` for success, and the failure itself otherwise.
    pub fn ok(self) -> (r: Result<(), uc_error>)
        ensures
            r == self.and(()),
    {
        self.and(())
    }

    /// `value` where the call succeeded, and the failure otherwise.
    #[verifier::allow_in_spec]
    pub fn and<T>(self, value: T) -> Result<T, uc_error>
        returns
            (if self == uc_error::OK {
                Ok::<T, uc_error>(value)
            } else {
                Err::<T, uc_error>(self)
            }),
    {
        if self == uc_error::OK {
            Ok(value)
        } else {
            Err(self)
        }
    }
}

/// The kind of memory access that a memory hook is told of.
#[derive(Clone, Copy, Debug, PartialEq, Eq, Structural)]
pub enum MemType {
    /// Memory is read.
    READ,
    /// Memory is written.
    WRITE,
    /// An instruction is fetched.
    FETCH,
    /// Memory that is not mapped is read.
    READ_UNMAPPED,
    /// Memory that is not mapped is written.
    WRITE_UNMAPPED,
    /// An instruction is fetched from memory that is not mapped.
    FETCH_UNMAPPED,
    /// Memory that may not be written is written.
    WRITE_PROT,
    /// Memory that may not be read is read.
    READ_PROT,
    /// An instruction is fetched from memory that may not be executed.
    FETCH_PROT,
    /// A read has completed.
    READ_AFTER,
}

impl MemType {
    /// The number by which the engine knows this kind of access.
    #[verifier::allow_in_spec]
    pub fn code(self) -> i32
        returns
            (match self {
                MemType::READ => 16i32,
                MemType::WRITE => 17i32,
                MemType::FETCH => 18i32,
                MemType::READ_UNMAPPED => 19i32,
                MemType::WRITE_UNMAPPED => 20i32,
                MemType::FETCH_UNMAPPED => 21i32,
                MemType::WRITE_PROT => 22i32,
                MemType::READ_PROT => 23i32,
                MemType::FETCH_PROT => 24i32,
                MemType::READ_AFTER => 25i32,
            }),
    {
        match self {
            MemType::READ => 16,
            MemType::WRITE => 17,
            MemType::FETCH => 18,
            MemType::READ_UNMAPPED => 19,
            MemType::WRITE_UNMAPPED => 20,
            MemType::FETCH_UNMAPPED => 21,
            MemType::WRITE_PROT => 22,
            MemType::READ_PROT => 23,
            MemType::FETCH_PROT => 24,
            MemType::READ_AFTER => 25,
        }
    }

    /// The kind of access that the engine knows by `code`, if there is one.
    pub fn from_code(code: i32) -> (r: Option<MemType>)
        ensures
            r matches Some(v) ==> v.code() == code,
            r is None ==> forall|v: MemType| v.code() != code,
    {
        match code {
            16 => Some(MemType::READ),
            17 => Some(MemType::WRITE),
            18 => Some(MemType::FETCH),
            19 => Some(MemType::READ_UNMAPPED),
            20 => Some(MemType::WRITE_UNMAPPED),
            21 => Some(MemType::FETCH_UNMAPPED),
            22 => Some(MemType::WRITE_PROT),
            23 => Some(MemType::READ_PROT),
            24 => Some(MemType::FETCH_PROT),
            25 => Some(MemType::READ_AFTER),
            _ => None,
        }
    }

    /// No two values share a number.
    pub proof fn lemma_code_is_injective(a: MemType, b: MemType)
        requires
            a.code() == b.code(),
        ensures
            a == b,
    {
    }
}

/// The events a hook can ask for, as a set of flags.
#[derive(Clone, Copy, Debug, PartialEq, Eq, Structural)]
pub struct HookType {
    /// The flags, one bit each, as the engine reads them.
    pub bits: i32,
}

impl HookType {
    /// Interrupts and system calls.
    #[verifier::allow_in_spec]
    pub fn intr() -> HookType
        returns
            (HookType { bits: 1 }),
    {
        HookType { bits: 1 }
    }

    /// One chosen instruction.
    #[verifier::allow_in_spec]
    pub fn insn() -> HookType
        returns
            (HookType { bits: 2 }),
    {
        HookType { bits: 2 }
    }

    /// Every instruction in a range of addresses.
    #[verifier::allow_in_spec]
    pub fn code() -> HookType
        returns
            (HookType { bits: 4 }),
    {
        HookType { bits: 4 }
    }

    /// Every basic block.
    #[verifier::allow_in_spec]
    pub fn block() -> HookType
        returns
            (HookType { bits: 8 }),
    {
        HookType { bits: 8 }
    }

    /// A read of memory that is not mapped.
    #[verifier::allow_in_spec]
    pub fn mem_read_unmapped() -> HookType
        returns
            (HookType { bits: 0x10 }),
    {
        HookType { bits: 0x10 }
    }

    /// A write to memory that is not mapped.
    #[verifier::allow_in_spec]
    pub fn mem_write_unmapped() -> HookType
        returns
            (HookType { bits: 0x20 }),
    {
        HookType { bits: 0x20 }
    }

    /// A fetch from memory that is not mapped.
    #[verifier::allow_in_spec]
    pub fn mem_fetch_unmapped() -> HookType
        returns
            (HookType { bits: 0x40 }),
    {
        HookType { bits: 0x40 }
    }

    /// A read of memory that may not be read.
    #[verifier::allow_in_spec]
    pub fn mem_read_prot() -> HookType
        returns
            (HookType { bits: 0x80 }),
    {
        HookType { bits: 0x80 }
    }

    /// A write to memory that may not be written.
    #[verifier::allow_in_spec]
    pub fn mem_write_prot() -> HookType
        returns
            (HookType { bits: 0x100 }),
    {
        HookType { bits: 0x100 }
    }

    /// A fetch from memory that may not be executed.
    #[verifier::allow_in_spec]
    pub fn mem_fetch_prot() -> HookType
        returns
            (HookType { bits: 0x200 }),
    {
        HookType { bits: 0x200 }
    }

    /// A read of mapped memory.
    #[verifier::allow_in_spec]
    pub fn mem_read() -> HookType
        returns
            (HookType { bits: 0x400 }),
    {
        HookType { bits: 0x400 }
    }

    /// A write to mapped memory.
    #[verifier::allow_in_spec]
    pub fn mem_write() -> HookType
        returns
            (HookType { bits: 0x800 }),
    {
        HookType { bits: 0x800 }
    }

    /// A fetch from mapped memory.
    #[verifier::allow_in_spec]
    pub fn mem_fetch() -> HookType
        returns
            (HookType { bits: 0x1000 }),
    {
        HookType { bits: 0x1000 }
    }

    /// A read of mapped memory, seen once it has completed.
    #[verifier::allow_in_spec]
    pub fn mem_read_after() -> HookType
        returns
            (HookType { bits: 0x2000 }),
    {
        HookType { bits: 0x2000 }
    }

    /// An instruction that is not valid.
    #[verifier::allow_in_spec]
    pub fn insn_invalid() -> HookType
        returns
            (HookType { bits: 0x4000 }),
    {
        HookType { bits: 0x4000 }
    }

    /// Every access to memory that is not mapped.
    #[verifier::allow_in_spec]
    pub fn mem_unmapped() -> HookType
        returns
            (HookType { bits: 0x70 }),
    {
        HookType { bits: 0x70 }
    }

    /// Every access that the permissions of the memory forbid.
    #[verifier::allow_in_spec]
    pub fn mem_prot() -> HookType
        returns
            (HookType { bits: 0x380 }),
    {
        HookType { bits: 0x380 }
    }

    /// Every read that fails.
    #[verifier::allow_in_spec]
    pub fn mem_read_invalid() -> HookType
        returns
            (HookType { bits: 0x90 }),
    {
        HookType { bits: 0x90 }
    }

    /// Every write that fails.
    #[verifier::allow_in_spec]
    pub fn mem_write_invalid() -> HookType
        returns
            (HookType { bits: 0x120 }),
    {
        HookType { bits: 0x120 }
    }

    /// Every fetch that fails.
    #[verifier::allow_in_spec]
    pub fn mem_fetch_invalid() -> HookType
        returns
            (HookType { bits: 0x240 }),
    {
        HookType { bits: 0x240 }
    }

    /// Every access that fails.
    #[verifier::allow_in_spec]
    pub fn mem_invalid() -> HookType
        returns
            (HookType { bits: 0x3f0 }),
    {
        HookType { bits: 0x3f0 }
    }

    /// Every access that succeeds.
    #[verifier::allow_in_spec]
    pub fn mem_valid() -> HookType
        returns
            (HookType { bits: 0x1c00 }),
    {
        HookType { bits: 0x1c00 }
    }

    /// Every memory event, but for completed reads.
    #[verifier::allow_in_spec]
    pub fn mem_all() -> HookType
        returns
            (HookType { bits: 0x1ff0 }),
    {
        HookType { bits: 0x1ff0 }
    }

    /// The set with no flag in it.
    #[verifier::allow_in_spec]
    pub fn empty() -> HookType
        returns
            (HookType { bits: 0 }),
    {
        HookType { bits: 0 }
    }

    /// The flags as one integer.
    #[verifier::allow_in_spec]
    pub fn bits(self) -> i32
        returns
            self.bits,
    {
        self.bits
    }

    /// Whether no flag is set.
    #[verifier::allow_in_spec]
    pub fn is_empty(self) -> bool
        returns
            self.bits == 0,
    {
        self.bits == 0
    }

    /// Whether every flag of `other` is set in `self`.
    #[verifier::allow_in_spec]
    pub fn contains(self, other: HookType) -> bool
        returns
            self.bits & other.bits == other.bits,
    {
        self.bits & other.bits == other.bits
    }

    /// Whether `self` and `other` share at least one flag.
    #[verifier::allow_in_spec]
    pub fn intersects(self, other: HookType) -> bool
        returns
            self.bits & other.bits != 0,
    {
        self.bits & other.bits != 0
    }

    /// The flags of `self` together with those of `other`.
    #[verifier::allow_in_spec]
    pub fn union(self, other: HookType) -> HookType
        returns
            (HookType { bits: self.bits | other.bits }),
    {
        HookType { bits: self.bits | other.bits }
    }
}

impl BitOr for HookType {
    type Output = HookType;

    fn bitor(self, rhs: HookType) -> (r: HookType) {
        self.union(rhs)
    }
}

impl BitOrSpecImpl for HookType {
    open spec fn obeys_bitor_spec() -> bool {
        true
    }

    open spec fn bitor_req(self, rhs: HookType) -> bool {
        true
    }

    open spec fn bitor_spec(self, rhs: HookType) -> HookType {
        self.union(rhs)
    }
}

/// The named sets of memory events are the unions of their parts.
pub proof fn lemma_mem_hook_sets()
    ensures
        HookType::mem_unmapped() == HookType::mem_read_unmapped().union(
            HookType::mem_write_unmapped(),
        ).union(HookType::mem_fetch_unmapped()),
        HookType::mem_prot() == HookType::mem_read_prot().union(HookType::mem_write_prot()).union(
            HookType::mem_fetch_prot(),
        ),
        HookType::mem_read_invalid() == HookType::mem_read_prot().union(
            HookType::mem_read_unmapped(),
        ),
        HookType::mem_write_invalid() == HookType::mem_write_prot().union(
            HookType::mem_write_unmapped(),
        ),
        HookType::mem_fetch_invalid() == HookType::mem_fetch_prot().union(
            HookType::mem_fetch_unmapped(),
        ),
        HookType::mem_invalid() == HookType::mem_unmapped().union(HookType::mem_prot()),
        HookType::mem_valid() == HookType::mem_read().union(HookType::mem_write()).union(
            HookType::mem_fetch(),
        ),
        HookType::mem_all() == HookType::mem_valid().union(HookType::mem_invalid()),
{
    assert(0x10i32 | 0x20i32 | 0x40i32 == 0x70i32) by (bit_vector);
    assert(0x80i32 | 0x100i32 | 0x200i32 == 0x380i32) by (bit_vector);
    assert(0x80i32 | 0x10i32 == 0x90i32) by (bit_vector);
    assert(0x100i32 | 0x20i32 == 0x120i32) by (bit_vector);
    assert(0x200i32 | 0x40i32 == 0x240i32) by (bit_vector);
    assert(0x70i32 | 0x380i32 == 0x3f0i32) by (bit_vector);
    assert(0x400i32 | 0x800i32 | 0x1000i32 == 0x1c00i32) by (bit_vector);
    assert(0x1c00i32 | 0x3f0i32 == 0x1ff0i32) by (bit_vector);
}

/// What `query` can ask an instance.
#[derive(Clone, Copy, Debug, PartialEq, Eq, Structural)]
pub enum Query {
    /// The mode the instance runs in.
    MODE,
    /// The size of a page of the engine, in bytes.
    PAGE_SIZE,
    /// The architecture of the instance.
    ARCH,
}

impl Query {
    /// The number by which the engine knows this question.
    #[verifier::allow_in_spec]
    pub fn code(self) -> i32
        returns
            (match self {
                Query::MODE => 1i32,
                Query::PAGE_SIZE => 2i32,
                Query::ARCH => 3i32,
            }),
    {
        match self {
            Query::MODE => 1,
            Query::PAGE_SIZE => 2,
            Query::ARCH => 3,
        }
    }

    /// The question that the engine knows by `code`, if there is one.
    pub fn from_code(code: i32) -> (r: Option<Query>)
        ensures
            r matches Some(v) ==> v.code() == code,
            r is None ==> forall|v: Query| v.code() != code,
    {
        match code {
            1 => Some(Query::MODE),
            2 => Some(Query::PAGE_SIZE),
            3 => Some(Query::ARCH),
            _ => None,
        }
    }

    /// No two values share a number.
    pub proof fn lemma_code_is_injective(a: Query, b: Query)
        requires
            a.code() == b.code(),
        ensures
            a == b,
    {
    }
}

/// What may be done with a region of memory, as a set of flags.
#[derive(Clone, Copy, Debug, PartialEq, Eq, Structural)]
pub struct Permission {
    /// The flags, one bit each, as the engine reads them.
    pub bits: u32,
}

impl Permission {
    /// No access.
    #[verifier::allow_in_spec]
    pub fn none() -> Permission
        returns
            (Permission { bits: 0 }),
    {
        Permission { bits: 0 }
    }

    /// The memory may be read.
    #[verifier::allow_in_spec]
    pub fn read() -> Permission
        returns
            (Permission { bits: 1 }),
    {
        Permission { bits: 1 }
    }

    /// The memory may be written.
    #[verifier::allow_in_spec]
    pub fn write() -> Permission
        returns
            (Permission { bits: 2 }),
    {
        Permission { bits: 2 }
    }

    /// The memory may be executed.
    #[verifier::allow_in_spec]
    pub fn exec() -> Permission
        returns
            (Permission { bits: 4 }),
    {
        Permission { bits: 4 }
    }

    /// The memory may be read, written and executed.
    #[verifier::allow_in_spec]
    pub fn all() -> Permission
        returns
            (Permission { bits: 7 }),
    {
        Permission { bits: 7 }
    }

    /// The set with no flag in it.
    #[verifier::allow_in_spec]
    pub fn empty() -> Permission
        returns
            (Permission { bits: 0 }),
    {
        Permission { bits: 0 }
    }

    /// The flags as one integer.
    #[verifier::allow_in_spec]
    pub fn bits(self) -> u32
        returns
            self.bits,
    {
        self.bits
    }

    /// Whether no flag is set.
    #[verifier::allow_in_spec]
    pub fn is_empty(self) -> bool
        returns
            self.bits == 0,
    {
        self.bits == 0
    }

    /// Whether every flag of `other` is set in `self`.
    #[verifier::allow_in_spec]
    pub fn contains(self, other: Permission) -> bool
        returns
            self.bits & other.bits == other.bits,
    {
        self.bits & other.bits == other.bits
    }

    /// Whether `self` and `other` share at least one flag.
    #[verifier::allow_in_spec]
    pub fn intersects(self, other: Permission) -> bool
        returns
            self.bits & other.bits != 0,
    {
        self.bits & other.bits != 0
    }

    /// The flags of `self` together with those of `other`.
    #[verifier::allow_in_spec]
    pub fn union(self, other: Permission) -> Permission
        returns
            (Permission { bits: self.bits | other.bits }),
    {
        Permission { bits: self.bits | other.bits }
    }
}

impl BitOr for Permission {
    type Output = Permission;

    fn bitor(self, rhs: Permission) -> (r: Permission) {
        self.union(rhs)
    }
}

impl BitOrSpecImpl for Permission {
    open spec fn obeys_bitor_spec() -> bool {
        true
    }

    open spec fn bitor_req(self, rhs: Permission) -> bool {
        true
    }

    open spec fn bitor_spec(self, rhs: Permission) -> Permission {
        self.union(rhs)
    }
}

/// Every permission is the union of reading, writing and executing.
pub proof fn lemma_permission_all()
    ensures
        Permission::all() == Permission::read().union(Permission::write()).union(
            Permission::exec(),
        ),
        forall|p: Permission| Permission::all().contains(p) <==> p.bits & !7u32 == 0,
{
    assert(1u32 | 2u32 | 4u32 == 7u32) by (bit_vector);
    assert forall|p: Permission| Permission::all().contains(p) <==> p.bits & !7u32 == 0 by {
        let b = p.bits;
        assert((7u32 & b == b) <==> (b & !7u32 == 0)) by (bit_vector);
    }
}

/// One mapped region of memory, as the engine lists it.
#[derive(Clone, Copy, Debug, PartialEq, Eq, Structural)]
pub struct MemRegion {
    /// The first address of the region.
    pub begin: u64,
    /// The last address of the region.
    pub end: u64,
    /// What may be done with the region.
    pub perms: Permission,
}

/// The processor families the engine emulates.
#[derive(Clone, Copy, Debug, PartialEq, Eq, Structural)]
pub enum Arch {
    /// ARM, 32 bit, Thumb included.
    ARM,
    /// ARM, 64 bit.
    ARM64,
    /// MIPS.
    MIPS,
    /// x86 and x86-64.
    X86,
    /// PowerPC.
    PPC,
    /// SPARC.
    SPARC,
    /// Motorola 68000.
    M68K,
    /// RISC-V.
    RISCV,
    /// No architecture: one past the last. It marks a value as not set.
    MAX,
}

impl Arch {
    /// The number by which the engine knows this architecture.
    #[verifier::allow_in_spec]
    pub fn code(self) -> i32
        returns
            (match self {
                Arch::ARM => 1i32,
                Arch::ARM64 => 2i32,
                Arch::MIPS => 3i32,
                Arch::X86 => 4i32,
                Arch::PPC => 5i32,
                Arch::SPARC => 6i32,
                Arch::M68K => 7i32,
                Arch::RISCV => 8i32,
                Arch::MAX => 9i32,
            }),
    {
        match self {
            Arch::ARM => 1,
            Arch::ARM64 => 2,
            Arch::MIPS => 3,
            Arch::X86 => 4,
            Arch::PPC => 5,
            Arch::SPARC => 6,
            Arch::M68K => 7,
            Arch::RISCV => 8,
            Arch::MAX => 9,
        }
    }

    /// The architecture that the engine knows by `code`, if there is one.
    pub fn from_code(code: i32) -> (r: Option<Arch>)
        ensures
            r matches Some(v) ==> v.code() == code,
            r is None ==> forall|v: Arch| v.code() != code,
    {
        match code {
            1 => Some(Arch::ARM),
            2 => Some(Arch::ARM64),
            3 => Some(Arch::MIPS),
            4 => Some(Arch::X86),
            5 => Some(Arch::PPC),
            6 => Some(Arch::SPARC),
            7 => Some(Arch::M68K),
            8 => Some(Arch::RISCV),
            9 => Some(Arch::MAX),
            _ => None,
        }
    }

    /// No two values share a number.
    pub proof fn lemma_code_is_injective(a: Arch, b: Arch)
        requires
            a.code() == b.code(),
        ensures
            a == b,
    {
    }
}

/// How an instance runs: byte order, and what the architecture adds to it.
/// Flags of one architecture share their bits with those of another.
#[derive(Clone, Copy, Debug, PartialEq, Eq, Structural)]
pub struct Mode {
    /// The flags, one bit each, as the engine reads them.
    pub bits: i32,
}

impl Mode {
    /// Little-endian, the default.
    #[verifier::allow_in_spec]
    pub fn little_endian() -> Mode
        returns
            (Mode { bits: 0 }),
    {
        Mode { bits: 0 }
    }

    /// Big-endian.
    #[verifier::allow_in_spec]
    pub fn big_endian() -> Mode
        returns
            (Mode { bits: 0x4000_0000 }),
    {
        Mode { bits: 0x4000_0000 }
    }

    /// ARM: the ARM instruction set.
    #[verifier::allow_in_spec]
    pub fn arm() -> Mode
        returns
            (Mode { bits: 0 }),
    {
        Mode { bits: 0 }
    }

    /// ARM: the Thumb instruction set, Thumb-2 included.
    #[verifier::allow_in_spec]
    pub fn thumb() -> Mode
        returns
            (Mode { bits: 0x10 }),
    {
        Mode { bits: 0x10 }
    }

    /// ARM: the Cortex-M series.
    #[verifier::allow_in_spec]
    pub fn mclass() -> Mode
        returns
            (Mode { bits: 0x20 }),
    {
        Mode { bits: 0x20 }
    }

    /// ARM: ARMv8 A32 encodings.
    #[verifier::allow_in_spec]
    pub fn v8() -> Mode
        returns
            (Mode { bits: 0x40 }),
    {
        Mode { bits: 0x40 }
    }

    /// ARM: the ARM926 processor.
    #[verifier::allow_in_spec]
    pub fn arm926() -> Mode
        returns
            (Mode { bits: 0x80 }),
    {
        Mode { bits: 0x80 }
    }

    /// ARM: the ARM946 processor.
    #[verifier::allow_in_spec]
    pub fn arm946() -> Mode
        returns
            (Mode { bits: 0x100 }),
    {
        Mode { bits: 0x100 }
    }

    /// ARM: the ARM1176 processor.
    #[verifier::allow_in_spec]
    pub fn arm1176() -> Mode
        returns
            (Mode { bits: 0x200 }),
    {
        Mode { bits: 0x200 }
    }

    /// MIPS: microMIPS.
    #[verifier::allow_in_spec]
    pub fn micro() -> Mode
        returns
            (Mode { bits: 0x10 }),
    {
        Mode { bits: 0x10 }
    }

    /// MIPS: MIPS III.
    #[verifier::allow_in_spec]
    pub fn mips3() -> Mode
        returns
            (Mode { bits: 0x20 }),
    {
        Mode { bits: 0x20 }
    }

    /// MIPS: MIPS32 release 6.
    #[verifier::allow_in_spec]
    pub fn mips32r6() -> Mode
        returns
            (Mode { bits: 0x40 }),
    {
        Mode { bits: 0x40 }
    }

    /// MIPS: MIPS32.
    #[verifier::allow_in_spec]
    pub fn mips32() -> Mode
        returns
            (Mode { bits: 4 }),
    {
        Mode { bits: 4 }
    }

    /// MIPS: MIPS64.
    #[verifier::allow_in_spec]
    pub fn mips64() -> Mode
        returns
            (Mode { bits: 8 }),
    {
        Mode { bits: 8 }
    }

    /// x86: 16 bit.
    #[verifier::allow_in_spec]
    pub fn mode_16() -> Mode
        returns
            (Mode { bits: 2 }),
    {
        Mode { bits: 2 }
    }

    /// x86: 32 bit.
    #[verifier::allow_in_spec]
    pub fn mode_32() -> Mode
        returns
            (Mode { bits: 4 }),
    {
        Mode { bits: 4 }
    }

    /// x86: 64 bit.
    #[verifier::allow_in_spec]
    pub fn mode_64() -> Mode
        returns
            (Mode { bits: 8 }),
    {
        Mode { bits: 8 }
    }

    /// PowerPC: 32 bit.
    #[verifier::allow_in_spec]
    pub fn ppc32() -> Mode
        returns
            (Mode { bits: 4 }),
    {
        Mode { bits: 4 }
    }

    /// PowerPC: 64 bit.
    #[verifier::allow_in_spec]
    pub fn ppc64() -> Mode
        returns
            (Mode { bits: 8 }),
    {
        Mode { bits: 8 }
    }

    /// PowerPC: Quad Processing eXtensions.
    #[verifier::allow_in_spec]
    pub fn qpx() -> Mode
        returns
            (Mode { bits: 0x10 }),
    {
        Mode { bits: 0x10 }
    }

    /// SPARC: 32 bit.
    #[verifier::allow_in_spec]
    pub fn sparc32() -> Mode
        returns
            (Mode { bits: 4 }),
    {
        Mode { bits: 4 }
    }

    /// SPARC: 64 bit.
    #[verifier::allow_in_spec]
    pub fn sparc64() -> Mode
        returns
            (Mode { bits: 8 }),
    {
        Mode { bits: 8 }
    }

    /// SPARC: SPARC V9.
    #[verifier::allow_in_spec]
    pub fn v9() -> Mode
        returns
            (Mode { bits: 0x10 }),
    {
        Mode { bits: 0x10 }
    }

    /// RISC-V: 32 bit.
    #[verifier::allow_in_spec]
    pub fn riscv32() -> Mode
        returns
            (Mode { bits: 4 }),
    {
        Mode { bits: 4 }
    }

    /// RISC-V: 64 bit.
    #[verifier::allow_in_spec]
    pub fn riscv64() -> Mode
        returns
            (Mode { bits: 8 }),
    {
        Mode { bits: 8 }
    }

    /// The set with no flag in it.
    #[verifier::allow_in_spec]
    pub fn empty() -> Mode
        returns
            (Mode { bits: 0 }),
    {
        Mode { bits: 0 }
    }

    /// The flags as one integer.
    #[verifier::allow_in_spec]
    pub fn bits(self) -> i32
        returns
            self.bits,
    {
        self.bits
    }

    /// Whether no flag is set.
    #[verifier::allow_in_spec]
    pub fn is_empty(self) -> bool
        returns
            self.bits == 0,
    {
        self.bits == 0
    }

    /// Whether every flag of `other` is set in `self`.
    #[verifier::allow_in_spec]
    pub fn contains(self, other: Mode) -> bool
        returns
            self.bits & other.bits == other.bits,
    {
        self.bits & other.bits == other.bits
    }

    /// Whether `self` and `other` share at least one flag.
    #[verifier::allow_in_spec]
    pub fn intersects(self, other: Mode) -> bool
        returns
            self.bits & other.bits != 0,
    {
        self.bits & other.bits != 0
    }

    /// The flags of `self` together with those of `other`.
    #[verifier::allow_in_spec]
    pub fn union(self, other: Mode) -> Mode
        returns
            (Mode { bits: self.bits | other.bits }),
    {
        Mode { bits: self.bits | other.bits }
    }
}

impl BitOr for Mode {
    type Output = Mode;

    fn bitor(self, rhs: Mode) -> (r: Mode) {
        self.union(rhs)
    }
}

impl BitOrSpecImpl for Mode {
    open spec fn obeys_bitor_spec() -> bool {
        true
    }

    open spec fn bitor_req(self, rhs: Mode) -> bool {
        true
    }

    open spec fn bitor_spec(self, rhs: Mode) -> Mode {
        self.union(rhs)
    }
}

} // verus!
