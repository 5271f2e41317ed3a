//! The handle on an engine instance.
//!
//! The handle keeps what the binding knows of an instance: its architecture,
//! the hooks registered on it with their callbacks, the regions that MMIO
//! callbacks answer for, and the caller's data. It decides what is asked of
//! the engine and what follows from the engine's answer. It does not talk to
//! the engine: a function that needs the engine returns the [`Call`] to make,
//! and another one takes the answer.

use crate::arrayvec::register_bytes;
use crate::consts::{uc_error, Arch, HookType, Mode, Permission, Query};
use crate::context::Context;
use crate::engine::{uc_context, uc_handle, uc_hook, Call};
use crate::mmio::{MmioCallbackScope, Scope};
use crate::registers::{
    pc_register, pc_register_of, wide_register_buffer, wide_register_size,
    wide_register_size_of, zeros,
};
use crate::x86::{Insn, InsnSys};
use tinyvec::ArrayVec;
use vstd::prelude::*;

verus! {

/// Whether `address` and `size` are both multiples of 4096, the size of a
/// page: what every mapping has to be.
pub open spec fn page_aligned(address: u64, size: usize) -> bool {
    address % 4096 == 0 && size % 4096 == 0
}

/// Whether `address` and `size` are both multiples of the size of a page.
pub fn is_page_aligned(address: u64, size: usize) -> (aligned: bool)
    ensures
        aligned == page_aligned(address, size),
{
    address % 4096 == 0 && size % 4096 == 0
}

/// What a mapping operation asks of the engine: `call` where `address` and
/// `size` are multiples of the page size, and nothing but the error `ARG`
/// where they are not.
pub open spec fn if_aligned(address: u64, size: usize, call: Call) -> Result<Call, uc_error> {
    if page_aligned(address, size) {
        Ok(call)
    } else {
        Err(uc_error::ARG)
    }
}

/// Whether a hook of type `hook_type` is a memory hook: it asks for at least
/// one memory event, completed reads among them.
pub open spec fn is_mem_hook_type(hook_type: HookType) -> bool {
    hook_type.intersects(HookType::mem_all().union(HookType::mem_read_after()))
}

/// The entries of a list of hooks that are not the hook `hook`.
pub open spec fn is_not<C>(hook: uc_hook) -> spec_fn((uc_hook, C)) -> bool {
    |entry: (uc_hook, C)| entry.0 != hook
}

/// What unmapping the addresses from `begin` up to `end` does to a scope.
pub open spec fn unmap_of<C>(begin: u64, end: u64) -> spec_fn(Scope<C>) -> Scope<C> {
    |scope: Scope<C>| scope.unmap(begin, end)
}

/// Whether a scope covers anything.
pub open spec fn covers<C>() -> spec_fn(Scope<C>) -> bool {
    |scope: Scope<C>| scope.regions.len() > 0
}

/// The scopes once the addresses from `begin` up to `end` are unmapped: each
/// scope loses the range, and a scope that covers nothing any more is gone.
pub open spec fn scopes_after_unmap<C>(scopes: Seq<Scope<C>>, begin: u64, end: u64) -> Seq<
    Scope<C>,
> {
    scopes.map_values(unmap_of(begin, end)).filter(covers())
}

/// A list of scopes as plain values.
pub open spec fn scope_views<C>(scopes: Seq<MmioCallbackScope<C>>) -> Seq<Scope<C>> {
    scopes.map_values(|scope: MmioCallbackScope<C>| scope@)
}

/// What the handle knows of an instance, as plain values.
pub struct State<C, D> {
    /// The engine's name for the instance, zero once it is closed.
    pub uc: uc_handle,
    /// The architecture the instance emulates.
    pub arch: Arch,
    /// The registered hooks, oldest first, each with its callback.
    pub hooks: Seq<(uc_hook, C)>,
    /// The MMIO scopes, oldest first.
    pub scopes: Seq<Scope<C>>,
    /// The caller's data.
    pub data: D,
}

impl<C, D> State<C, D> {
    /// Every scope covers something, and every region ends at an address that
    /// a `u64` can hold.
    pub open spec fn wf(self) -> bool {
        forall|i: int| 0 <= i < self.scopes.len() ==> (#[trigger] self.scopes[i]).wf()
    }
}

/// The record behind a handle.
pub struct UnicornInner<C, D> {
    /// The engine's name for the instance, zero once it is closed.
    pub uc: uc_handle,
    /// The architecture the instance emulates.
    pub arch: Arch,
    /// The registered hooks with their callbacks: a callback lives as long as
    /// the engine may call it.
    pub hooks: Vec<(uc_hook, C)>,
    /// The MMIO scopes with their callbacks.
    pub mmio_callbacks: Vec<MmioCallbackScope<C>>,
    /// The caller's data.
    pub data: D,
}

impl<C, D> View for UnicornInner<C, D> {
    type V = State<C, D>;

    open spec fn view(&self) -> State<C, D> {
        State {
            uc: self.uc,
            arch: self.arch,
            hooks: self.hooks@,
            scopes: scope_views(self.mmio_callbacks@),
            data: self.data,
        }
    }
}

impl<C, D> UnicornInner<C, D> {
    /// Gives the instance up: the call that closes it, where there is one to
    /// close. Afterwards there is none, so giving up twice closes once.
    pub fn release(&mut self) -> (call: Option<Call>)
        ensures
            final(self)@ == (State { uc: 0, ..old(self)@ }),
            old(self).uc != 0 ==> call == Some(Call::Close { uc: old(self).uc }),
            old(self).uc == 0 ==> call.is_none(),
    {
        let call = if self.uc != 0 {
            Some(Call::Close { uc: self.uc })
        } else {
            None
        };
        self.uc = 0;
        call
    }
}

/// A handle on an engine instance.
pub struct Unicorn<C, D> {
    /// The record of the instance.
    pub inner: UnicornInner<C, D>,
}

impl<C, D> View for Unicorn<C, D> {
    type V = State<C, D>;

    open spec fn view(&self) -> State<C, D> {
        self.inner@
    }
}

impl<C> Unicorn<C, ()> {
    /// The handle on the instance `uc`, which the engine opened for `arch` and
    /// `mode` with the outcome `status`. Where the engine failed there is no
    /// instance and no handle.
    pub fn new(arch: Arch, mode: Mode, status: uc_error, uc: uc_handle) -> (r: Result<
        Unicorn<C, ()>,
        uc_error,
    >)
        ensures
            (match r {
                Ok(h) => status == uc_error::OK && h@.wf() && h@ == (State::<C, ()> {
                    uc,
                    arch,
                    hooks: Seq::empty(),
                    scopes: Seq::empty(),
                    data: (),
                }),
                Err(e) => status != uc_error::OK && e == status,
            }),
    {
        Self::new_with_data(arch, mode, (), status, uc)
    }
}

impl<C, D> Unicorn<C, D> {
    /// The call that opens an instance for `arch` and `mode`.
    pub fn open(arch: Arch, mode: Mode) -> (call: Call)
        ensures
            call == (Call::Open { arch, mode }),
    {
        Call::Open { arch, mode }
    }

    /// The handle on the instance `uc`, which the engine opened for `arch` and
    /// `mode` with the outcome `status`, with `data` attached to it. Where the
    /// engine failed there is no instance and no handle.
    pub fn new_with_data(arch: Arch, mode: Mode, data: D, status: uc_error, uc: uc_handle) -> (r:
        Result<Unicorn<C, D>, uc_error>)
        ensures
            (match r {
                Ok(h) => status == uc_error::OK && h@.wf() && h@ == (State::<C, D> {
                    uc,
                    arch,
                    hooks: Seq::empty(),
                    scopes: Seq::empty(),
                    data,
                }),
                Err(e) => status != uc_error::OK && e == status,
            }),
    {
        if status == uc_error::OK {
            let h = Unicorn {
                inner: UnicornInner {
                    uc,
                    arch,
                    hooks: Vec::new(),
                    mmio_callbacks: Vec::new(),
                    data,
                },
            };
            assert(h@.scopes =~= Seq::empty());
            Ok(h)
        } else {
            Err(status)
        }
    }

    /// The record behind the handle.
    pub fn inner(&self) -> (inner: &UnicornInner<C, D>)
        ensures
            *inner == self.inner,
    {
        &self.inner
    }

    /// The record behind the handle, to change it.
    pub fn inner_mut(&mut self) -> (inner: &mut UnicornInner<C, D>)
        ensures
            *inner == old(self).inner,
            final(self).inner == *final(inner),
    {
        &mut self.inner
    }

    /// The data that was attached when the handle was made.
    #[must_use]
    pub fn get_data(&self) -> (data: &D)
        ensures
            *data == self@.data,
    {
        &self.inner.data
    }

    /// The data that was attached when the handle was made, to change it.
    /// Nothing else of the handle changes.
    #[must_use]
    pub fn get_data_mut(&mut self) -> (data: &mut D)
        ensures
            *data == old(self)@.data,
            final(self)@ == (State { data: *final(data), ..old(self)@ }),
    {
        &mut self.inner.data
    }

    /// The architecture of the instance.
    #[must_use]
    pub fn get_arch(&self) -> (arch: Arch)
        ensures
            arch == self@.arch,
    {
        self.inner.arch
    }

    /// The call that lists the mapped regions of the instance.
    pub fn mem_regions(&self) -> (call: Call)
        ensures
            call == Call::MemRegions,
    {
        Call::MemRegions
    }

    /// The call that reads `size` bytes at `address`.
    pub fn mem_read(&self, address: u64, size: usize) -> (call: Call)
        ensures
            call == (Call::MemRead { address, size }),
    {
        Call::MemRead { address, size }
    }

    /// The call that reads `size` bytes at `address`, and the buffer of `size`
    /// zero bytes that it reads into.
    pub fn mem_read_as_vec(&self, address: u64, size: usize) -> (r: (Call, Vec<u8>))
        ensures
            r.0 == (Call::MemRead { address, size }),
            r.1@ == zeros(size),
    {
        let buf = vec![0u8; size];
        assert(buf@ =~= zeros(size));
        (Call::MemRead { address, size }, buf)
    }

    /// The call that writes `bytes` at `address`.
    pub fn mem_write(&self, address: u64, bytes: &[u8]) -> (call: Call)
        ensures
            call == (Call::MemWrite { address, size: bytes@.len() as usize }),
    {
        Call::MemWrite { address, size: bytes.len() }
    }

    /// The call that maps the `size` bytes behind `ptr` at `address`, or
    /// `ARG` where `address` or `size` is not a multiple of the page size.
    /// That `ptr` points to `size` bytes is the caller's to see to.
    pub fn mem_map_ptr(&self, address: u64, size: usize, perms: Permission, ptr: usize) -> (r:
        Result<Call, uc_error>)
        ensures
            r == if_aligned(address, size, Call::MemMapPtr { address, size, perms, ptr }),
    {
        if is_page_aligned(address, size) {
            Ok(Call::MemMapPtr { address, size, perms, ptr })
        } else {
            Err(uc_error::ARG)
        }
    }

    /// The call that maps `size` bytes of memory at `address`, or `ARG` where
    /// `address` or `size` is not a multiple of the page size.
    pub fn mem_map(&self, address: u64, size: usize, perms: Permission) -> (r: Result<
        Call,
        uc_error,
    >)
        ensures
            r == if_aligned(address, size, Call::MemMap { address, size, perms }),
    {
        if is_page_aligned(address, size) {
            Ok(Call::MemMap { address, size, perms })
        } else {
            Err(uc_error::ARG)
        }
    }

    /// The call that maps `size` bytes at `address` for callbacks to answer,
    /// or `ARG` where `address` or `size` is not a multiple of the page size.
    /// `read` and `write` say which callbacks there are.
    pub fn mmio_map(&self, address: u64, size: usize, read: bool, write: bool) -> (r: Result<
        Call,
        uc_error,
    >)
        ensures
            r == if_aligned(address, size, Call::MmioMap { address, size, read, write }),
    {
        if is_page_aligned(address, size) {
            Ok(Call::MmioMap { address, size, read, write })
        } else {
            Err(uc_error::ARG)
        }
    }

    /// As `mmio_map`, for a region that can only be read.
    pub fn mmio_map_ro(&self, address: u64, size: usize) -> (r: Result<Call, uc_error>)
        ensures
            r == if_aligned(address, size, Call::MmioMap { address, size, read: true, write: false }),
    {
        self.mmio_map(address, size, true, false)
    }

    /// As `mmio_map`, for a region that can only be written.
    pub fn mmio_map_wo(&self, address: u64, size: usize) -> (r: Result<Call, uc_error>)
        ensures
            r == if_aligned(address, size, Call::MmioMap { address, size, read: false, write: true }),
    {
        self.mmio_map(address, size, false, true)
    }

    /// Concludes `mmio_map`: `status` is the engine's answer. Where the engine
    /// mapped the region, a new scope holds the one region and the callbacks;
    /// where it did not, nothing changes and the callbacks are dropped.
    pub fn mmio_mapped(
        &mut self,
        address: u64,
        size: usize,
        read_callback: Option<C>,
        write_callback: Option<C>,
        status: uc_error,
    ) -> (r: Result<(), uc_error>)
        ensures
            r == status.and(()),
            final(self)@ == (if status == uc_error::OK {
                State {
                    scopes: old(self)@.scopes.push(
                        Scope { regions: seq![(address, size)], read_callback, write_callback },
                    ),
                    ..old(self)@
                }
            } else {
                old(self)@
            }),
            old(self)@.wf() && address + size <= u64::MAX ==> final(self)@.wf(),
    {
        if status == uc_error::OK {
            let mut regions: Vec<(u64, usize)> = Vec::new();
            regions.push((address, size));
            let scope = MmioCallbackScope { regions, read_callback, write_callback };
            assert(scope@.regions =~= seq![(address, size)]);
            assert(scope_views(self.inner.mmio_callbacks@.push(scope)) =~= self@.scopes.push(
                scope@,
            ));
            self.inner.mmio_callbacks.push(scope);
            Ok(())
        } else {
            Err(status)
        }
    }

    /// The call that unmaps `size` bytes at `address`, or `ARG` where
    /// `address` or `size` is not a multiple of the page size.
    pub fn mem_unmap(&self, address: u64, size: usize) -> (r: Result<Call, uc_error>)
        ensures
            r == if_aligned(address, size, Call::MemUnmap { address, size }),
    {
        if is_page_aligned(address, size) {
            Ok(Call::MemUnmap { address, size })
        } else {
            Err(uc_error::ARG)
        }
    }

    /// Concludes `mem_unmap`: `status` is the engine's answer. Whatever the
    /// engine answered, the MMIO scopes lose the range.
    pub fn mem_unmapped(&mut self, address: u64, size: usize, status: uc_error) -> (r: Result<
        (),
        uc_error,
    >)
        requires
            old(self)@.wf(),
            address + size <= u64::MAX,
        ensures
            r == status.and(()),
            final(self)@ == (State {
                scopes: scopes_after_unmap(old(self)@.scopes, address, (address + size) as u64),
                ..old(self)@
            }),
            final(self)@.wf(),
    {
        self.mmio_unmap(address, size);
        status.ok()
    }

    /// Whether the handle is as a handle has to be: see [`State::wf`].
    pub fn is_wf(&self) -> (r: bool)
        ensures
            r == self@.wf(),
    {
        let mut i: usize = 0;
        while i < self.inner.mmio_callbacks.len()
            invariant
                i <= self.inner.mmio_callbacks@.len(),
                forall|k: int| 0 <= k < i ==> (#[trigger] self@.scopes[k]).wf(),
            decreases self.inner.mmio_callbacks@.len() - i,
        {
            if !self.inner.mmio_callbacks[i].is_wf() {
                assert(!self@.scopes[i as int].wf());
                return false;
            }
            i += 1;
        }
        true
    }

    /// Concludes `mem_unmap` for a caller that cannot know whether the handle
    /// and the range are as `mem_unmapped` needs them: where they are, this
    /// is `mem_unmapped`; where they are not, nothing changes and there is no
    /// result.
    pub fn try_mem_unmapped(&mut self, address: u64, size: usize, status: uc_error) -> (r: Option<
        Result<(), uc_error>,
    >)
        ensures
            r == (if old(self)@.wf() && address + size <= u64::MAX {
                Some(status.and(()))
            } else {
                None::<Result<(), uc_error>>
            }),
            final(self)@ == (if old(self)@.wf() && address + size <= u64::MAX {
                State {
                    scopes: scopes_after_unmap(
                        old(self)@.scopes,
                        address,
                        (address + size) as u64,
                    ),
                    ..old(self)@
                }
            } else {
                old(self)@
            }),
    {
        if size as u64 <= u64::MAX - address && self.is_wf() {
            Some(self.mem_unmapped(address, size, status))
        } else {
            None
        }
    }

    /// Takes the `size` bytes at `address` away from every MMIO scope, and
    /// drops the scopes, callbacks and all, that cover nothing any more.
    pub fn mmio_unmap(&mut self, address: u64, size: usize)
        requires
            old(self)@.wf(),
            address + size <= u64::MAX,
        ensures
            final(self)@ == (State {
                scopes: scopes_after_unmap(old(self)@.scopes, address, (address + size) as u64),
                ..old(self)@
            }),
            final(self)@.wf(),
    {
        let ghost end = (address + size) as u64;
        let ghost before = self@.scopes;
        let mut scopes: Vec<MmioCallbackScope<C>> = Vec::new();
        core::mem::swap(&mut scopes, &mut self.inner.mmio_callbacks);
        let mut kept: Vec<MmioCallbackScope<C>> = Vec::new();
        proof {
            reveal(Seq::filter);
            assert(scope_views(kept@) =~= scopes_after_unmap(before.take(0), address, end));
        }
        for scope in it: scopes.into_iter()
            invariant
                end == address + size <= u64::MAX,
                before == scope_views(it.seq()),
                forall|i: int| 0 <= i < before.len() ==> (#[trigger] before[i]).wf(),
                scope_views(kept@) == scopes_after_unmap(
                    before.take(it.index() as int),
                    address,
                    end,
                ),
                forall|i: int| 0 <= i < kept@.len() ==> (#[trigger] kept@[i])@.wf(),
        {
            let ghost k = it.index() as int;
            let ghost done = before.take(k).map_values(unmap_of(address, end));
            let mut scope = scope;
            assert(before[k].wf());
            scope.unmap(address, size);
            proof {
                assert(before.take(k + 1).map_values(unmap_of(address, end)) =~= done.push(scope@));
                done.lemma_filter_push(scope@, covers());
            }
            if scope.has_regions() {
                assert(scope_views(kept@.push(scope)) =~= scope_views(kept@).push(scope@));
                kept.push(scope);
            }
        }
        proof {
            assert(before.take(before.len() as int) =~= before);
        }
        self.inner.mmio_callbacks = kept;
    }

    /// The call that sets the permissions of the `size` bytes at `address`,
    /// or `ARG` where `address` or `size` is not a multiple of the page size.
    pub fn mem_protect(&self, address: u64, size: usize, perms: Permission) -> (r: Result<
        Call,
        uc_error,
    >)
        ensures
            r == if_aligned(address, size, Call::MemProtect { address, size, perms }),
    {
        if is_page_aligned(address, size) {
            Ok(Call::MemProtect { address, size, perms })
        } else {
            Err(uc_error::ARG)
        }
    }

    /// The call that writes `value` to the register `regid`.
    pub fn reg_write(&self, regid: i32, value: u64) -> (call: Call)
        ensures
            call == (Call::RegWrite { regid, value }),
    {
        Call::RegWrite { regid, value }
    }

    /// The call that writes `value` to the register `regid`, for a register
    /// of more than 64 bits. That `value` has as many bytes as the register
    /// is the caller's to see to.
    pub fn reg_write_long(&self, regid: i32, value: &[u8]) -> (call: Call)
        ensures
            call == (Call::RegWriteLong { regid, size: value@.len() as usize }),
    {
        Call::RegWriteLong { regid, size: value.len() }
    }

    /// The call that reads the register `regid`, of at most 64 bits, as an
    /// unsigned value.
    pub fn reg_read(&self, regid: i32) -> (call: Call)
        ensures
            call == (Call::RegRead { regid, size: 8 }),
    {
        Call::RegRead { regid, size: 8 }
    }

    /// The call that reads the register `regid`, of more than 64 bits, and
    /// the buffer it reads into: as many zero bytes as the register has. The
    /// size is the handle's to know: see [`wide_register_size`]. A register
    /// that has none there is refused, with the error given there.
    pub fn reg_read_long(&self, regid: i32) -> (r: Result<(Call, ArrayVec<[u8; 64]>), uc_error>)
        ensures
            (match r {
                Ok((call, buffer)) => {
                    &&& wide_register_size(self@.arch, regid) is Ok
                    &&& call == (Call::RegRead {
                        regid,
                        size: wide_register_size(self@.arch, regid).unwrap(),
                    })
                    &&& register_bytes(buffer) == zeros(
                        wide_register_size(self@.arch, regid).unwrap(),
                    )
                },
                Err(e) => wide_register_size(self@.arch, regid) == Err::<usize, uc_error>(e),
            }),
    {
        match wide_register_size_of(self.get_arch(), regid) {
            Ok(size) => Ok((Call::RegRead { regid, size }, wide_register_buffer(size))),
            Err(e) => Err(e),
        }
    }

    /// The call that reads the register `regid` as a signed value of 32 bits.
    pub fn reg_read_i32(&self, regid: i32) -> (call: Call)
        ensures
            call == (Call::RegRead { regid, size: 4 }),
    {
        Call::RegRead { regid, size: 4 }
    }

    /// The call that registers a hook on every instruction from `begin` to
    /// `end`.
    pub fn add_code_hook(&self, begin: u64, end: u64) -> (call: Call)
        ensures
            call == (Call::HookAdd { hook_type: HookType::code(), begin, end, insn: None }),
    {
        Call::HookAdd { hook_type: HookType::code(), begin, end, insn: None }
    }

    /// The call that registers a hook on every basic block.
    pub fn add_block_hook(&self) -> (call: Call)
        ensures
            call == (Call::HookAdd { hook_type: HookType::block(), begin: 1, end: 0, insn: None }),
    {
        Call::HookAdd { hook_type: HookType::block(), begin: 1, end: 0, insn: None }
    }

    /// The call that registers a hook on the memory events of `hook_type`
    /// from `begin` to `end`, or `ARG` where `hook_type` asks for no memory
    /// event at all.
    pub fn add_mem_hook(&self, hook_type: HookType, begin: u64, end: u64) -> (r: Result<
        Call,
        uc_error,
    >)
        ensures
            r == (if is_mem_hook_type(hook_type) {
                Ok::<Call, uc_error>(Call::HookAdd { hook_type, begin, end, insn: None })
            } else {
                Err::<Call, uc_error>(uc_error::ARG)
            }),
    {
        if hook_type.intersects(HookType::mem_all().union(HookType::mem_read_after())) {
            Ok(Call::HookAdd { hook_type, begin, end, insn: None })
        } else {
            Err(uc_error::ARG)
        }
    }

    /// The call that registers a hook on interrupts.
    pub fn add_intr_hook(&self) -> (call: Call)
        ensures
            call == (Call::HookAdd { hook_type: HookType::intr(), begin: 0, end: 0, insn: None }),
    {
        Call::HookAdd { hook_type: HookType::intr(), begin: 0, end: 0, insn: None }
    }

    /// The call that registers a hook on the instruction `IN` of x86.
    pub fn add_insn_in_hook(&self) -> (call: Call)
        ensures
            call == (Call::HookAdd {
                hook_type: HookType::insn(),
                begin: 0,
                end: 0,
                insn: Some(Insn::IN),
            }),
    {
        Call::HookAdd { hook_type: HookType::insn(), begin: 0, end: 0, insn: Some(Insn::IN) }
    }

    /// The call that registers a hook on the instruction `OUT` of x86.
    pub fn add_insn_out_hook(&self) -> (call: Call)
        ensures
            call == (Call::HookAdd {
                hook_type: HookType::insn(),
                begin: 0,
                end: 0,
                insn: Some(Insn::OUT),
            }),
    {
        Call::HookAdd { hook_type: HookType::insn(), begin: 0, end: 0, insn: Some(Insn::OUT) }
    }

    /// The call that registers a hook on `SYSCALL` or `SYSENTER` of x86, from
    /// `begin` to `end`.
    pub fn add_insn_sys_hook(&self, insn_type: InsnSys, begin: u64, end: u64) -> (call: Call)
        ensures
            call == (Call::HookAdd {
                hook_type: HookType::insn(),
                begin,
                end,
                insn: Some(insn_type.insn()),
            }),
    {
        Call::HookAdd { hook_type: HookType::insn(), begin, end, insn: Some(insn_type.insn()) }
    }

    /// Concludes the registration of a hook: `status` is the engine's answer
    /// and `hook` the name it gave the hook. Where the engine registered the
    /// hook, the handle keeps `callback` under that name, after the hooks it
    /// has; where it did not, nothing changes and `callback` is dropped.
    pub fn hook_added(&mut self, hook: uc_hook, callback: C, status: uc_error) -> (r: Result<
        uc_hook,
        uc_error,
    >)
        ensures
            r == status.and(hook),
            final(self)@ == (if status == uc_error::OK {
                State { hooks: old(self)@.hooks.push((hook, callback)), ..old(self)@ }
            } else {
                old(self)@
            }),
    {
        if status == uc_error::OK {
            self.inner.hooks.push((hook, callback));
            Ok(hook)
        } else {
            Err(status)
        }
    }

    /// Forgets the hook `hook` and gives the call that removes it from the
    /// engine. The callback is dropped here, before the engine hears of it:
    /// the handle holds no callback under that name when the call is made.
    /// The other hooks stay, in their order.
    pub fn remove_hook(&mut self, hook: uc_hook) -> (call: Call)
        ensures
            call == (Call::HookDel { hook }),
            final(self)@ == (State {
                hooks: old(self)@.hooks.filter(is_not(hook)),
                ..old(self)@
            }),
    {
        let ghost before = self@.hooks;
        let mut hooks: Vec<(uc_hook, C)> = Vec::new();
        core::mem::swap(&mut hooks, &mut self.inner.hooks);
        let mut kept: Vec<(uc_hook, C)> = Vec::new();
        proof {
            reveal(Seq::filter);
            assert(before.take(0).filter(is_not(hook)) =~= Seq::empty());
        }
        for entry in it: hooks.into_iter()
            invariant
                before == it.seq(),
                kept@ == before.take(it.index() as int).filter(is_not(hook)),
        {
            proof {
                let k = it.index() as int;
                assert(before.take(k + 1) =~= before.take(k).push(before[k]));
                before.take(k).lemma_filter_push(before[k], is_not(hook));
            }
            if entry.0 != hook {
                kept.push(entry);
            }
        }
        proof {
            assert(before.take(before.len() as int) =~= before);
        }
        self.inner.hooks = kept;
        Call::HookDel { hook }
    }

    /// The call that allocates a context.
    pub fn context_alloc(&self) -> (call: Call)
        ensures
            call == Call::ContextAlloc,
    {
        Call::ContextAlloc
    }

    /// Concludes `context_alloc`: `status` is the engine's answer and
    /// `context` the name it gave the context.
    pub fn context_allocated(&self, context: uc_context, status: uc_error) -> (r: Result<
        Context,
        uc_error,
    >)
        ensures
            r == status.and(Context { context }),
    {
        status.and(Context { context })
    }

    /// The call that saves the state of the processor into `context`.
    pub fn context_save(&self, context: &Context) -> (call: Call)
        ensures
            call == (Call::ContextSave { context: context.context }),
    {
        Call::ContextSave { context: context.context }
    }

    /// The first call of allocating a context and saving into it: the one
    /// that allocates. `context_init_allocated` goes on from its answer.
    pub fn context_init(&self) -> (call: Call)
        ensures
            call == Call::ContextAlloc,
    {
        Call::ContextAlloc
    }

    /// The second step of `context_init`: `status` is the engine's answer to
    /// the allocation and `context` the name it gave the context. Where the
    /// engine allocated, the call that saves into the context is next, and
    /// `context_init_saved` goes on from its answer; where it did not, its
    /// failure is the end.
    pub fn context_init_allocated(&self, context: uc_context, status: uc_error) -> (r: Result<
        Call,
        uc_error,
    >)
        ensures
            r == status.and(Call::ContextSave { context }),
    {
        status.and(Call::ContextSave { context })
    }

    /// The last step of `context_init`: `status` is the engine's answer to
    /// saving into `context`. Where the engine saved, the context is the
    /// result and nothing is left to do; where it did not, its failure is the
    /// result and the call that frees the context is left to make.
    pub fn context_init_saved(&self, context: uc_context, status: uc_error) -> (r: (
        Result<Context, uc_error>,
        Option<Call>,
    ))
        ensures
            r.0 == status.and(Context { context }),
            r.1 == (if status == uc_error::OK {
                None::<Call>
            } else {
                Some(Call::ContextFree { context })
            }),
    {
        if status == uc_error::OK {
            (Ok(Context { context }), None)
        } else {
            (Err(status), Some(Call::ContextFree { context }))
        }
    }

    /// The call that sets the state of the processor from `context`. Memory
    /// is no part of a context and stays as it is.
    pub fn context_restore(&self, context: &Context) -> (call: Call)
        ensures
            call == (Call::ContextRestore { context: context.context }),
    {
        Call::ContextRestore { context: context.context }
    }

    /// The call that runs the emulation from `begin` until it reaches
    /// `until`, `timeout` microseconds have passed or `count` instructions
    /// have run, whichever comes first. A `timeout` or a `count` of zero is
    /// no limit.
    pub fn emu_start(&self, begin: u64, until: u64, timeout: u64, count: usize) -> (call: Call)
        ensures
            call == (Call::EmuStart { begin, until, timeout, count }),
    {
        Call::EmuStart { begin, until, timeout, count }
    }

    /// The call that stops the emulation. The engine stops once the block it
    /// runs has ended.
    pub fn emu_stop(&self) -> (call: Call)
        ensures
            call == Call::EmuStop,
    {
        Call::EmuStop
    }

    /// The call that asks the instance about itself.
    pub fn query(&self, query: Query) -> (call: Call)
        ensures
            call == (Call::Query { query }),
    {
        Call::Query { query }
    }

    /// The call that reads the program counter: `reg_read` of the register
    /// that holds it on the architecture of the instance.
    pub fn pc_read(&self) -> (call: Call)
        requires
            self@.arch != Arch::MAX,
        ensures
            call == (Call::RegRead { regid: pc_register(self@.arch).unwrap(), size: 8 }),
    {
        self.reg_read(pc_register_of(self.get_arch()))
    }

    /// The call that sets the program counter to `value`: `reg_write` of the
    /// register that holds it on the architecture of the instance.
    pub fn pc_write(&self, value: u64) -> (call: Call)
        requires
            self@.arch != Arch::MAX,
        ensures
            call == (Call::RegWrite { regid: pc_register(self@.arch).unwrap(), value }),
    {
        self.reg_write(pc_register_of(self.get_arch()), value)
    }
}

/// A hook type is that of a memory hook exactly where one of the bits of the
/// memory events, from reads of unmapped memory up to completed reads, is set.
pub proof fn lemma_mem_hook_type_by_bits(hook_type: HookType)
    ensures
        is_mem_hook_type(hook_type) <==> hook_type.bits & 0x3ff0 != 0,
{
    assert((0x1ff0i32 | 0x2000i32) == 0x3ff0i32) by (bit_vector);
}

/// A hook type that shares no flag with the memory events nor with completed
/// reads is not that of a memory hook: `add_mem_hook` refuses it.
pub proof fn lemma_disjoint_hook_type_is_refused(hook_type: HookType)
    requires
        !hook_type.intersects(HookType::mem_all()),
        !hook_type.intersects(HookType::mem_read_after()),
    ensures
        !is_mem_hook_type(hook_type),
{
    let b = hook_type.bits;
    assert(b & 0x1ff0i32 == 0 && b & 0x2000i32 == 0 ==> b & (0x1ff0i32 | 0x2000i32) == 0)
        by (bit_vector);
}

/// Once a hook is removed no entry of the list bears its name, and every
/// entry under another name is still there.
pub proof fn lemma_removed_hook_is_gone<C>(hooks: Seq<(uc_hook, C)>, hook: uc_hook)
    ensures
        forall|i: int|
            0 <= i < hooks.filter(is_not(hook)).len() ==> (#[trigger] hooks.filter(
                is_not(hook),
            )[i]).0 != hook,
        forall|i: int|
            0 <= i < hooks.len() && (#[trigger] hooks[i]).0 != hook ==> hooks.filter(
                is_not(hook),
            ).contains(hooks[i]),
{
    broadcast use vstd::seq_lib::group_filter_ensures;

    let left = hooks.filter(is_not::<C>(hook));
    assert forall|i: int| 0 <= i < left.len() implies (#[trigger] left[i]).0 != hook by {
        hooks.lemma_filter_pred(is_not::<C>(hook), i);
    }
    assert forall|i: int| 0 <= i < hooks.len() && (#[trigger] hooks[i]).0
        != hook implies left.contains(hooks[i]) by {
        hooks.lemma_filter_contains(is_not::<C>(hook), i);
    }
}

/// Removing a hook a second time changes nothing.
pub proof fn lemma_remove_hook_twice<C>(hooks: Seq<(uc_hook, C)>, hook: uc_hook)
    ensures
        hooks.filter(is_not(hook)).filter(is_not(hook)) == hooks.filter(is_not(hook)),
    decreases hooks.len(),
{
    reveal(Seq::filter);
    if hooks.len() > 0 {
        lemma_remove_hook_twice(hooks.drop_last(), hook);
        let rest = hooks.drop_last().filter(is_not::<C>(hook));
        if is_not::<C>(hook)(hooks.last()) {
            rest.lemma_filter_push(hooks.last(), is_not::<C>(hook));
        }
    }
}

/// Removing a hook that was never registered changes nothing.
pub proof fn lemma_remove_unknown_hook<C>(hooks: Seq<(uc_hook, C)>, hook: uc_hook)
    requires
        forall|i: int| 0 <= i < hooks.len() ==> (#[trigger] hooks[i]).0 != hook,
    ensures
        hooks.filter(is_not(hook)) == hooks,
    decreases hooks.len(),
{
    reveal(Seq::filter);
    if hooks.len() > 0 {
        lemma_remove_unknown_hook(hooks.drop_last(), hook);
        assert(hooks.drop_last().push(hooks.last()) =~= hooks);
    }
}

} // verus!
