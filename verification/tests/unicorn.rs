use unicornafl::consts::{uc_error, Arch, HookType, Mode, Permission, Query};
use unicornafl::context::Context;
use unicornafl::engine::Call;
use unicornafl::mmio::MmioCallbackScope;
use unicornafl::unicorn::{is_page_aligned, Unicorn, UnicornInner};
use unicornafl::x86::{Insn, InsnSys};
use unicornafl::{arm64, x86};

fn handle(arch: Arch) -> Unicorn<&'static str, u32> {
    Unicorn::new_with_data(arch, Mode::little_endian(), 7, uc_error::OK, 0x5000).unwrap()
}

fn hooks_of(h: &Unicorn<&'static str, u32>) -> Vec<(usize, &'static str)> {
    h.inner().hooks.clone()
}

fn regions_of(h: &Unicorn<&'static str, u32>) -> Vec<Vec<(u64, usize)>> {
    h.inner().mmio_callbacks.iter().map(|s| s.regions.clone()).collect()
}

#[test]
fn opening_asks_for_the_architecture_and_the_mode() {
    let call = Unicorn::<(), ()>::open(Arch::ARM, Mode::thumb());
    assert_eq!(call, Call::Open { arch: Arch::ARM, mode: Mode::thumb() });
}

#[test]
fn a_new_handle_holds_the_instance_and_nothing_else() {
    let h: Unicorn<(), ()> = Unicorn::new(Arch::X86, Mode::mode_64(), uc_error::OK, 0x1234).unwrap();
    assert_eq!(h.inner().uc, 0x1234);
    assert_eq!(h.get_arch(), Arch::X86);
    assert!(h.inner().hooks.is_empty());
    assert!(h.inner().mmio_callbacks.is_empty());
    let h = handle(Arch::MIPS);
    assert_eq!(h.inner().uc, 0x5000);
    assert_eq!(h.get_arch(), Arch::MIPS);
    assert_eq!(*h.get_data(), 7);
    assert!(h.inner().hooks.is_empty());
    assert!(h.inner().mmio_callbacks.is_empty());
}

#[test]
fn a_failed_opening_gives_the_failure_and_no_handle() {
    let r: Result<Unicorn<(), ()>, uc_error> = Unicorn::new(Arch::MAX, Mode::little_endian(), uc_error::ARCH, 0);
    assert!(matches!(r, Err(uc_error::ARCH)));
    let r: Result<Unicorn<(), u8>, uc_error> =
        Unicorn::new_with_data(Arch::X86, Mode::thumb(), 1, uc_error::MODE, 0);
    assert!(matches!(r, Err(uc_error::MODE)));
    let r: Result<Unicorn<(), u8>, uc_error> =
        Unicorn::new_with_data(Arch::X86, Mode::mode_32(), 1, uc_error::VERSION, 0x77);
    assert!(matches!(r, Err(uc_error::VERSION)));
}

#[test]
fn the_data_can_be_read_and_changed() {
    let mut h = handle(Arch::ARM);
    assert_eq!(*h.get_data(), 7);
    *h.get_data_mut() = 9;
    assert_eq!(*h.get_data(), 9);
    assert_eq!(h.get_arch(), Arch::ARM);
    assert_eq!(h.inner().uc, 0x5000);
    h.inner_mut().data = 11;
    assert_eq!(*h.get_data(), 11);
}

#[test]
fn page_alignment_is_a_multiple_of_4096() {
    assert!(is_page_aligned(0, 0));
    assert!(is_page_aligned(0x1000, 0x1000));
    assert!(is_page_aligned(0xffff_ffff_ffff_f000, 0x1000));
    assert!(!is_page_aligned(0x1001, 0x1000));
    assert!(!is_page_aligned(0x1000, 0x1001));
    assert!(!is_page_aligned(0xfff, 0xfff));
    assert!(!is_page_aligned(0x800, 0x1000));
}

#[test]
fn mapping_asks_the_engine_for_aligned_memory() {
    let h = handle(Arch::X86);
    assert_eq!(
        h.mem_map(0x1000, 0x4000, Permission::all()),
        Ok(Call::MemMap { address: 0x1000, size: 0x4000, perms: Permission::all() })
    );
    assert_eq!(
        h.mem_map_ptr(0x2000, 0x1000, Permission::read(), 0xdead_0000),
        Ok(Call::MemMapPtr { address: 0x2000, size: 0x1000, perms: Permission::read(), ptr: 0xdead_0000 })
    );
    assert_eq!(
        h.mem_protect(0x1000, 0x1000, Permission::none()),
        Ok(Call::MemProtect { address: 0x1000, size: 0x1000, perms: Permission::none() })
    );
    assert_eq!(h.mem_unmap(0x1000, 0x2000), Ok(Call::MemUnmap { address: 0x1000, size: 0x2000 }));
    assert_eq!(
        h.mmio_map(0x3000, 0x1000, true, true),
        Ok(Call::MmioMap { address: 0x3000, size: 0x1000, read: true, write: true })
    );
    assert_eq!(
        h.mmio_map_ro(0x3000, 0x1000),
        Ok(Call::MmioMap { address: 0x3000, size: 0x1000, read: true, write: false })
    );
    assert_eq!(
        h.mmio_map_wo(0x3000, 0x1000),
        Ok(Call::MmioMap { address: 0x3000, size: 0x1000, read: false, write: true })
    );
}

#[test]
fn mapping_refuses_what_is_not_aligned() {
    let h = handle(Arch::X86);
    for (address, size) in [(0x1001u64, 0x1000usize), (0x1000, 0x1001), (1, 1), (0x1000, 0xfff), (0xfff, 0x1000)] {
        assert_eq!(h.mem_map(address, size, Permission::all()), Err(uc_error::ARG));
        assert_eq!(h.mem_map_ptr(address, size, Permission::all(), 0x10), Err(uc_error::ARG));
        assert_eq!(h.mem_protect(address, size, Permission::all()), Err(uc_error::ARG));
        assert_eq!(h.mem_unmap(address, size), Err(uc_error::ARG));
        assert_eq!(h.mmio_map(address, size, true, true), Err(uc_error::ARG));
        assert_eq!(h.mmio_map_ro(address, size), Err(uc_error::ARG));
        assert_eq!(h.mmio_map_wo(address, size), Err(uc_error::ARG));
    }
    assert!(h.inner().mmio_callbacks.is_empty());
}

#[test]
fn reading_and_writing_memory_ask_for_the_bytes() {
    let h = handle(Arch::X86);
    assert_eq!(h.mem_regions(), Call::MemRegions);
    assert_eq!(h.mem_read(0x1000, 4), Call::MemRead { address: 0x1000, size: 4 });
    let (call, buffer) = h.mem_read_as_vec(0x2000, 5);
    assert_eq!(call, Call::MemRead { address: 0x2000, size: 5 });
    assert_eq!(buffer, vec![0u8; 5]);
    let (_, buffer) = h.mem_read_as_vec(0x2000, 0);
    assert_eq!(buffer, Vec::<u8>::new());
    assert_eq!(h.mem_write(0x1000, &[0x17, 0x00, 0x40, 0xe2]), Call::MemWrite { address: 0x1000, size: 4 });
    assert_eq!(h.mem_write(0x1000, &[]), Call::MemWrite { address: 0x1000, size: 0 });
}

#[test]
fn an_mmio_mapping_becomes_a_scope_of_one_region() {
    let mut h = handle(Arch::X86);
    assert_eq!(h.mmio_mapped(0x1000, 0x2000, Some("r"), None, uc_error::OK), Ok(()));
    assert_eq!(h.mmio_mapped(0x8000, 0x1000, None, Some("w"), uc_error::OK), Ok(()));
    assert_eq!(regions_of(&h), vec![vec![(0x1000, 0x2000)], vec![(0x8000, 0x1000)]]);
    assert_eq!(h.inner().mmio_callbacks[0].read_callback, Some("r"));
    assert_eq!(h.inner().mmio_callbacks[0].write_callback, None);
    assert_eq!(h.inner().mmio_callbacks[1].read_callback, None);
    assert_eq!(h.inner().mmio_callbacks[1].write_callback, Some("w"));
    assert!(h.inner().hooks.is_empty());
}

#[test]
fn an_mmio_mapping_that_the_engine_refused_leaves_no_scope() {
    let mut h = handle(Arch::X86);
    assert_eq!(h.mmio_mapped(0x1000, 0x2000, Some("r"), Some("w"), uc_error::MAP), Err(uc_error::MAP));
    assert_eq!(h.mmio_mapped(0x1000, 0x2000, Some("r"), Some("w"), uc_error::NOMEM), Err(uc_error::NOMEM));
    assert!(h.inner().mmio_callbacks.is_empty());
}

#[test]
fn unmapping_narrows_the_scopes_and_drops_the_empty_ones() {
    let mut h = handle(Arch::X86);
    h.mmio_mapped(0x1000, 0x2000, Some("a"), None, uc_error::OK).unwrap();
    h.mmio_mapped(0x4000, 0x1000, Some("b"), None, uc_error::OK).unwrap();
    h.mmio_mapped(0x9000, 0x1000, Some("c"), None, uc_error::OK).unwrap();
    assert_eq!(h.mem_unmapped(0x4000, 0x1000, uc_error::OK), Ok(()));
    // the first scope lies below the range and is lost, the second is
    // covered by it, the third lies above it and stays
    assert_eq!(regions_of(&h), vec![vec![(0x9000, 0x1000)]]);
    assert_eq!(h.inner().mmio_callbacks[0].read_callback, Some("c"));
}

#[test]
fn unmapping_part_of_a_scope_splits_it() {
    let mut h = handle(Arch::X86);
    h.mmio_mapped(0x1000, 0x2000, Some("a"), Some("b"), uc_error::OK).unwrap();
    h.mmio_unmap(0x1800, 0x800);
    assert_eq!(regions_of(&h), vec![vec![(0x1000, 0x800), (0x2001, 0xfff)]]);
    assert_eq!(h.inner().mmio_callbacks[0].read_callback, Some("a"));
    assert_eq!(h.inner().mmio_callbacks[0].write_callback, Some("b"));
    h.mmio_unmap(0, 0x1000);
    assert_eq!(regions_of(&h), vec![vec![(0x1000, 0x800), (0x2001, 0xfff)]]);
    h.mmio_unmap(0, 0x8000);
    assert!(h.inner().mmio_callbacks.is_empty());
}

#[test]
fn unmapping_narrows_the_scopes_whatever_the_engine_answered() {
    let mut h = handle(Arch::X86);
    h.mmio_mapped(0x1000, 0x2000, Some("a"), None, uc_error::OK).unwrap();
    assert_eq!(h.mem_unmapped(0x1000, 0x1000, uc_error::NOMEM), Err(uc_error::NOMEM));
    assert_eq!(regions_of(&h), vec![vec![(0x2000, 0x1000)]]);
    assert_eq!(*h.get_data(), 7);
}

#[test]
fn registers_are_read_and_written_by_number() {
    let h = handle(Arch::X86);
    assert_eq!(h.reg_write(x86::Register::RAX.into(), 123), Call::RegWrite { regid: 35, value: 123 });
    assert_eq!(h.reg_read(x86::Register::RAX.into()), Call::RegRead { regid: 35, size: 8 });
    assert_eq!(h.reg_read_i32(x86::Register::EFLAGS.into()), Call::RegRead { regid: 25, size: 4 });
    assert_eq!(
        h.reg_write_long(x86::Register::XMM1.into(), &[0u8; 16]),
        Call::RegWriteLong { regid: 123, size: 16 }
    );
}

#[test]
fn wide_registers_of_x86_are_read_into_buffers_of_their_size() {
    let h = handle(Arch::X86);
    let sizes = [
        (x86::Register::XMM0, 16usize),
        (x86::Register::YMM0, 32),
        (x86::Register::ZMM0, 64),
        (x86::Register::GDTR, 10),
        (x86::Register::ST0, 10),
        (x86::Register::IDTR, 10),
        (x86::Register::ZMM31, 64),
    ];
    for (register, size) in sizes {
        let regid = i32::from(register);
        let (call, buffer) = h.reg_read_long(regid).unwrap();
        assert_eq!(call, Call::RegRead { regid, size });
        assert_eq!(buffer.len(), size);
        assert_eq!(buffer.as_slice(), vec![0u8; size].as_slice());
    }
}

#[test]
fn wide_registers_of_arm64_are_read_into_sixteen_bytes() {
    let h = handle(Arch::ARM64);
    for register in [arm64::Register::Q0, arm64::Register::Q31, arm64::Register::V0, arm64::Register::V31] {
        let regid = i32::from(register);
        let (call, buffer) = h.reg_read_long(regid).unwrap();
        assert_eq!(call, Call::RegRead { regid, size: 16 });
        assert_eq!(buffer.as_slice(), [0u8; 16].as_slice());
    }
}

#[test]
fn a_register_that_is_not_wide_is_refused() {
    let h = handle(Arch::X86);
    assert_eq!(h.reg_read_long(x86::Register::RAX.into()).err(), Some(uc_error::ARG));
    assert_eq!(h.reg_read_long(x86::Register::LDTR.into()).err(), Some(uc_error::ARG));
    assert_eq!(h.reg_read_long(0).err(), Some(uc_error::ARG));
    assert_eq!(h.reg_read_long(-5).err(), Some(uc_error::ARG));
    let h = handle(Arch::ARM64);
    assert_eq!(h.reg_read_long(arm64::Register::X0.into()).err(), Some(uc_error::ARG));
    assert_eq!(h.reg_read_long(arm64::Register::D31.into()).err(), Some(uc_error::ARG));
    assert_eq!(h.reg_read_long(arm64::Register::PC.into()).err(), Some(uc_error::ARG));
}

#[test]
fn an_architecture_without_wide_registers_refuses_them_all() {
    for arch in [Arch::ARM, Arch::MIPS, Arch::PPC, Arch::SPARC, Arch::M68K, Arch::RISCV] {
        let h = handle(arch);
        assert_eq!(h.reg_read_long(x86::Register::XMM0.into()).err(), Some(uc_error::ARCH));
        assert_eq!(h.reg_read_long(0).err(), Some(uc_error::ARCH));
    }
}

#[test]
fn hooks_ask_for_their_type_and_range() {
    let h = handle(Arch::X86);
    assert_eq!(
        h.add_code_hook(0x1000, 0x2000),
        Call::HookAdd { hook_type: HookType::code(), begin: 0x1000, end: 0x2000, insn: None }
    );
    assert_eq!(h.add_block_hook(), Call::HookAdd { hook_type: HookType::block(), begin: 1, end: 0, insn: None });
    assert_eq!(h.add_intr_hook(), Call::HookAdd { hook_type: HookType::intr(), begin: 0, end: 0, insn: None });
    assert_eq!(
        h.add_insn_in_hook(),
        Call::HookAdd { hook_type: HookType::insn(), begin: 0, end: 0, insn: Some(Insn::IN) }
    );
    assert_eq!(
        h.add_insn_out_hook(),
        Call::HookAdd { hook_type: HookType::insn(), begin: 0, end: 0, insn: Some(Insn::OUT) }
    );
    assert_eq!(
        h.add_insn_sys_hook(InsnSys::SYSCALL, 1, 0),
        Call::HookAdd { hook_type: HookType::insn(), begin: 1, end: 0, insn: Some(Insn::SYSCALL) }
    );
    assert_eq!(
        h.add_insn_sys_hook(InsnSys::SYSENTER, 0x10, 0x20),
        Call::HookAdd { hook_type: HookType::insn(), begin: 0x10, end: 0x20, insn: Some(Insn::SYSENTER) }
    );
}

#[test]
fn a_memory_hook_asks_for_memory_events() {
    let h = handle(Arch::X86);
    let accepted = [
        HookType::mem_read(),
        HookType::mem_write(),
        HookType::mem_fetch(),
        HookType::mem_read_after(),
        HookType::mem_read_unmapped(),
        HookType::mem_fetch_prot(),
        HookType::mem_all(),
        HookType::mem_invalid(),
        HookType::mem_valid() | HookType::mem_read_after(),
        HookType::mem_write() | HookType::code(),
    ];
    for hook_type in accepted {
        assert_eq!(
            h.add_mem_hook(hook_type, 0x1000, 0x1fff),
            Ok(Call::HookAdd { hook_type, begin: 0x1000, end: 0x1fff, insn: None })
        );
    }
}

#[test]
fn a_memory_hook_without_a_memory_event_is_refused() {
    let h = handle(Arch::X86);
    let refused = [
        HookType::empty(),
        HookType::intr(),
        HookType::insn(),
        HookType::code(),
        HookType::block(),
        HookType::insn_invalid(),
        HookType::code() | HookType::block() | HookType::intr(),
    ];
    for hook_type in refused {
        assert_eq!(h.add_mem_hook(hook_type, 1, 0), Err(uc_error::ARG));
    }
    assert!(h.inner().hooks.is_empty());
}

#[test]
fn a_registered_hook_is_kept_with_its_callback() {
    let mut h = handle(Arch::X86);
    assert_eq!(h.hook_added(0x10, "first", uc_error::OK), Ok(0x10));
    assert_eq!(h.hook_added(0x20, "second", uc_error::OK), Ok(0x20));
    assert_eq!(hooks_of(&h), vec![(0x10, "first"), (0x20, "second")]);
    assert!(h.inner().mmio_callbacks.is_empty());
}

#[test]
fn a_hook_that_the_engine_refused_is_not_kept() {
    let mut h = handle(Arch::X86);
    assert_eq!(h.hook_added(0, "first", uc_error::HOOK), Err(uc_error::HOOK));
    assert_eq!(h.hook_added(0x30, "second", uc_error::NOMEM), Err(uc_error::NOMEM));
    assert_eq!(h.hook_added(0x30, "third", uc_error::HOOK_EXIST), Err(uc_error::HOOK_EXIST));
    assert!(h.inner().hooks.is_empty());
}

#[test]
fn removing_a_hook_forgets_it_and_keeps_the_others_in_order() {
    let mut h = handle(Arch::X86);
    h.hook_added(0x10, "a", uc_error::OK).unwrap();
    h.hook_added(0x20, "b", uc_error::OK).unwrap();
    h.hook_added(0x30, "c", uc_error::OK).unwrap();
    assert_eq!(h.remove_hook(0x20), Call::HookDel { hook: 0x20 });
    assert_eq!(hooks_of(&h), vec![(0x10, "a"), (0x30, "c")]);
    assert_eq!(h.remove_hook(0x10), Call::HookDel { hook: 0x10 });
    assert_eq!(hooks_of(&h), vec![(0x30, "c")]);
    assert_eq!(h.remove_hook(0x30), Call::HookDel { hook: 0x30 });
    assert!(h.inner().hooks.is_empty());
}

#[test]
fn removing_a_hook_twice_changes_nothing_the_second_time() {
    let mut h = handle(Arch::X86);
    h.hook_added(0x10, "a", uc_error::OK).unwrap();
    h.hook_added(0x20, "b", uc_error::OK).unwrap();
    assert_eq!(h.remove_hook(0x10), Call::HookDel { hook: 0x10 });
    assert_eq!(hooks_of(&h), vec![(0x20, "b")]);
    assert_eq!(h.remove_hook(0x10), Call::HookDel { hook: 0x10 });
    assert_eq!(hooks_of(&h), vec![(0x20, "b")]);
    assert_eq!(h.remove_hook(0x99), Call::HookDel { hook: 0x99 });
    assert_eq!(hooks_of(&h), vec![(0x20, "b")]);
}

#[test]
fn removing_a_hook_forgets_every_entry_under_its_name() {
    let mut h = handle(Arch::X86);
    h.hook_added(0x10, "a", uc_error::OK).unwrap();
    h.hook_added(0x20, "b", uc_error::OK).unwrap();
    h.hook_added(0x10, "c", uc_error::OK).unwrap();
    h.remove_hook(0x10);
    assert_eq!(hooks_of(&h), vec![(0x20, "b")]);
}

#[test]
fn a_context_is_allocated_saved_and_restored() {
    let h = handle(Arch::X86);
    assert_eq!(h.context_alloc(), Call::ContextAlloc);
    let context = h.context_allocated(0x700, uc_error::OK).unwrap();
    assert_eq!(context.context, 0x700);
    assert!(context.is_initialized());
    assert_eq!(h.context_save(&context), Call::ContextSave { context: 0x700 });
    assert_eq!(h.context_restore(&context), Call::ContextRestore { context: 0x700 });
    assert!(matches!(h.context_allocated(0, uc_error::NOMEM), Err(uc_error::NOMEM)));
    assert!(matches!(h.context_allocated(0x700, uc_error::HANDLE), Err(uc_error::HANDLE)));
}

#[test]
fn a_context_is_made_in_two_calls() {
    let h = handle(Arch::X86);
    assert_eq!(h.context_init(), Call::ContextAlloc);
    assert_eq!(h.context_init_allocated(0x700, uc_error::OK), Ok(Call::ContextSave { context: 0x700 }));
    let (result, left) = h.context_init_saved(0x700, uc_error::OK);
    assert_eq!(result.unwrap().context, 0x700);
    assert_eq!(left, None);
}

#[test]
fn a_context_that_cannot_be_allocated_ends_there() {
    let h = handle(Arch::X86);
    assert_eq!(h.context_init_allocated(0, uc_error::NOMEM), Err(uc_error::NOMEM));
}

#[test]
fn a_context_that_cannot_be_saved_is_freed() {
    let h = handle(Arch::X86);
    let (result, left) = h.context_init_saved(0x700, uc_error::HANDLE);
    assert!(matches!(result, Err(uc_error::HANDLE)));
    assert_eq!(left, Some(Call::ContextFree { context: 0x700 }));
}

#[test]
fn a_context_is_freed_once() {
    let mut context = Context { context: 0x700 };
    assert!(context.is_initialized());
    assert_eq!(context.release(), Some(Call::ContextFree { context: 0x700 }));
    assert!(!context.is_initialized());
    assert_eq!(context.release(), None);
    let mut none = Context { context: 0 };
    assert!(!none.is_initialized());
    assert_eq!(none.release(), None);
}

#[test]
fn an_instance_is_closed_once() {
    let mut h = handle(Arch::X86);
    h.hook_added(0x10, "a", uc_error::OK).unwrap();
    assert_eq!(h.inner_mut().release(), Some(Call::Close { uc: 0x5000 }));
    assert_eq!(h.inner().uc, 0);
    assert_eq!(hooks_of(&h), vec![(0x10, "a")]);
    assert_eq!(h.inner_mut().release(), None);
    assert_eq!(h.inner().uc, 0);
}

#[test]
fn running_asks_for_the_range_and_the_limits() {
    let h = handle(Arch::ARM);
    assert_eq!(
        h.emu_start(0x1000, 0x1004, 10 * unicornafl::consts::SECOND_SCALE, 1000),
        Call::EmuStart { begin: 0x1000, until: 0x1004, timeout: 10_000_000, count: 1000 }
    );
    assert_eq!(h.emu_start(0, 0, 0, 0), Call::EmuStart { begin: 0, until: 0, timeout: 0, count: 0 });
    assert_eq!(h.emu_stop(), Call::EmuStop);
    assert_eq!(h.query(Query::PAGE_SIZE), Call::Query { query: Query::PAGE_SIZE });
    assert_eq!(h.query(Query::MODE), Call::Query { query: Query::MODE });
    assert_eq!(h.query(Query::ARCH), Call::Query { query: Query::ARCH });
}

#[test]
fn the_program_counter_is_read_and_written_in_its_register() {
    let registers = [
        (Arch::X86, 41),
        (Arch::ARM, 11),
        (Arch::ARM64, 260),
        (Arch::MIPS, 1),
        (Arch::SPARC, 88),
        (Arch::M68K, 18),
        (Arch::PPC, 1),
        (Arch::RISCV, 65),
    ];
    for (arch, regid) in registers {
        let h = handle(arch);
        assert_eq!(h.pc_read(), Call::RegRead { regid, size: 8 });
        assert_eq!(h.pc_read(), h.reg_read(regid));
        assert_eq!(h.pc_write(0x4000), Call::RegWrite { regid, value: 0x4000 });
        assert_eq!(h.pc_write(0x4000), h.reg_write(regid, 0x4000));
    }
}

#[test]
fn a_record_can_be_made_by_hand() {
    let inner: UnicornInner<u8, ()> = UnicornInner {
        uc: 1,
        arch: Arch::SPARC,
        hooks: vec![(3, 4)],
        mmio_callbacks: vec![MmioCallbackScope { regions: vec![(0x1000, 0x1000)], read_callback: None, write_callback: Some(5) }],
        data: (),
    };
    let mut h = Unicorn { inner };
    assert_eq!(h.get_arch(), Arch::SPARC);
    h.mmio_unmap(0x1000, 0x1000);
    assert!(h.inner().mmio_callbacks.is_empty());
    assert_eq!(h.inner().hooks, vec![(3, 4)]);
}

#[test]
fn a_handle_is_sound_while_its_scopes_end_within_the_address_space() {
    let mut h = handle(Arch::X86);
    assert!(h.is_wf());
    h.mmio_mapped(0x1000, 0x2000, Some("a"), None, uc_error::OK).unwrap();
    assert!(h.is_wf());
    h.mmio_mapped(0xffff_ffff_ffff_e000, 0x1000, Some("b"), None, uc_error::OK).unwrap();
    assert!(h.is_wf());
    h.mmio_mapped(0xffff_ffff_ffff_f000, 0x1000, Some("c"), None, uc_error::OK).unwrap();
    assert!(!h.is_wf());
    assert!(h.inner().mmio_callbacks[0].is_wf());
    assert!(h.inner().mmio_callbacks[1].is_wf());
    assert!(!h.inner().mmio_callbacks[2].is_wf());
    h.inner_mut().mmio_callbacks.pop();
    assert!(h.is_wf());
    h.inner_mut().mmio_callbacks[0].regions.clear();
    assert!(!h.is_wf());
}

#[test]
fn unmapping_is_not_tried_on_what_does_not_fit() {
    let mut h = handle(Arch::X86);
    h.mmio_mapped(0x1000, 0x2000, Some("a"), None, uc_error::OK).unwrap();
    assert_eq!(h.try_mem_unmapped(0xffff_ffff_ffff_f000, 0x1000, uc_error::OK), None);
    assert_eq!(regions_of(&h), vec![vec![(0x1000, 0x2000)]]);
    assert_eq!(h.try_mem_unmapped(0x1000, 0x1000, uc_error::OK), Some(Ok(())));
    assert_eq!(regions_of(&h), vec![vec![(0x2000, 0x1000)]]);
    assert_eq!(h.try_mem_unmapped(0x8000, 0x1000, uc_error::NOMEM), Some(Err(uc_error::NOMEM)));
    assert!(h.inner().mmio_callbacks.is_empty());
    h.mmio_mapped(0xffff_ffff_ffff_f000, 0x1000, Some("c"), None, uc_error::OK).unwrap();
    assert_eq!(h.try_mem_unmapped(0x1000, 0x1000, uc_error::OK), None);
    assert_eq!(regions_of(&h), vec![vec![(0xffff_ffff_ffff_f000, 0x1000)]]);
}
