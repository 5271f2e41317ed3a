use tinyvec::ArrayVec;
use unicornafl::consts::{uc_error, Arch};
use unicornafl::registers::{pc_register_of, wide_register_buffer, wide_register_size_of};
use unicornafl::x86::{Insn, InsnSys};
use unicornafl::{arm, arm64, m68k, mips, ppc, riscv, sparc, x86};

#[test]
fn m68k_registers_are_numbered_from_zero() {
    assert_eq!(i32::from(m68k::Register::INVALID), 0);
    assert_eq!(i32::from(m68k::Register::A0), 1);
    assert_eq!(i32::from(m68k::Register::A7), 8);
    assert_eq!(i32::from(m68k::Register::D0), 9);
    assert_eq!(i32::from(m68k::Register::D7), 16);
    assert_eq!(i32::from(m68k::Register::SR), 17);
    assert_eq!(i32::from(m68k::Register::PC), 18);
}

#[test]
fn mips_registers_have_the_numbers_of_the_engine() {
    assert_eq!(i32::from(mips::Register::INVALID), 0);
    assert_eq!(i32::from(mips::Register::PC), 1);
    assert_eq!(i32::from(mips::Register::GPR0), 2);
    assert_eq!(i32::from(mips::Register::GPR31), 33);
    assert_eq!(i32::from(mips::Register::DSPCCOND), 34);
    assert_eq!(i32::from(mips::Register::DSPSCOUNT), 44);
    assert_eq!(i32::from(mips::Register::AC0), 45);
    assert_eq!(i32::from(mips::Register::AC3), 48);
    assert_eq!(i32::from(mips::Register::CC0), 49);
    assert_eq!(i32::from(mips::Register::CC7), 56);
    assert_eq!(i32::from(mips::Register::F0), 57);
    assert_eq!(i32::from(mips::Register::F31), 88);
    assert_eq!(i32::from(mips::Register::FCC0), 89);
    assert_eq!(i32::from(mips::Register::FCC7), 96);
    assert_eq!(i32::from(mips::Register::W0), 97);
    assert_eq!(i32::from(mips::Register::W31), 128);
    assert_eq!(i32::from(mips::Register::HI), 129);
    assert_eq!(i32::from(mips::Register::LO), 130);
    assert_eq!(i32::from(mips::Register::P0), 131);
    assert_eq!(i32::from(mips::Register::MPL2), 136);
    assert_eq!(i32::from(mips::Register::CP0_CONFIG3), 137);
    assert_eq!(i32::from(mips::Register::CP0_USERLOCAL), 138);
    assert_eq!(i32::from(mips::Register::CP0_STATUS), 139);
    assert_eq!(i32::from(mips::Register::ENDING), 140);
}

#[test]
fn mips_conventional_names_are_the_general_purpose_registers() {
    let names = [
        (mips::Register::ZERO, 2),
        (mips::Register::AT, 3),
        (mips::Register::V0, 4),
        (mips::Register::V1, 5),
        (mips::Register::A0, 6),
        (mips::Register::A1, 7),
        (mips::Register::A2, 8),
        (mips::Register::A3, 9),
        (mips::Register::T0, 10),
        (mips::Register::T1, 11),
        (mips::Register::T2, 12),
        (mips::Register::T3, 13),
        (mips::Register::T4, 14),
        (mips::Register::T5, 15),
        (mips::Register::T6, 16),
        (mips::Register::T7, 17),
        (mips::Register::S0, 18),
        (mips::Register::S1, 19),
        (mips::Register::S2, 20),
        (mips::Register::S3, 21),
        (mips::Register::S4, 22),
        (mips::Register::S5, 23),
        (mips::Register::S6, 24),
        (mips::Register::S7, 25),
        (mips::Register::T8, 26),
        (mips::Register::T9, 27),
        (mips::Register::K0, 28),
        (mips::Register::K1, 29),
        (mips::Register::GP, 30),
        (mips::Register::SP, 31),
        (mips::Register::FP, 32),
        (mips::Register::S8, 32),
        (mips::Register::RA, 33),
        (mips::Register::HI0, 45),
        (mips::Register::HI1, 46),
        (mips::Register::HI2, 47),
        (mips::Register::HI3, 48),
        (mips::Register::LO0, 45),
        (mips::Register::LO1, 46),
        (mips::Register::LO2, 47),
        (mips::Register::LO3, 48),
    ];
    for (register, id) in names {
        assert_eq!(i32::from(register), id);
    }
    assert_eq!(mips::Register::ZERO, mips::Register::GPR0);
    assert_eq!(mips::Register::FP, mips::Register::S8);
    assert_eq!(mips::Register::HI2, mips::Register::LO2);
}

#[test]
fn riscv_registers_have_the_numbers_of_the_engine() {
    assert_eq!(i32::from(riscv::Register::INVALID), 0);
    assert_eq!(i32::from(riscv::Register::X0), 1);
    assert_eq!(i32::from(riscv::Register::X31), 32);
    assert_eq!(i32::from(riscv::Register::F0), 33);
    assert_eq!(i32::from(riscv::Register::F31), 64);
    assert_eq!(i32::from(riscv::Register::PC), 65);
    assert_eq!(i32::from(riscv::Register::ENDING), 66);
}

#[test]
fn riscv_names_of_the_calling_convention_are_the_numbered_registers() {
    let names = [
        (riscv::Register::ZERO, 1),
        (riscv::Register::RA, 2),
        (riscv::Register::SP, 3),
        (riscv::Register::GP, 4),
        (riscv::Register::TP, 5),
        (riscv::Register::T0, 6),
        (riscv::Register::T2, 8),
        (riscv::Register::S0, 9),
        (riscv::Register::FP, 9),
        (riscv::Register::S1, 10),
        (riscv::Register::A0, 11),
        (riscv::Register::A7, 18),
        (riscv::Register::S2, 19),
        (riscv::Register::S11, 28),
        (riscv::Register::T3, 29),
        (riscv::Register::T6, 32),
        (riscv::Register::FT0, 33),
        (riscv::Register::FT7, 40),
        (riscv::Register::FS0, 41),
        (riscv::Register::FS1, 42),
        (riscv::Register::FA0, 43),
        (riscv::Register::FA7, 50),
        (riscv::Register::FS2, 51),
        (riscv::Register::FS11, 60),
        (riscv::Register::FT8, 61),
        (riscv::Register::FT11, 64),
    ];
    for (register, id) in names {
        assert_eq!(i32::from(register), id);
    }
    assert_eq!(riscv::Register::FP, riscv::Register::X8);
}

#[test]
fn x86_banks_are_where_the_engine_has_them() {
    assert_eq!(i32::from(x86::Register::INVALID), 0);
    assert_eq!(i32::from(x86::Register::AH), 1);
    assert_eq!(i32::from(x86::Register::EIP), 26);
    assert_eq!(i32::from(x86::Register::RAX), 35);
    assert_eq!(i32::from(x86::Register::RIP), 41);
    assert_eq!(i32::from(x86::Register::RSP), 44);
    assert_eq!(i32::from(x86::Register::CR0), 50);
    assert_eq!(i32::from(x86::Register::DR0), 66);
    assert_eq!(i32::from(x86::Register::FP0), 82);
    assert_eq!(i32::from(x86::Register::K0), 90);
    assert_eq!(i32::from(x86::Register::MM0), 98);
    assert_eq!(i32::from(x86::Register::R8), 106);
    assert_eq!(i32::from(x86::Register::ST0), 114);
    assert_eq!(i32::from(x86::Register::ST7), 121);
    assert_eq!(i32::from(x86::Register::XMM0), 122);
    assert_eq!(i32::from(x86::Register::XMM31), 153);
    assert_eq!(i32::from(x86::Register::YMM0), 154);
    assert_eq!(i32::from(x86::Register::YMM31), 185);
    assert_eq!(i32::from(x86::Register::ZMM0), 186);
    assert_eq!(i32::from(x86::Register::ZMM31), 217);
    assert_eq!(i32::from(x86::Register::R8B), 218);
    assert_eq!(i32::from(x86::Register::R15W), 241);
    assert_eq!(i32::from(x86::Register::IDTR), 242);
    assert_eq!(i32::from(x86::Register::GDTR), 243);
    assert_eq!(i32::from(x86::Register::LDTR), 244);
    assert_eq!(i32::from(x86::Register::TR), 245);
    assert_eq!(i32::from(x86::Register::MXCSR), 249);
    assert_eq!(i32::from(x86::Register::GS_BASE), 251);
}

#[test]
fn x86_instructions_have_the_numbers_of_the_engine() {
    assert_eq!(Insn::IN.code(), 218);
    assert_eq!(Insn::OUT.code(), 500);
    assert_eq!(Insn::SYSCALL.code(), 699);
    assert_eq!(Insn::SYSENTER.code(), 700);
    assert_eq!(InsnSys::SYSCALL.insn(), Insn::SYSCALL);
    assert_eq!(InsnSys::SYSENTER.insn(), Insn::SYSENTER);
}

#[test]
fn arm64_banks_are_where_the_engine_has_them() {
    assert_eq!(i32::from(arm64::Register::INVALID), 0);
    assert_eq!(i32::from(arm64::Register::X29), 1);
    assert_eq!(i32::from(arm64::Register::X30), 2);
    assert_eq!(i32::from(arm64::Register::SP), 4);
    assert_eq!(i32::from(arm64::Register::B0), 8);
    assert_eq!(i32::from(arm64::Register::D0), 40);
    assert_eq!(i32::from(arm64::Register::H0), 72);
    assert_eq!(i32::from(arm64::Register::Q0), 104);
    assert_eq!(i32::from(arm64::Register::Q31), 135);
    assert_eq!(i32::from(arm64::Register::S0), 136);
    assert_eq!(i32::from(arm64::Register::W0), 168);
    assert_eq!(i32::from(arm64::Register::X0), 199);
    assert_eq!(i32::from(arm64::Register::X28), 227);
    assert_eq!(i32::from(arm64::Register::V0), 228);
    assert_eq!(i32::from(arm64::Register::V31), 259);
    assert_eq!(i32::from(arm64::Register::PC), 260);
    assert_eq!(i32::from(arm64::Register::IP0), 215);
    assert_eq!(i32::from(arm64::Register::IP1), 216);
    assert_eq!(arm64::Register::FP, arm64::Register::X29);
    assert_eq!(arm64::Register::LR, arm64::Register::X30);
}

#[test]
fn arm_sparc_and_ppc_registers_have_the_numbers_of_the_engine() {
    assert_eq!(i32::from(arm::Register::INVALID), 0);
    assert_eq!(i32::from(arm::Register::CPSR), 3);
    assert_eq!(i32::from(arm::Register::LR), 10);
    assert_eq!(i32::from(arm::Register::PC), 11);
    assert_eq!(i32::from(arm::Register::SP), 12);
    assert_eq!(i32::from(arm::Register::R0), 66);
    assert_eq!(i32::from(arm::Register::R12), 78);
    assert_eq!(arm::Register::R13, arm::Register::SP);
    assert_eq!(arm::Register::R14, arm::Register::LR);
    assert_eq!(arm::Register::R15, arm::Register::PC);
    assert_eq!(arm::Register::SB, arm::Register::R9);
    assert_eq!(arm::Register::SL, arm::Register::R10);
    assert_eq!(arm::Register::FP, arm::Register::R11);
    assert_eq!(arm::Register::IP, arm::Register::R12);
    assert_eq!(i32::from(sparc::Register::INVALID), 0);
    assert_eq!(i32::from(sparc::Register::F0), 1);
    assert_eq!(i32::from(sparc::Register::G0), 53);
    assert_eq!(i32::from(sparc::Register::SP), 84);
    assert_eq!(i32::from(sparc::Register::FP), 67);
    assert_eq!(i32::from(sparc::Register::PC), 88);
    assert_eq!(i32::from(sparc::Register::ENDING), 89);
    assert_eq!(i32::from(ppc::Register::INVALID), 0);
    assert_eq!(i32::from(ppc::Register::PC), 1);
    assert_eq!(i32::from(ppc::Register::GPR0), 2);
    assert_eq!(i32::from(ppc::Register::GPR31), 33);
}

#[test]
fn the_program_counter_of_each_architecture() {
    assert_eq!(pc_register_of(Arch::X86), i32::from(x86::Register::RIP));
    assert_eq!(pc_register_of(Arch::ARM), i32::from(arm::Register::PC));
    assert_eq!(pc_register_of(Arch::ARM64), i32::from(arm64::Register::PC));
    assert_eq!(pc_register_of(Arch::MIPS), i32::from(mips::Register::PC));
    assert_eq!(pc_register_of(Arch::SPARC), i32::from(sparc::Register::PC));
    assert_eq!(pc_register_of(Arch::M68K), i32::from(m68k::Register::PC));
    assert_eq!(pc_register_of(Arch::PPC), i32::from(ppc::Register::PC));
    assert_eq!(pc_register_of(Arch::RISCV), i32::from(riscv::Register::PC));
    assert_eq!(pc_register_of(Arch::X86), 41);
    assert_eq!(pc_register_of(Arch::ARM), 11);
    assert_eq!(pc_register_of(Arch::ARM64), 260);
    assert_eq!(pc_register_of(Arch::MIPS), 1);
    assert_eq!(pc_register_of(Arch::SPARC), 88);
    assert_eq!(pc_register_of(Arch::M68K), 18);
    assert_eq!(pc_register_of(Arch::PPC), 1);
    assert_eq!(pc_register_of(Arch::RISCV), 65);
}

#[test]
fn wide_registers_of_x86_have_their_sizes() {
    assert_eq!(wide_register_size_of(Arch::X86, x86::Register::XMM0.into()), Ok(16));
    assert_eq!(wide_register_size_of(Arch::X86, x86::Register::XMM31.into()), Ok(16));
    assert_eq!(wide_register_size_of(Arch::X86, x86::Register::YMM0.into()), Ok(32));
    assert_eq!(wide_register_size_of(Arch::X86, x86::Register::YMM31.into()), Ok(32));
    assert_eq!(wide_register_size_of(Arch::X86, x86::Register::ZMM0.into()), Ok(64));
    assert_eq!(wide_register_size_of(Arch::X86, x86::Register::ZMM31.into()), Ok(64));
    assert_eq!(wide_register_size_of(Arch::X86, x86::Register::GDTR.into()), Ok(10));
    assert_eq!(wide_register_size_of(Arch::X86, x86::Register::IDTR.into()), Ok(10));
    assert_eq!(wide_register_size_of(Arch::X86, x86::Register::ST0.into()), Ok(10));
    assert_eq!(wide_register_size_of(Arch::X86, x86::Register::ST7.into()), Ok(10));
}

#[test]
fn other_registers_of_x86_are_a_bad_argument() {
    assert_eq!(wide_register_size_of(Arch::X86, x86::Register::RAX.into()), Err(uc_error::ARG));
    assert_eq!(wide_register_size_of(Arch::X86, x86::Register::R15.into()), Err(uc_error::ARG));
    assert_eq!(wide_register_size_of(Arch::X86, x86::Register::R8B.into()), Err(uc_error::ARG));
    assert_eq!(wide_register_size_of(Arch::X86, x86::Register::LDTR.into()), Err(uc_error::ARG));
    assert_eq!(wide_register_size_of(Arch::X86, x86::Register::INVALID.into()), Err(uc_error::ARG));
    assert_eq!(wide_register_size_of(Arch::X86, -1), Err(uc_error::ARG));
    assert_eq!(wide_register_size_of(Arch::X86, 100_000), Err(uc_error::ARG));
}

#[test]
fn wide_registers_of_arm64_have_sixteen_bytes() {
    assert_eq!(wide_register_size_of(Arch::ARM64, arm64::Register::Q0.into()), Ok(16));
    assert_eq!(wide_register_size_of(Arch::ARM64, arm64::Register::Q31.into()), Ok(16));
    assert_eq!(wide_register_size_of(Arch::ARM64, arm64::Register::V0.into()), Ok(16));
    assert_eq!(wide_register_size_of(Arch::ARM64, arm64::Register::V31.into()), Ok(16));
    assert_eq!(wide_register_size_of(Arch::ARM64, arm64::Register::S0.into()), Err(uc_error::ARG));
    assert_eq!(wide_register_size_of(Arch::ARM64, arm64::Register::X28.into()), Err(uc_error::ARG));
    assert_eq!(wide_register_size_of(Arch::ARM64, arm64::Register::PC.into()), Err(uc_error::ARG));
}

#[test]
fn no_other_architecture_has_wide_registers() {
    for arch in [Arch::ARM, Arch::MIPS, Arch::PPC, Arch::SPARC, Arch::M68K, Arch::RISCV, Arch::MAX] {
        assert_eq!(wide_register_size_of(arch, x86::Register::XMM0.into()), Err(uc_error::ARCH));
        assert_eq!(wide_register_size_of(arch, arm64::Register::Q0.into()), Err(uc_error::ARCH));
        assert_eq!(wide_register_size_of(arch, 0), Err(uc_error::ARCH));
    }
}

#[test]
fn a_buffer_for_a_wide_register_is_zero_bytes_of_its_size() {
    for size in [0usize, 10, 16, 32, 63, 64] {
        let buffer: ArrayVec<[u8; 64]> = wide_register_buffer(size);
        assert_eq!(buffer.len(), size);
        assert!(buffer.iter().all(|b| *b == 0));
    }
}
