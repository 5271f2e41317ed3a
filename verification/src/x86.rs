//! The registers of x86 and x86-64, and the instructions that can be hooked one by one.
//! Numbered as the engine numbers them. The order matters beyond the numbers:
//! a bank of registers is a range of them.

use vstd::prelude::*;
use vstd::std_specs::convert::FromSpecImpl;

verus! {

/// A register of this architecture, under its canonical name.
#[derive(Clone, Copy, Debug, PartialEq, Eq, Structural)]
pub enum Register {
    INVALID,
    AH,
    AL,
    AX,
    BH,
    BL,
    BP,
    BPL,
    BX,
    CH,
    CL,
    CS,
    CX,
    DH,
    DI,
    DIL,
    DL,
    DS,
    DX,
    EAX,
    EBP,
    EBX,
    ECX,
    EDI,
    EDX,
    EFLAGS,
    EIP,
    EIZ,
    ES,
    ESI,
    ESP,
    FPSW,
    FS,
    GS,
    IP,
    RAX,
    RBP,
    RBX,
    RCX,
    RDI,
    RDX,
    RIP,
    RIZ,
    RSI,
    RSP,
    SI,
    SIL,
    SP,
    SPL,
    SS,
    // Control registers
    CR0,
    CR1,
    CR2,
    CR3,
    CR4,
    CR5,
    CR6,
    CR7,
    CR8,
    CR9,
    CR10,
    CR11,
    CR12,
    CR13,
    CR14,
    CR15,
    // Debug registers
    DR0,
    DR1,
    DR2,
    DR3,
    DR4,
    DR5,
    DR6,
    DR7,
    DR8,
    DR9,
    DR10,
    DR11,
    DR12,
    DR13,
    DR14,
    DR15,
    // Floating-point stack
    FP0,
    FP1,
    FP2,
    FP3,
    FP4,
    FP5,
    FP6,
    FP7,
    // Mask registers
    K0,
    K1,
    K2,
    K3,
    K4,
    K5,
    K6,
    K7,
    // MMX registers
    MM0,
    MM1,
    MM2,
    MM3,
    MM4,
    MM5,
    MM6,
    MM7,
    // General purpose registers of 64-bit mode
    R8,
    R9,
    R10,
    R11,
    R12,
    R13,
    R14,
    R15,
    // x87 registers, 80 bits each
    ST0,
    ST1,
    ST2,
    ST3,
    ST4,
    ST5,
    ST6,
    ST7,
    // Vector registers of 128, 256 and 512 bits
    XMM0,
    XMM1,
    XMM2,
    XMM3,
    XMM4,
    XMM5,
    XMM6,
    XMM7,
    XMM8,
    XMM9,
    XMM10,
    XMM11,
    XMM12,
    XMM13,
    XMM14,
    XMM15,
    XMM16,
    XMM17,
    XMM18,
    XMM19,
    XMM20,
    XMM21,
    XMM22,
    XMM23,
    XMM24,
    XMM25,
    XMM26,
    XMM27,
    XMM28,
    XMM29,
    XMM30,
    XMM31,
    YMM0,
    YMM1,
    YMM2,
    YMM3,
    YMM4,
    YMM5,
    YMM6,
    YMM7,
    YMM8,
    YMM9,
    YMM10,
    YMM11,
    YMM12,
    YMM13,
    YMM14,
    YMM15,
    YMM16,
    YMM17,
    YMM18,
    YMM19,
    YMM20,
    YMM21,
    YMM22,
    YMM23,
    YMM24,
    YMM25,
    YMM26,
    YMM27,
    YMM28,
    YMM29,
    YMM30,
    YMM31,
    ZMM0,
    ZMM1,
    ZMM2,
    ZMM3,
    ZMM4,
    ZMM5,
    ZMM6,
    ZMM7,
    ZMM8,
    ZMM9,
    ZMM10,
    ZMM11,
    ZMM12,
    ZMM13,
    ZMM14,
    ZMM15,
    ZMM16,
    ZMM17,
    ZMM18,
    ZMM19,
    ZMM20,
    ZMM21,
    ZMM22,
    ZMM23,
    ZMM24,
    ZMM25,
    ZMM26,
    ZMM27,
    ZMM28,
    ZMM29,
    ZMM30,
    ZMM31,
    // Low parts of R8..R15
    R8B,
    R9B,
    R10B,
    R11B,
    R12B,
    R13B,
    R14B,
    R15B,
    R8D,
    R9D,
    R10D,
    R11D,
    R12D,
    R13D,
    R14D,
    R15D,
    R8W,
    R9W,
    R10W,
    R11W,
    R12W,
    R13W,
    R14W,
    R15W,
    // Descriptor tables, task register and the rest
    IDTR,
    GDTR,
    LDTR,
    TR,
    FPCW,
    FPTAG,
    MSR,
    MXCSR,
    FS_BASE,
    GS_BASE,
}

impl Register {
    /// The number by which the engine knows the register.
    pub open spec fn id(self) -> i32 {
        match self {
            Register::INVALID => 0,
            Register::AH => 1,
            Register::AL => 2,
            Register::AX => 3,
            Register::BH => 4,
            Register::BL => 5,
            Register::BP => 6,
            Register::BPL => 7,
            Register::BX => 8,
            Register::CH => 9,
            Register::CL => 10,
            Register::CS => 11,
            Register::CX => 12,
            Register::DH => 13,
            Register::DI => 14,
            Register::DIL => 15,
            Register::DL => 16,
            Register::DS => 17,
            Register::DX => 18,
            Register::EAX => 19,
            Register::EBP => 20,
            Register::EBX => 21,
            Register::ECX => 22,
            Register::EDI => 23,
            Register::EDX => 24,
            Register::EFLAGS => 25,
            Register::EIP => 26,
            Register::EIZ => 27,
            Register::ES => 28,
            Register::ESI => 29,
            Register::ESP => 30,
            Register::FPSW => 31,
            Register::FS => 32,
            Register::GS => 33,
            Register::IP => 34,
            Register::RAX => 35,
            Register::RBP => 36,
            Register::RBX => 37,
            Register::RCX => 38,
            Register::RDI => 39,
            Register::RDX => 40,
            Register::RIP => 41,
            Register::RIZ => 42,
            Register::RSI => 43,
            Register::RSP => 44,
            Register::SI => 45,
            Register::SIL => 46,
            Register::SP => 47,
            Register::SPL => 48,
            Register::SS => 49,
            Register::CR0 => 50,
            Register::CR1 => 51,
            Register::CR2 => 52,
            Register::CR3 => 53,
            Register::CR4 => 54,
            Register::CR5 => 55,
            Register::CR6 => 56,
            Register::CR7 => 57,
            Register::CR8 => 58,
            Register::CR9 => 59,
            Register::CR10 => 60,
            Register::CR11 => 61,
            Register::CR12 => 62,
            Register::CR13 => 63,
            Register::CR14 => 64,
            Register::CR15 => 65,
            Register::DR0 => 66,
            Register::DR1 => 67,
            Register::DR2 => 68,
            Register::DR3 => 69,
            Register::DR4 => 70,
            Register::DR5 => 71,
            Register::DR6 => 72,
            Register::DR7 => 73,
            Register::DR8 => 74,
            Register::DR9 => 75,
            Register::DR10 => 76,
            Register::DR11 => 77,
            Register::DR12 => 78,
            Register::DR13 => 79,
            Register::DR14 => 80,
            Register::DR15 => 81,
            Register::FP0 => 82,
            Register::FP1 => 83,
            Register::FP2 => 84,
            Register::FP3 => 85,
            Register::FP4 => 86,
            Register::FP5 => 87,
            Register::FP6 => 88,
            Register::FP7 => 89,
            Register::K0 => 90,
            Register::K1 => 91,
            Register::K2 => 92,
            Register::K3 => 93,
            Register::K4 => 94,
            Register::K5 => 95,
            Register::K6 => 96,
            Register::K7 => 97,
            Register::MM0 => 98,
            Register::MM1 => 99,
            Register::MM2 => 100,
            Register::MM3 => 101,
            Register::MM4 => 102,
            Register::MM5 => 103,
            Register::MM6 => 104,
            Register::MM7 => 105,
            Register::R8 => 106,
            Register::R9 => 107,
            Register::R10 => 108,
            Register::R11 => 109,
            Register::R12 => 110,
            Register::R13 => 111,
            Register::R14 => 112,
            Register::R15 => 113,
            Register::ST0 => 114,
            Register::ST1 => 115,
            Register::ST2 => 116,
            Register::ST3 => 117,
            Register::ST4 => 118,
            Register::ST5 => 119,
            Register::ST6 => 120,
            Register::ST7 => 121,
            Register::XMM0 => 122,
            Register::XMM1 => 123,
            Register::XMM2 => 124,
            Register::XMM3 => 125,
            Register::XMM4 => 126,
            Register::XMM5 => 127,
            Register::XMM6 => 128,
            Register::XMM7 => 129,
            Register::XMM8 => 130,
            Register::XMM9 => 131,
            Register::XMM10 => 132,
            Register::XMM11 => 133,
            Register::XMM12 => 134,
            Register::XMM13 => 135,
            Register::XMM14 => 136,
            Register::XMM15 => 137,
            Register::XMM16 => 138,
            Register::XMM17 => 139,
            Register::XMM18 => 140,
            Register::XMM19 => 141,
            Register::XMM20 => 142,
            Register::XMM21 => 143,
            Register::XMM22 => 144,
            Register::XMM23 => 145,
            Register::XMM24 => 146,
            Register::XMM25 => 147,
            Register::XMM26 => 148,
            Register::XMM27 => 149,
            Register::XMM28 => 150,
            Register::XMM29 => 151,
            Register::XMM30 => 152,
            Register::XMM31 => 153,
            Register::YMM0 => 154,
            Register::YMM1 => 155,
            Register::YMM2 => 156,
            Register::YMM3 => 157,
            Register::YMM4 => 158,
            Register::YMM5 => 159,
            Register::YMM6 => 160,
            Register::YMM7 => 161,
            Register::YMM8 => 162,
            Register::YMM9 => 163,
            Register::YMM10 => 164,
            Register::YMM11 => 165,
            Register::YMM12 => 166,
            Register::YMM13 => 167,
            Register::YMM14 => 168,
            Register::YMM15 => 169,
            Register::YMM16 => 170,
            Register::YMM17 => 171,
            Register::YMM18 => 172,
            Register::YMM19 => 173,
            Register::YMM20 => 174,
            Register::YMM21 => 175,
            Register::YMM22 => 176,
            Register::YMM23 => 177,
            Register::YMM24 => 178,
            Register::YMM25 => 179,
            Register::YMM26 => 180,
            Register::YMM27 => 181,
            Register::YMM28 => 182,
            Register::YMM29 => 183,
            Register::YMM30 => 184,
            Register::YMM31 => 185,
            Register::ZMM0 => 186,
            Register::ZMM1 => 187,
            Register::ZMM2 => 188,
            Register::ZMM3 => 189,
            Register::ZMM4 => 190,
            Register::ZMM5 => 191,
            Register::ZMM6 => 192,
            Register::ZMM7 => 193,
            Register::ZMM8 => 194,
            Register::ZMM9 => 195,
            Register::ZMM10 => 196,
            Register::ZMM11 => 197,
            Register::ZMM12 => 198,
            Register::ZMM13 => 199,
            Register::ZMM14 => 200,
            Register::ZMM15 => 201,
            Register::ZMM16 => 202,
            Register::ZMM17 => 203,
            Register::ZMM18 => 204,
            Register::ZMM19 => 205,
            Register::ZMM20 => 206,
            Register::ZMM21 => 207,
            Register::ZMM22 => 208,
            Register::ZMM23 => 209,
            Register::ZMM24 => 210,
            Register::ZMM25 => 211,
            Register::ZMM26 => 212,
            Register::ZMM27 => 213,
            Register::ZMM28 => 214,
            Register::ZMM29 => 215,
            Register::ZMM30 => 216,
            Register::ZMM31 => 217,
            Register::R8B => 218,
            Register::R9B => 219,
            Register::R10B => 220,
            Register::R11B => 221,
            Register::R12B => 222,
            Register::R13B => 223,
            Register::R14B => 224,
            Register::R15B => 225,
            Register::R8D => 226,
            Register::R9D => 227,
            Register::R10D => 228,
            Register::R11D => 229,
            Register::R12D => 230,
            Register::R13D => 231,
            Register::R14D => 232,
            Register::R15D => 233,
            Register::R8W => 234,
            Register::R9W => 235,
            Register::R10W => 236,
            Register::R11W => 237,
            Register::R12W => 238,
            Register::R13W => 239,
            Register::R14W => 240,
            Register::R15W => 241,
            Register::IDTR => 242,
            Register::GDTR => 243,
            Register::LDTR => 244,
            Register::TR => 245,
            Register::FPCW => 246,
            Register::FPTAG => 247,
            Register::MSR => 248,
            Register::MXCSR => 249,
            Register::FS_BASE => 250,
            Register::GS_BASE => 251,
        }
    }

    /// No two registers share a number.
    pub proof fn lemma_id_is_injective(a: Register, b: Register)
        requires
            a.id() == b.id(),
        ensures
            a == b,
    {
    }
}

impl From<Register> for i32 {
    fn from(r: Register) -> (id: i32) {
        match r {
            Register::INVALID => 0,
            Register::AH => 1,
            Register::AL => 2,
            Register::AX => 3,
            Register::BH => 4,
            Register::BL => 5,
            Register::BP => 6,
            Register::BPL => 7,
            Register::BX => 8,
            Register::CH => 9,
            Register::CL => 10,
            Register::CS => 11,
            Register::CX => 12,
            Register::DH => 13,
            Register::DI => 14,
            Register::DIL => 15,
            Register::DL => 16,
            Register::DS => 17,
            Register::DX => 18,
            Register::EAX => 19,
            Register::EBP => 20,
            Register::EBX => 21,
            Register::ECX => 22,
            Register::EDI => 23,
            Register::EDX => 24,
            Register::EFLAGS => 25,
            Register::EIP => 26,
            Register::EIZ => 27,
            Register::ES => 28,
            Register::ESI => 29,
            Register::ESP => 30,
            Register::FPSW => 31,
            Register::FS => 32,
            Register::GS => 33,
            Register::IP => 34,
            Register::RAX => 35,
            Register::RBP => 36,
            Register::RBX => 37,
            Register::RCX => 38,
            Register::RDI => 39,
            Register::RDX => 40,
            Register::RIP => 41,
            Register::RIZ => 42,
            Register::RSI => 43,
            Register::RSP => 44,
            Register::SI => 45,
            Register::SIL => 46,
            Register::SP => 47,
            Register::SPL => 48,
            Register::SS => 49,
            Register::CR0 => 50,
            Register::CR1 => 51,
            Register::CR2 => 52,
            Register::CR3 => 53,
            Register::CR4 => 54,
            Register::CR5 => 55,
            Register::CR6 => 56,
            Register::CR7 => 57,
            Register::CR8 => 58,
            Register::CR9 => 59,
            Register::CR10 => 60,
            Register::CR11 => 61,
            Register::CR12 => 62,
            Register::CR13 => 63,
            Register::CR14 => 64,
            Register::CR15 => 65,
            Register::DR0 => 66,
            Register::DR1 => 67,
            Register::DR2 => 68,
            Register::DR3 => 69,
            Register::DR4 => 70,
            Register::DR5 => 71,
            Register::DR6 => 72,
            Register::DR7 => 73,
            Register::DR8 => 74,
            Register::DR9 => 75,
            Register::DR10 => 76,
            Register::DR11 => 77,
            Register::DR12 => 78,
            Register::DR13 => 79,
            Register::DR14 => 80,
            Register::DR15 => 81,
            Register::FP0 => 82,
            Register::FP1 => 83,
            Register::FP2 => 84,
            Register::FP3 => 85,
            Register::FP4 => 86,
            Register::FP5 => 87,
            Register::FP6 => 88,
            Register::FP7 => 89,
            Register::K0 => 90,
            Register::K1 => 91,
            Register::K2 => 92,
            Register::K3 => 93,
            Register::K4 => 94,
            Register::K5 => 95,
            Register::K6 => 96,
            Register::K7 => 97,
            Register::MM0 => 98,
            Register::MM1 => 99,
            Register::MM2 => 100,
            Register::MM3 => 101,
            Register::MM4 => 102,
            Register::MM5 => 103,
            Register::MM6 => 104,
            Register::MM7 => 105,
            Register::R8 => 106,
            Register::R9 => 107,
            Register::R10 => 108,
            Register::R11 => 109,
            Register::R12 => 110,
            Register::R13 => 111,
            Register::R14 => 112,
            Register::R15 => 113,
            Register::ST0 => 114,
            Register::ST1 => 115,
            Register::ST2 => 116,
            Register::ST3 => 117,
            Register::ST4 => 118,
            Register::ST5 => 119,
            Register::ST6 => 120,
            Register::ST7 => 121,
            Register::XMM0 => 122,
            Register::XMM1 => 123,
            Register::XMM2 => 124,
            Register::XMM3 => 125,
            Register::XMM4 => 126,
            Register::XMM5 => 127,
            Register::XMM6 => 128,
            Register::XMM7 => 129,
            Register::XMM8 => 130,
            Register::XMM9 => 131,
            Register::XMM10 => 132,
            Register::XMM11 => 133,
            Register::XMM12 => 134,
            Register::XMM13 => 135,
            Register::XMM14 => 136,
            Register::XMM15 => 137,
            Register::XMM16 => 138,
            Register::XMM17 => 139,
            Register::XMM18 => 140,
            Register::XMM19 => 141,
            Register::XMM20 => 142,
            Register::XMM21 => 143,
            Register::XMM22 => 144,
            Register::XMM23 => 145,
            Register::XMM24 => 146,
            Register::XMM25 => 147,
            Register::XMM26 => 148,
            Register::XMM27 => 149,
            Register::XMM28 => 150,
            Register::XMM29 => 151,
            Register::XMM30 => 152,
            Register::XMM31 => 153,
            Register::YMM0 => 154,
            Register::YMM1 => 155,
            Register::YMM2 => 156,
            Register::YMM3 => 157,
            Register::YMM4 => 158,
            Register::YMM5 => 159,
            Register::YMM6 => 160,
            Register::YMM7 => 161,
            Register::YMM8 => 162,
            Register::YMM9 => 163,
            Register::YMM10 => 164,
            Register::YMM11 => 165,
            Register::YMM12 => 166,
            Register::YMM13 => 167,
            Register::YMM14 => 168,
            Register::YMM15 => 169,
            Register::YMM16 => 170,
            Register::YMM17 => 171,
            Register::YMM18 => 172,
            Register::YMM19 => 173,
            Register::YMM20 => 174,
            Register::YMM21 => 175,
            Register::YMM22 => 176,
            Register::YMM23 => 177,
            Register::YMM24 => 178,
            Register::YMM25 => 179,
            Register::YMM26 => 180,
            Register::YMM27 => 181,
            Register::YMM28 => 182,
            Register::YMM29 => 183,
            Register::YMM30 => 184,
            Register::YMM31 => 185,
            Register::ZMM0 => 186,
            Register::ZMM1 => 187,
            Register::ZMM2 => 188,
            Register::ZMM3 => 189,
            Register::ZMM4 => 190,
            Register::ZMM5 => 191,
            Register::ZMM6 => 192,
            Register::ZMM7 => 193,
            Register::ZMM8 => 194,
            Register::ZMM9 => 195,
            Register::ZMM10 => 196,
            Register::ZMM11 => 197,
            Register::ZMM12 => 198,
            Register::ZMM13 => 199,
            Register::ZMM14 => 200,
            Register::ZMM15 => 201,
            Register::ZMM16 => 202,
            Register::ZMM17 => 203,
            Register::ZMM18 => 204,
            Register::ZMM19 => 205,
            Register::ZMM20 => 206,
            Register::ZMM21 => 207,
            Register::ZMM22 => 208,
            Register::ZMM23 => 209,
            Register::ZMM24 => 210,
            Register::ZMM25 => 211,
            Register::ZMM26 => 212,
            Register::ZMM27 => 213,
            Register::ZMM28 => 214,
            Register::ZMM29 => 215,
            Register::ZMM30 => 216,
            Register::ZMM31 => 217,
            Register::R8B => 218,
            Register::R9B => 219,
            Register::R10B => 220,
            Register::R11B => 221,
            Register::R12B => 222,
            Register::R13B => 223,
            Register::R14B => 224,
            Register::R15B => 225,
            Register::R8D => 226,
            Register::R9D => 227,
            Register::R10D => 228,
            Register::R11D => 229,
            Register::R12D => 230,
            Register::R13D => 231,
            Register::R14D => 232,
            Register::R15D => 233,
            Register::R8W => 234,
            Register::R9W => 235,
            Register::R10W => 236,
            Register::R11W => 237,
            Register::R12W => 238,
            Register::R13W => 239,
            Register::R14W => 240,
            Register::R15W => 241,
            Register::IDTR => 242,
            Register::GDTR => 243,
            Register::LDTR => 244,
            Register::TR => 245,
            Register::FPCW => 246,
            Register::FPTAG => 247,
            Register::MSR => 248,
            Register::MXCSR => 249,
            Register::FS_BASE => 250,
            Register::GS_BASE => 251,
        }
    }
}

impl FromSpecImpl<Register> for i32 {
    open spec fn obeys_from_spec() -> bool {
        true
    }

    open spec fn from_spec(r: Register) -> i32 {
        r.id()
    }
}

/// An instruction of x86 that a hook can be set on.
#[derive(Clone, Copy, Debug, PartialEq, Eq, Structural)]
pub enum Insn {
    /// Read from a port.
    IN,
    /// Write to a port.
    OUT,
    /// Fast system call, 64 bit.
    SYSCALL,
    /// Fast system call, 32 bit.
    SYSENTER,
}

impl Insn {
    /// The number by which the engine knows the instruction.
    #[verifier::allow_in_spec]
    pub fn code(self) -> i32
        returns
            (match self {
                Insn::IN => 218i32,
                Insn::OUT => 500i32,
                Insn::SYSCALL => 699i32,
                Insn::SYSENTER => 700i32,
            }),
    {
        match self {
            Insn::IN => 218,
            Insn::OUT => 500,
            Insn::SYSCALL => 699,
            Insn::SYSENTER => 700,
        }
    }
}

/// The two instructions that enter the operating system.
#[derive(Clone, Copy, Debug, PartialEq, Eq, Structural)]
pub enum InsnSys {
    /// Fast system call, 64 bit.
    SYSCALL,
    /// Fast system call, 32 bit.
    SYSENTER,
}

impl InsnSys {
    /// The same instruction, among all that can be hooked.
    #[verifier::allow_in_spec]
    pub fn insn(self) -> Insn
        returns
            (match self {
                InsnSys::SYSCALL => Insn::SYSCALL,
                InsnSys::SYSENTER => Insn::SYSENTER,
            }),
    {
        match self {
            InsnSys::SYSCALL => Insn::SYSCALL,
            InsnSys::SYSENTER => Insn::SYSENTER,
        }
    }
}

} // verus!
