//! The instruction model: a closed sum type with one variant per recognized
//! opcode, carrying typed operands. Undefined encodings are values of this
//! type too — they carry the raw word — so that decoding is total.

use vstd::prelude::*;
use crate::csr::Csr;
use crate::gpr::Gpr;

verus! {

/// A decoded instruction.
///
/// Operand conventions, in field order:
/// - register-register forms: destination, first source, second source;
/// - immediate and load forms: destination, source, immediate;
/// - store and branch forms: first source (base/left), second source
///   (stored/right), immediate;
/// - shift-immediate forms: destination, source, shift amount;
/// - control/status forms: destination, source register or zero-extended
///   5-bit immediate, register symbol;
/// - compact float loads and stores name the float register by its raw
///   5-bit index, since float decoding is otherwise out of scope.
///
/// `UNDEF` and `CUNDEF` carry the raw 32-bit or 16-bit word that matched
/// no assigned encoding.
#[allow(non_camel_case_types)]
#[derive(Copy, Clone, PartialEq, Eq, Structural, Debug)]
pub enum Inst {
    UNDEF(u32),
    // Register-register integer operations.
    ADD(Gpr, Gpr, Gpr),
    SUB(Gpr, Gpr, Gpr),
    XOR(Gpr, Gpr, Gpr),
    OR(Gpr, Gpr, Gpr),
    AND(Gpr, Gpr, Gpr),
    SLL(Gpr, Gpr, Gpr),
    SRL(Gpr, Gpr, Gpr),
    SRA(Gpr, Gpr, Gpr),
    SLT(Gpr, Gpr, Gpr),
    SLTU(Gpr, Gpr, Gpr),
    // Immediate integer operations.
    ADDI(Gpr, Gpr, i32),
    XORI(Gpr, Gpr, i32),
    ORI(Gpr, Gpr, i32),
    ANDI(Gpr, Gpr, i32),
    SLLI(Gpr, Gpr, u8),
    SRLI(Gpr, Gpr, u8),
    SRAI(Gpr, Gpr, u8),
    SLTI(Gpr, Gpr, i32),
    SLTUI(Gpr, Gpr, u32),
    // Loads: destination, base, offset.
    LB(Gpr, Gpr, i32),
    LH(Gpr, Gpr, i32),
    LW(Gpr, Gpr, i32),
    LBU(Gpr, Gpr, i32),
    LHU(Gpr, Gpr, i32),
    // Stores: base, stored register, offset.
    SB(Gpr, Gpr, i32),
    SH(Gpr, Gpr, i32),
    SW(Gpr, Gpr, i32),
    // Conditional branches: the two compared registers and the offset.
    BEQ(Gpr, Gpr, i32),
    BNE(Gpr, Gpr, i32),
    BLT(Gpr, Gpr, i32),
    BGE(Gpr, Gpr, i32),
    BLTU(Gpr, Gpr, i32),
    BGEU(Gpr, Gpr, i32),
    // Jumps.
    JAL(Gpr, i32),
    JALR(Gpr, Gpr, i32),
    // Upper-immediate forms; the immediate sits in bits [31:12].
    LUI(Gpr, u32),
    AUIPC(Gpr, u32),
    // Environment calls.
    ECALL,
    EBREAK,
    // Instruction-fence extension.
    FENCE(Gpr, Gpr, i32),
    FENCEI(Gpr, Gpr, i32),
    // Control/status register access extension.
    CSRRW(Gpr, Gpr, Csr),
    CSRRS(Gpr, Gpr, Csr),
    CSRRC(Gpr, Gpr, Csr),
    CSRRWI(Gpr, u8, Csr),
    CSRRSI(Gpr, u8, Csr),
    CSRRCI(Gpr, u8, Csr),
    // Privileged trap/return instructions.
    SRET,
    MRET,
    WFI,
    // 64-bit loads and stores.
    LD(Gpr, Gpr, i32),
    LWU(Gpr, Gpr, i32),
    SD(Gpr, Gpr, i32),
    // 64-bit word-truncating immediate operations.
    ADDIW(Gpr, Gpr, i32),
    SLLIW(Gpr, Gpr, u8),
    SRLIW(Gpr, Gpr, u8),
    SRAIW(Gpr, Gpr, u8),
    // 64-bit word-truncating register-register operations.
    ADDW(Gpr, Gpr, Gpr),
    SUBW(Gpr, Gpr, Gpr),
    SLLW(Gpr, Gpr, Gpr),
    SRLW(Gpr, Gpr, Gpr),
    SRAW(Gpr, Gpr, Gpr),
    // Integer multiply extension.
    MUL(Gpr, Gpr, Gpr),
    MULH(Gpr, Gpr, Gpr),
    MULSU(Gpr, Gpr, Gpr),
    MULU(Gpr, Gpr, Gpr),
    MULW(Gpr, Gpr, Gpr),
    // Integer divide/remainder extension.
    DIV(Gpr, Gpr, Gpr),
    DIVU(Gpr, Gpr, Gpr),
    REM(Gpr, Gpr, Gpr),
    REMU(Gpr, Gpr, Gpr),
    DIVW(Gpr, Gpr, Gpr),
    DIVUW(Gpr, Gpr, Gpr),
    REMW(Gpr, Gpr, Gpr),
    REMUW(Gpr, Gpr, Gpr),
    // Load-reserved / store-conditional extension.
    LRW(Gpr, Gpr),
    SCW(Gpr, Gpr, Gpr),
    LRD(Gpr, Gpr),
    SCD(Gpr, Gpr, Gpr),
    // Atomic memory operations, word form.
    AMOSWAPW(Gpr, Gpr, Gpr),
    AMOADDW(Gpr, Gpr, Gpr),
    AMOXORW(Gpr, Gpr, Gpr),
    AMOANDW(Gpr, Gpr, Gpr),
    AMOORW(Gpr, Gpr, Gpr),
    AMOMINW(Gpr, Gpr, Gpr),
    AMOMAXW(Gpr, Gpr, Gpr),
    AMOMINUW(Gpr, Gpr, Gpr),
    AMOMAXUW(Gpr, Gpr, Gpr),
    // Atomic memory operations, doubleword form.
    AMOSWAPD(Gpr, Gpr, Gpr),
    AMOADDD(Gpr, Gpr, Gpr),
    AMOXORD(Gpr, Gpr, Gpr),
    AMOANDD(Gpr, Gpr, Gpr),
    AMOORD(Gpr, Gpr, Gpr),
    AMOMIND(Gpr, Gpr, Gpr),
    AMOMAXD(Gpr, Gpr, Gpr),
    AMOMINUD(Gpr, Gpr, Gpr),
    AMOMAXUD(Gpr, Gpr, Gpr),
    // Supervisor memory-management instructions.
    SFENCEVMA(Gpr, Gpr),
    SINVALVMA(Gpr, Gpr),
    SFENCEWINVAL,
    SFENCEINVALIR,
    // Hypervisor memory-management instructions.
    HFENCEVVMA(Gpr, Gpr),
    HFENCEGVMA(Gpr, Gpr),
    HINVALVVMA(Gpr, Gpr),
    HINVALGVMA(Gpr, Gpr),
    // Hypervisor virtual-machine loads: destination, guest address base.
    HLVB(Gpr, Gpr),
    HLVBU(Gpr, Gpr),
    HLVH(Gpr, Gpr),
    HLVHU(Gpr, Gpr),
    HLVXHU(Gpr, Gpr),
    HLVW(Gpr, Gpr),
    HLVXWU(Gpr, Gpr),
    // Hypervisor virtual-machine stores: guest address base, stored register.
    HSVB(Gpr, Gpr),
    HSVH(Gpr, Gpr),
    HSVW(Gpr, Gpr),
    // Hypervisor virtual-machine loads and stores of the 64-bit widths.
    HLVWU(Gpr, Gpr),
    HLVD(Gpr, Gpr),
    HSVD(Gpr, Gpr),
    // Compact quadrant 0.
    CILLEGAL,
    CUNDEF(u16),
    CADDI4SPN(Gpr, u32),
    CFLD(u8, Gpr, u32),
    CLQ(Gpr, Gpr, u32),
    CLW(Gpr, Gpr, u32),
    CFLW(u8, Gpr, u32),
    CLD(Gpr, Gpr, u32),
    CFSD(Gpr, u8, u32),
    CSQ(Gpr, Gpr, u32),
    CSW(Gpr, Gpr, u32),
    CFSW(Gpr, u8, u32),
    CSD(Gpr, Gpr, u32),
    // Compact quadrant 1.
    CADDI(Gpr, i32),
    CJAL(i32),
    CADDIW(Gpr, i32),
    CLI(Gpr, i32),
    CLUI(Gpr, i32),
    CJ(i32),
    CBEQZ(Gpr, i32),
    CBNEZ(Gpr, i32),
    // Compact quadrant 2.
    CSLLI(Gpr, u8),
    CSLLI64(Gpr),
    CFLDSP(u8, u32),
    CLWSP(Gpr, u32),
    CFLWSP(u8, u32),
    CJR(Gpr),
    CFSDSP(u8, u32),
    CSWSP(Gpr, u32),
    CFSWSP(u8, u32),
}

impl Inst {
    /// Every operand is within the range its field was cut from: shift
    /// amounts fit their five or six bits, 5-bit immediates and float
    /// register indices stay below 32, sign-extended immediates stay
    /// within their two's-complement range, branch and jump offsets are
    /// even, upper immediates are multiples of 4096, and the zero-extended
    /// compact offsets stay under their scaled widths. The decoder never
    /// constructs a value outside this predicate.
    pub open spec fn wf(self) -> bool {
        match self {
            Inst::SLLI(_, _, sh) => sh < 64,
            Inst::SRLI(_, _, sh) => sh < 64,
            Inst::SRAI(_, _, sh) => sh < 64,
            Inst::SLLIW(_, _, sh) => sh < 32,
            Inst::SRLIW(_, _, sh) => sh < 32,
            Inst::SRAIW(_, _, sh) => sh < 32,
            Inst::CSRRWI(_, z, _) => z < 32,
            Inst::CSRRSI(_, z, _) => z < 32,
            Inst::CSRRCI(_, z, _) => z < 32,
            Inst::ADDI(_, _, i) => -0x800 <= i < 0x800,
            Inst::XORI(_, _, i) => -0x800 <= i < 0x800,
            Inst::ORI(_, _, i) => -0x800 <= i < 0x800,
            Inst::ANDI(_, _, i) => -0x800 <= i < 0x800,
            Inst::SLTI(_, _, i) => -0x800 <= i < 0x800,
            Inst::ADDIW(_, _, i) => -0x800 <= i < 0x800,
            Inst::JALR(_, _, i) => -0x800 <= i < 0x800,
            Inst::FENCE(_, _, i) => -0x800 <= i < 0x800,
            Inst::FENCEI(_, _, i) => -0x800 <= i < 0x800,
            Inst::LB(_, _, i) => -0x800 <= i < 0x800,
            Inst::LH(_, _, i) => -0x800 <= i < 0x800,
            Inst::LW(_, _, i) => -0x800 <= i < 0x800,
            Inst::LD(_, _, i) => -0x800 <= i < 0x800,
            Inst::LBU(_, _, i) => -0x800 <= i < 0x800,
            Inst::LHU(_, _, i) => -0x800 <= i < 0x800,
            Inst::LWU(_, _, i) => -0x800 <= i < 0x800,
            Inst::SB(_, _, i) => -0x800 <= i < 0x800,
            Inst::SH(_, _, i) => -0x800 <= i < 0x800,
            Inst::SW(_, _, i) => -0x800 <= i < 0x800,
            Inst::SD(_, _, i) => -0x800 <= i < 0x800,
            Inst::BEQ(_, _, i) => -0x1000 <= i < 0x1000 && i % 2 == 0,
            Inst::BNE(_, _, i) => -0x1000 <= i < 0x1000 && i % 2 == 0,
            Inst::BLT(_, _, i) => -0x1000 <= i < 0x1000 && i % 2 == 0,
            Inst::BGE(_, _, i) => -0x1000 <= i < 0x1000 && i % 2 == 0,
            Inst::BLTU(_, _, i) => -0x1000 <= i < 0x1000 && i % 2 == 0,
            Inst::BGEU(_, _, i) => -0x1000 <= i < 0x1000 && i % 2 == 0,
            Inst::JAL(_, i) => -0x100000 <= i < 0x100000 && i % 2 == 0,
            Inst::LUI(_, u) => u % 0x1000 == 0,
            Inst::AUIPC(_, u) => u % 0x1000 == 0,
            Inst::CADDI4SPN(_, u) => u < 0x400,
            Inst::CFLD(f, _, u) => f < 32 && u < 0x100,
            Inst::CLQ(_, _, u) => u < 0x200,
            Inst::CLW(_, _, u) => u < 0x80,
            Inst::CFLW(f, _, u) => f < 32 && u < 0x80,
            Inst::CLD(_, _, u) => u < 0x100,
            Inst::CFSD(_, f, u) => f < 32 && u < 0x100,
            Inst::CSQ(_, _, u) => u < 0x200,
            Inst::CSW(_, _, u) => u < 0x80,
            Inst::CFSW(_, f, u) => f < 32 && u < 0x80,
            Inst::CSD(_, _, u) => u < 0x100,
            Inst::CADDI(_, i) => -0x20 <= i < 0x20,
            Inst::CJAL(i) => -0x800 <= i < 0x800 && i % 2 == 0,
            Inst::CADDIW(_, i) => -0x20 <= i < 0x20,
            Inst::CLI(_, i) => -0x20 <= i < 0x20,
            Inst::CLUI(_, i) => -0x20000 <= i < 0x20000 && i % 0x1000 == 0,
            Inst::CJ(i) => -0x800 <= i < 0x800 && i % 2 == 0,
            Inst::CBEQZ(_, i) => -0x100 <= i < 0x100 && i % 2 == 0,
            Inst::CBNEZ(_, i) => -0x100 <= i < 0x100 && i % 2 == 0,
            Inst::CSLLI(_, sh) => sh < 64,
            Inst::CFLDSP(f, u) => f < 32 && u < 0x200,
            Inst::CLWSP(_, u) => u < 0x100,
            Inst::CFLWSP(f, u) => f < 32 && u < 0x100,
            Inst::CFSDSP(f, u) => f < 32 && u < 0x200,
            Inst::CSWSP(_, u) => u < 0x100,
            Inst::CFSWSP(f, u) => f < 32 && u < 0x100,
            _ => true,
        }
    }
}

} // verus!
