//! The decode engine: reads one instruction from a byte source, determines
//! the instruction length from the low bits of the first byte, and
//! dispatches through the opcode/funct trees of the 16-bit compact and
//! 32-bit standard encodings.
//!
//! Decoding a word is a pure function of the word and the register-width
//! configuration: the spec functions here state that function, and the
//! executable engine is proved to compute exactly it. A word that matches
//! no assigned encoding decodes to an explicit undefined value; the only
//! failure is truncation of the byte source.

use vstd::prelude::*;
use crate::bytes::ByteReader;
use crate::csr::Csr;
use crate::csr::csr_at;
use crate::extr::b_imm_bits;
use crate::extr::c_b_imm_bits;
use crate::extr::c_ci_imm_bits;
use crate::extr::c_ci_rd_bits;
use crate::extr::c_ciw_uimm_bits;
use crate::extr::c_cr_rs2_bits;
use crate::extr::c_f3_bits;
use crate::extr::c_j_imm_bits;
use crate::extr::c_ld_uimm_bits;
use crate::extr::c_ldsp_uimm_bits;
use crate::extr::c_lq_uimm_bits;
use crate::extr::c_lui_imm_bits;
use crate::extr::c_lw_uimm_bits;
use crate::extr::c_lwsp_uimm_bits;
use crate::extr::c_rd_bits;
use crate::extr::c_rs1_bits;
use crate::extr::c_sdsp_uimm_bits;
use crate::extr::c_shamt_bits;
use crate::extr::c_swsp_uimm_bits;
use crate::extr::cb_imm_of;
use crate::extr::cfunct3_of;
use crate::extr::ci_rd_of;
use crate::extr::cimm6_of;
use crate::extr::ciw_uimm_of;
use crate::extr::cj_imm_of;
use crate::extr::cld_uimm_of;
use crate::extr::cldsp_uimm_of;
use crate::extr::clq_uimm_of;
use crate::extr::clui_imm_of;
use crate::extr::clw_uimm_of;
use crate::extr::clwsp_uimm_of;
use crate::extr::cr_rs2_of;
use crate::extr::crd_of;
use crate::extr::crs1_of;
use crate::extr::csdsp_uimm_of;
use crate::extr::cshamt_of;
use crate::extr::csr_addr_of;
use crate::extr::cswsp_uimm_of;
use crate::extr::f3_bits;
use crate::extr::f5_bits;
use crate::extr::f6_bits;
use crate::extr::f7_bits;
use crate::extr::funct3_of;
use crate::extr::funct5_of;
use crate::extr::funct6_of;
use crate::extr::funct7_of;
use crate::extr::i_imm_bits;
use crate::extr::imm_b_of;
use crate::extr::imm_i_of;
use crate::extr::imm_j_of;
use crate::extr::imm_s_of;
use crate::extr::imm_u_of;
use crate::extr::j_imm_bits;
use crate::extr::op_bits;
use crate::extr::opcode_of;
use crate::extr::rd_bits;
use crate::extr::rd_of;
use crate::extr::rs1_bits;
use crate::extr::rs1_of;
use crate::extr::rs2_bits;
use crate::extr::rs2_of;
use crate::extr::s_imm_bits;
use crate::extr::shamt32_imm_bits;
use crate::extr::shamt5_of;
use crate::extr::shamt64_imm_bits;
use crate::extr::shamt6_of;
use crate::extr::u_imm_bits;
use crate::gpr::Gpr;
use crate::gpr::gpr_at;
use crate::inst::Inst;

verus! {

/// The active integer register width. Every width-dependent decode rule
/// takes it as an explicit parameter; nothing is implicit or global.
#[derive(Copy, Clone, PartialEq, Eq, Structural, Debug)]
pub enum Xlen {
    Rv32,
    Rv64,
    Rv128,
}

/// A decode failure: fewer bytes were available than the instruction
/// length implied by the first byte. Every other outcome is a value —
/// unrecognized words decode to the explicit undefined instruction.
#[derive(Copy, Clone, PartialEq, Eq, Structural, Debug)]
pub enum DecodeError {
    Truncated,
}

/// The 16-bit instruction word assembled from two bytes, little-endian.
pub open spec fn spec_word16(b0: u8, b1: u8) -> u16 {
    (b0 as u16) | ((b1 as u16) << 8)
}

/// The 32-bit instruction word assembled from four bytes, little-endian.
pub open spec fn spec_word32(b0: u8, b1: u8, b2: u8, b3: u8) -> u32 {
    (b0 as u32) | ((b1 as u32) << 8) | ((b2 as u32) << 16) | ((b3 as u32) << 24)
}

/// What a compact quadrant-0 word decodes to: loads and stores of the
/// popular registers, and the stack-pointer add. The literal zero word is
/// the explicit illegal instruction, not an add.
pub open spec fn spec_decode_q0(w: u16, xlen: Xlen) -> Inst {
    let f3 = cfunct3_of(w);
    if f3 == 0b000 {
        if w == 0 {
            Inst::CILLEGAL
        } else {
            Inst::CADDI4SPN(gpr_at(crd_of(w)), ciw_uimm_of(w))
        }
    } else if f3 == 0b001 {
        if xlen is Rv128 {
            Inst::CLQ(gpr_at(crd_of(w)), gpr_at(crs1_of(w)), clq_uimm_of(w))
        } else {
            Inst::CFLD(crd_of(w), gpr_at(crs1_of(w)), cld_uimm_of(w))
        }
    } else if f3 == 0b010 {
        Inst::CLW(gpr_at(crd_of(w)), gpr_at(crs1_of(w)), clw_uimm_of(w))
    } else if f3 == 0b011 {
        if xlen is Rv32 {
            Inst::CFLW(crd_of(w), gpr_at(crs1_of(w)), clw_uimm_of(w))
        } else {
            Inst::CLD(gpr_at(crd_of(w)), gpr_at(crs1_of(w)), cld_uimm_of(w))
        }
    } else if f3 == 0b101 {
        if xlen is Rv128 {
            Inst::CSQ(gpr_at(crs1_of(w)), gpr_at(crd_of(w)), clq_uimm_of(w))
        } else {
            Inst::CFSD(gpr_at(crs1_of(w)), crd_of(w), cld_uimm_of(w))
        }
    } else if f3 == 0b110 {
        Inst::CSW(gpr_at(crs1_of(w)), gpr_at(crd_of(w)), clw_uimm_of(w))
    } else if f3 == 0b111 {
        if xlen is Rv32 {
            Inst::CFSW(gpr_at(crs1_of(w)), crd_of(w), clw_uimm_of(w))
        } else {
            Inst::CSD(gpr_at(crs1_of(w)), gpr_at(crd_of(w)), cld_uimm_of(w))
        }
    } else {
        Inst::CUNDEF(w)
    }
}

/// What a compact quadrant-1 word decodes to: immediate arithmetic, the
/// narrow jumps and the compare-with-zero branches. The jump-and-link
/// form exists only at width 32; the wider configurations decode the same
/// funct3 as the add-word immediate.
pub open spec fn spec_decode_q1(w: u16, xlen: Xlen) -> Inst {
    let f3 = cfunct3_of(w);
    if f3 == 0b000 {
        Inst::CADDI(gpr_at(ci_rd_of(w)), cimm6_of(w) as i32)
    } else if f3 == 0b001 {
        if xlen is Rv32 {
            Inst::CJAL(cj_imm_of(w) as i32)
        } else {
            Inst::CADDIW(gpr_at(ci_rd_of(w)), cimm6_of(w) as i32)
        }
    } else if f3 == 0b010 {
        Inst::CLI(gpr_at(ci_rd_of(w)), cimm6_of(w) as i32)
    } else if f3 == 0b011 {
        Inst::CLUI(gpr_at(ci_rd_of(w)), clui_imm_of(w) as i32)
    } else if f3 == 0b101 {
        Inst::CJ(cj_imm_of(w) as i32)
    } else if f3 == 0b110 {
        Inst::CBEQZ(gpr_at(crs1_of(w)), cb_imm_of(w) as i32)
    } else if f3 == 0b111 {
        Inst::CBNEZ(gpr_at(crs1_of(w)), cb_imm_of(w) as i32)
    } else {
        Inst::CUNDEF(w)
    }
}

/// What a compact quadrant-2 word decodes to: shifts and stack-relative
/// loads and stores of the full register file. The plain shift-left form
/// belongs to width 32; the wider configurations decode the
/// shift-by-sixty-four form.
pub open spec fn spec_decode_q2(w: u16, xlen: Xlen) -> Inst {
    let f3 = cfunct3_of(w);
    if f3 == 0b000 {
        if xlen is Rv32 {
            Inst::CSLLI(gpr_at(ci_rd_of(w)), cshamt_of(w))
        } else {
            Inst::CSLLI64(gpr_at(ci_rd_of(w)))
        }
    } else if f3 == 0b001 {
        Inst::CFLDSP(ci_rd_of(w), cldsp_uimm_of(w))
    } else if f3 == 0b010 {
        Inst::CLWSP(gpr_at(ci_rd_of(w)), clwsp_uimm_of(w))
    } else if f3 == 0b011 {
        Inst::CFLWSP(ci_rd_of(w), clwsp_uimm_of(w))
    } else if f3 == 0b100 {
        Inst::CJR(gpr_at(ci_rd_of(w)))
    } else if f3 == 0b101 {
        Inst::CFSDSP(cr_rs2_of(w), csdsp_uimm_of(w))
    } else if f3 == 0b110 {
        Inst::CSWSP(gpr_at(cr_rs2_of(w)), cswsp_uimm_of(w))
    } else if f3 == 0b111 {
        Inst::CFSWSP(cr_rs2_of(w), cswsp_uimm_of(w))
    } else {
        Inst::CUNDEF(w)
    }
}

/// What a load-opcode word decodes to: funct3 selects the width and the
/// signedness.
pub open spec fn spec_dec_load(w: u32) -> Inst {
    let f3 = funct3_of(w);
    let d = gpr_at(rd_of(w));
    let s1 = gpr_at(rs1_of(w));
    let imm = imm_i_of(w) as i32;
    if f3 == 0b000 {
        Inst::LB(d, s1, imm)
    } else if f3 == 0b001 {
        Inst::LH(d, s1, imm)
    } else if f3 == 0b010 {
        Inst::LW(d, s1, imm)
    } else if f3 == 0b011 {
        Inst::LD(d, s1, imm)
    } else if f3 == 0b100 {
        Inst::LBU(d, s1, imm)
    } else if f3 == 0b101 {
        Inst::LHU(d, s1, imm)
    } else if f3 == 0b110 {
        Inst::LWU(d, s1, imm)
    } else {
        Inst::UNDEF(w)
    }
}

/// What a fence-opcode word decodes to.
pub open spec fn spec_dec_misc_mem(w: u32) -> Inst {
    let f3 = funct3_of(w);
    if f3 == 0b000 {
        Inst::FENCE(gpr_at(rd_of(w)), gpr_at(rs1_of(w)), imm_i_of(w) as i32)
    } else if f3 == 0b001 {
        Inst::FENCEI(gpr_at(rd_of(w)), gpr_at(rs1_of(w)), imm_i_of(w) as i32)
    } else {
        Inst::UNDEF(w)
    }
}

/// What an immediate-arithmetic word decodes to. The shift forms narrow
/// further by funct7 — by funct6 on the register-width configurations of
/// 64 and above, where one more bit belongs to the shift amount.
pub open spec fn spec_dec_op_imm(w: u32, xlen: Xlen) -> Inst {
    let f3 = funct3_of(w);
    let d = gpr_at(rd_of(w));
    let s1 = gpr_at(rs1_of(w));
    let imm = imm_i_of(w) as i32;
    if f3 == 0b000 {
        Inst::ADDI(d, s1, imm)
    } else if f3 == 0b001 {
        if xlen is Rv32 {
            if funct7_of(w) == 0x00 {
                Inst::SLLI(d, s1, shamt5_of(w))
            } else {
                Inst::UNDEF(w)
            }
        } else {
            if funct6_of(w) == 0x00 {
                Inst::SLLI(d, s1, shamt6_of(w))
            } else {
                Inst::UNDEF(w)
            }
        }
    } else if f3 == 0b010 {
        Inst::SLTI(d, s1, imm)
    } else if f3 == 0b011 {
        Inst::SLTUI(d, s1, imm_i_of(w) as u32)
    } else if f3 == 0b100 {
        Inst::XORI(d, s1, imm)
    } else if f3 == 0b101 {
        if xlen is Rv32 {
            if funct7_of(w) == 0x00 {
                Inst::SRLI(d, s1, shamt5_of(w))
            } else if funct7_of(w) == 0x20 {
                Inst::SRAI(d, s1, shamt5_of(w))
            } else {
                Inst::UNDEF(w)
            }
        } else {
            if funct6_of(w) == 0x00 {
                Inst::SRLI(d, s1, shamt6_of(w))
            } else if funct6_of(w) == 0x10 {
                Inst::SRAI(d, s1, shamt6_of(w))
            } else {
                Inst::UNDEF(w)
            }
        }
    } else if f3 == 0b110 {
        Inst::ORI(d, s1, imm)
    } else {
        Inst::ANDI(d, s1, imm)
    }
}

/// What a word-truncating immediate-arithmetic word decodes to; available
/// from width 64 up, with a 5-bit shift amount and funct7 dispatch.
pub open spec fn spec_dec_op_imm32(w: u32) -> Inst {
    let f3 = funct3_of(w);
    let d = gpr_at(rd_of(w));
    let s1 = gpr_at(rs1_of(w));
    if f3 == 0b000 {
        Inst::ADDIW(d, s1, imm_i_of(w) as i32)
    } else if f3 == 0b001 {
        if funct7_of(w) == 0x00 {
            Inst::SLLIW(d, s1, shamt5_of(w))
        } else {
            Inst::UNDEF(w)
        }
    } else if f3 == 0b101 {
        if funct7_of(w) == 0x00 {
            Inst::SRLIW(d, s1, shamt5_of(w))
        } else if funct7_of(w) == 0x20 {
            Inst::SRAIW(d, s1, shamt5_of(w))
        } else {
            Inst::UNDEF(w)
        }
    } else {
        Inst::UNDEF(w)
    }
}

/// What a store-opcode word decodes to: funct3 selects the width.
pub open spec fn spec_dec_store(w: u32) -> Inst {
    let f3 = funct3_of(w);
    let s1 = gpr_at(rs1_of(w));
    let s2 = gpr_at(rs2_of(w));
    let imm = imm_s_of(w) as i32;
    if f3 == 0b000 {
        Inst::SB(s1, s2, imm)
    } else if f3 == 0b001 {
        Inst::SH(s1, s2, imm)
    } else if f3 == 0b010 {
        Inst::SW(s1, s2, imm)
    } else if f3 == 0b011 {
        Inst::SD(s1, s2, imm)
    } else {
        Inst::UNDEF(w)
    }
}

/// What an atomic-memory word decodes to: funct3 selects word or
/// doubleword operands, funct5 the operation. The load-reserved form
/// requires its second source-register field to be zero.
pub open spec fn spec_dec_amo(w: u32) -> Inst {
    let f3 = funct3_of(w);
    let f5 = funct5_of(w);
    let d = gpr_at(rd_of(w));
    let s1 = gpr_at(rs1_of(w));
    let s2 = gpr_at(rs2_of(w));
    if f3 == 0b010 {
        if f5 == 0b00010 {
            if rs2_of(w) == 0 {
                Inst::LRW(d, s1)
            } else {
                Inst::UNDEF(w)
            }
        } else if f5 == 0b00011 {
            Inst::SCW(d, s1, s2)
        } else if f5 == 0b00001 {
            Inst::AMOSWAPW(d, s1, s2)
        } else if f5 == 0b00000 {
            Inst::AMOADDW(d, s1, s2)
        } else if f5 == 0b00100 {
            Inst::AMOXORW(d, s1, s2)
        } else if f5 == 0b01100 {
            Inst::AMOANDW(d, s1, s2)
        } else if f5 == 0b01000 {
            Inst::AMOORW(d, s1, s2)
        } else if f5 == 0b10000 {
            Inst::AMOMINW(d, s1, s2)
        } else if f5 == 0b10100 {
            Inst::AMOMAXW(d, s1, s2)
        } else if f5 == 0b11000 {
            Inst::AMOMINUW(d, s1, s2)
        } else if f5 == 0b11100 {
            Inst::AMOMAXUW(d, s1, s2)
        } else {
            Inst::UNDEF(w)
        }
    } else if f3 == 0b011 {
        if f5 == 0b00010 {
            if rs2_of(w) == 0 {
                Inst::LRD(d, s1)
            } else {
                Inst::UNDEF(w)
            }
        } else if f5 == 0b00011 {
            Inst::SCD(d, s1, s2)
        } else if f5 == 0b00001 {
            Inst::AMOSWAPD(d, s1, s2)
        } else if f5 == 0b00000 {
            Inst::AMOADDD(d, s1, s2)
        } else if f5 == 0b00100 {
            Inst::AMOXORD(d, s1, s2)
        } else if f5 == 0b01100 {
            Inst::AMOANDD(d, s1, s2)
        } else if f5 == 0b01000 {
            Inst::AMOORD(d, s1, s2)
        } else if f5 == 0b10000 {
            Inst::AMOMIND(d, s1, s2)
        } else if f5 == 0b10100 {
            Inst::AMOMAXD(d, s1, s2)
        } else if f5 == 0b11000 {
            Inst::AMOMINUD(d, s1, s2)
        } else if f5 == 0b11100 {
            Inst::AMOMAXUD(d, s1, s2)
        } else {
            Inst::UNDEF(w)
        }
    } else {
        Inst::UNDEF(w)
    }
}

/// What a register-register arithmetic word decodes to: funct3 then
/// funct7, with funct7 = 1 naming the multiply/divide extension.
pub open spec fn spec_dec_op(w: u32) -> Inst {
    let f3 = funct3_of(w);
    let f7 = funct7_of(w);
    let d = gpr_at(rd_of(w));
    let s1 = gpr_at(rs1_of(w));
    let s2 = gpr_at(rs2_of(w));
    if f3 == 0b000 {
        if f7 == 0x00 {
            Inst::ADD(d, s1, s2)
        } else if f7 == 0x01 {
            Inst::MUL(d, s1, s2)
        } else if f7 == 0x20 {
            Inst::SUB(d, s1, s2)
        } else {
            Inst::UNDEF(w)
        }
    } else if f3 == 0b001 {
        if f7 == 0x00 {
            Inst::SLL(d, s1, s2)
        } else if f7 == 0x01 {
            Inst::MULH(d, s1, s2)
        } else {
            Inst::UNDEF(w)
        }
    } else if f3 == 0b010 {
        if f7 == 0x00 {
            Inst::SLT(d, s1, s2)
        } else if f7 == 0x01 {
            Inst::MULSU(d, s1, s2)
        } else {
            Inst::UNDEF(w)
        }
    } else if f3 == 0b011 {
        if f7 == 0x00 {
            Inst::SLTU(d, s1, s2)
        } else if f7 == 0x01 {
            Inst::MULU(d, s1, s2)
        } else {
            Inst::UNDEF(w)
        }
    } else if f3 == 0b100 {
        if f7 == 0x00 {
            Inst::XOR(d, s1, s2)
        } else if f7 == 0x01 {
            Inst::DIV(d, s1, s2)
        } else {
            Inst::UNDEF(w)
        }
    } else if f3 == 0b101 {
        if f7 == 0x00 {
            Inst::SRL(d, s1, s2)
        } else if f7 == 0x01 {
            Inst::DIVU(d, s1, s2)
        } else if f7 == 0x20 {
            Inst::SRA(d, s1, s2)
        } else {
            Inst::UNDEF(w)
        }
    } else if f3 == 0b110 {
        if f7 == 0x00 {
            Inst::OR(d, s1, s2)
        } else if f7 == 0x01 {
            Inst::REM(d, s1, s2)
        } else {
            Inst::UNDEF(w)
        }
    } else {
        if f7 == 0x00 {
            Inst::AND(d, s1, s2)
        } else if f7 == 0x01 {
            Inst::REMU(d, s1, s2)
        } else {
            Inst::UNDEF(w)
        }
    }
}

/// What a word-truncating register-register word decodes to; available
/// from width 64 up.
pub open spec fn spec_dec_op32(w: u32) -> Inst {
    let f3 = funct3_of(w);
    let f7 = funct7_of(w);
    let d = gpr_at(rd_of(w));
    let s1 = gpr_at(rs1_of(w));
    let s2 = gpr_at(rs2_of(w));
    if f3 == 0b000 {
        if f7 == 0x00 {
            Inst::ADDW(d, s1, s2)
        } else if f7 == 0x01 {
            Inst::MULW(d, s1, s2)
        } else if f7 == 0x20 {
            Inst::SUBW(d, s1, s2)
        } else {
            Inst::UNDEF(w)
        }
    } else if f3 == 0b001 {
        if f7 == 0x00 {
            Inst::SLLW(d, s1, s2)
        } else {
            Inst::UNDEF(w)
        }
    } else if f3 == 0b100 {
        if f7 == 0x01 {
            Inst::DIVW(d, s1, s2)
        } else {
            Inst::UNDEF(w)
        }
    } else if f3 == 0b101 {
        if f7 == 0x00 {
            Inst::SRLW(d, s1, s2)
        } else if f7 == 0x01 {
            Inst::DIVUW(d, s1, s2)
        } else if f7 == 0x20 {
            Inst::SRAW(d, s1, s2)
        } else {
            Inst::UNDEF(w)
        }
    } else if f3 == 0b110 {
        if f7 == 0x01 {
            Inst::REMW(d, s1, s2)
        } else {
            Inst::UNDEF(w)
        }
    } else if f3 == 0b111 {
        if f7 == 0x01 {
            Inst::REMUW(d, s1, s2)
        } else {
            Inst::UNDEF(w)
        }
    } else {
        Inst::UNDEF(w)
    }
}

/// What a conditional-branch word decodes to: funct3 selects the
/// comparison.
pub open spec fn spec_dec_branch(w: u32) -> Inst {
    let f3 = funct3_of(w);
    let s1 = gpr_at(rs1_of(w));
    let s2 = gpr_at(rs2_of(w));
    let imm = imm_b_of(w) as i32;
    if f3 == 0b000 {
        Inst::BEQ(s1, s2, imm)
    } else if f3 == 0b001 {
        Inst::BNE(s1, s2, imm)
    } else if f3 == 0b100 {
        Inst::BLT(s1, s2, imm)
    } else if f3 == 0b101 {
        Inst::BGE(s1, s2, imm)
    } else if f3 == 0b110 {
        Inst::BLTU(s1, s2, imm)
    } else if f3 == 0b111 {
        Inst::BGEU(s1, s2, imm)
    } else {
        Inst::UNDEF(w)
    }
}

/// What a system-opcode word decodes to. funct3 = 0 looks the tuple
/// (funct7, rs2, rs1, rd) up in the privileged/fence table; funct3 = 4
/// looks (funct7, rs2, rd) up in the hypervisor load/store table; the six
/// remaining funct3 values are the control/status register forms, whose
/// address is always the top 12 bits of the word.
pub open spec fn spec_dec_system(w: u32) -> Inst {
    let f3 = funct3_of(w);
    let d = gpr_at(rd_of(w));
    let s1 = gpr_at(rs1_of(w));
    let s2 = gpr_at(rs2_of(w));
    let c = csr_at(csr_addr_of(w));
    if f3 == 0b000 {
        match (funct7_of(w), rs2_of(w), rs1_of(w), rd_of(w)) {
            (0b0000000, 0b00000, 0b00000, 0b00000) => Inst::ECALL,
            (0b0000000, 0b00001, 0b00000, 0b00000) => Inst::EBREAK,
            (0b0001000, 0b00010, 0b00000, 0b00000) => Inst::SRET,
            (0b0011000, 0b00010, 0b00000, 0b00000) => Inst::MRET,
            (0b0001000, 0b00101, 0b00000, 0b00000) => Inst::WFI,
            (0b0001001, _, _, 0b00000) => Inst::SFENCEVMA(s1, s2),
            (0b0001011, _, _, 0b00000) => Inst::SINVALVMA(s1, s2),
            (0b0001100, 0b00000, 0b00000, 0b00000) => Inst::SFENCEWINVAL,
            (0b0001100, 0b00001, 0b00000, 0b00000) => Inst::SFENCEINVALIR,
            (0b0010001, _, _, 0b00000) => Inst::HFENCEVVMA(s1, s2),
            (0b0110001, _, _, 0b00000) => Inst::HFENCEGVMA(s1, s2),
            (0b0010011, _, _, 0b00000) => Inst::HINVALVVMA(s1, s2),
            (0b0110011, _, _, 0b00000) => Inst::HINVALGVMA(s1, s2),
            _ => Inst::UNDEF(w),
        }
    } else if f3 == 0b100 {
        match (funct7_of(w), rs2_of(w), rd_of(w)) {
            (0b0110000, 0b00000, _) => Inst::HLVB(d, s1),
            (0b0110000, 0b00001, _) => Inst::HLVBU(d, s1),
            (0b0110010, 0b00000, _) => Inst::HLVH(d, s1),
            (0b0110010, 0b00001, _) => Inst::HLVHU(d, s1),
            (0b0110010, 0b00011, _) => Inst::HLVXHU(d, s1),
            (0b0110100, 0b00000, _) => Inst::HLVW(d, s1),
            (0b0110100, 0b00011, _) => Inst::HLVXWU(d, s1),
            (0b0110001, _, 0b00000) => Inst::HSVB(s1, s2),
            (0b0110011, _, 0b00000) => Inst::HSVH(s1, s2),
            (0b0110101, _, 0b00000) => Inst::HSVW(s1, s2),
            (0b0110100, 0b00001, _) => Inst::HLVWU(d, s1),
            (0b0110110, 0b00000, _) => Inst::HLVD(d, s1),
            (0b0110111, _, 0b00000) => Inst::HSVD(s1, s2),
            _ => Inst::UNDEF(w),
        }
    } else if f3 == 0b001 {
        Inst::CSRRW(d, s1, c)
    } else if f3 == 0b010 {
        Inst::CSRRS(d, s1, c)
    } else if f3 == 0b011 {
        Inst::CSRRC(d, s1, c)
    } else if f3 == 0b101 {
        Inst::CSRRWI(d, rs1_of(w), c)
    } else if f3 == 0b110 {
        Inst::CSRRSI(d, rs1_of(w), c)
    } else {
        Inst::CSRRCI(d, rs1_of(w), c)
    }
}

/// What a 32-bit standard word decodes to: dispatch by opcode, then the
/// per-class trees above. Total over the full word space — an unassigned
/// pattern is the undefined value carrying the raw word.
pub open spec fn spec_decode32(w: u32, xlen: Xlen) -> Inst {
    let op = opcode_of(w);
    if op == 0b00000 {
        spec_dec_load(w)
    } else if op == 0b00011 {
        spec_dec_misc_mem(w)
    } else if op == 0b00100 {
        spec_dec_op_imm(w, xlen)
    } else if op == 0b00101 {
        Inst::AUIPC(gpr_at(rd_of(w)), imm_u_of(w))
    } else if op == 0b00110 {
        spec_dec_op_imm32(w)
    } else if op == 0b01000 {
        spec_dec_store(w)
    } else if op == 0b01011 {
        spec_dec_amo(w)
    } else if op == 0b01100 {
        spec_dec_op(w)
    } else if op == 0b01101 {
        Inst::LUI(gpr_at(rd_of(w)), imm_u_of(w))
    } else if op == 0b01110 {
        spec_dec_op32(w)
    } else if op == 0b11000 {
        spec_dec_branch(w)
    } else if op == 0b11001 {
        Inst::JALR(gpr_at(rd_of(w)), gpr_at(rs1_of(w)), imm_i_of(w) as i32)
    } else if op == 0b11011 {
        Inst::JAL(gpr_at(rd_of(w)), imm_j_of(w) as i32)
    } else if op == 0b11100 {
        spec_dec_system(w)
    } else {
        Inst::UNDEF(w)
    }
}

/// What a 16-bit word decodes to, by its quadrant (its low two bits).
/// The standard quadrant 3 never reaches this function.
pub open spec fn spec_decode16(w: u16, xlen: Xlen) -> Inst {
    let q = w & 0b11;
    if q == 0b00 {
        spec_decode_q0(w, xlen)
    } else if q == 0b01 {
        spec_decode_q1(w, xlen)
    } else if q == 0b10 {
        spec_decode_q2(w, xlen)
    } else {
        Inst::CUNDEF(w)
    }
}

/// No instruction is ever constructed with out-of-range operands: every
/// decoding of a 32-bit standard word satisfies the operand-range
/// predicate of the instruction model.
pub proof fn lemma_decode32_in_range(w: u32, xlen: Xlen)
    ensures
        spec_decode32(w, xlen).wf(),
{
    crate::extr::lemma_field_bounds(w);
    crate::extr::lemma_imm_field_ranges(w);
    crate::extr::lemma_branch_jump_imm_even(w);
}

/// No instruction is ever constructed with out-of-range operands: every
/// decoding of a 16-bit compact word satisfies the operand-range
/// predicate of the instruction model.
pub proof fn lemma_decode16_in_range(w: u16, xlen: Xlen)
    ensures
        spec_decode16(w, xlen).wf(),
{
    crate::extr::lemma_compact_field_bounds(w);
    crate::extr::lemma_compact_imm_ranges(w);
}

// ---------------------------------------------------------------------------
// Executable register construction.
// ---------------------------------------------------------------------------

/// The destination register of a 32-bit word.
fn rd(w: u32) -> (g: Gpr)
    ensures
        g == gpr_at(rd_of(w)),
{
    Gpr::from_u8(rd_bits(w)).unwrap()
}

/// The first source register of a 32-bit word.
fn rs1(w: u32) -> (g: Gpr)
    ensures
        g == gpr_at(rs1_of(w)),
{
    Gpr::from_u8(rs1_bits(w)).unwrap()
}

/// The second source register of a 32-bit word.
fn rs2(w: u32) -> (g: Gpr)
    ensures
        g == gpr_at(rs2_of(w)),
{
    Gpr::from_u8(rs2_bits(w)).unwrap()
}

/// The control/status register symbol named by the top 12 bits of a
/// 32-bit word.
fn csr(w: u32) -> (c: Csr)
    ensures
        c == csr_at(csr_addr_of(w)),
{
    Csr::from_u16(((w >> 20) & 0xfff) as u16)
}

/// The popular-register operand rd'/rs2' of a compact word.
fn crd(w: u16) -> (g: Gpr)
    ensures
        g == gpr_at(crd_of(w)),
{
    Gpr::from_u8(c_rd_bits(w)).unwrap()
}

/// The popular-register operand rs1' of a compact word.
fn crs1(w: u16) -> (g: Gpr)
    ensures
        g == gpr_at(crs1_of(w)),
{
    Gpr::from_u8(c_rs1_bits(w)).unwrap()
}

/// The full register operand rd/rs1 of a compact word.
fn ci_rd(w: u16) -> (g: Gpr)
    ensures
        g == gpr_at(ci_rd_of(w)),
{
    Gpr::from_u8(c_ci_rd_bits(w)).unwrap()
}

/// The full register operand rs2 of a compact word.
fn cr_rs2(w: u16) -> (g: Gpr)
    ensures
        g == gpr_at(cr_rs2_of(w)),
{
    Gpr::from_u8(c_cr_rs2_bits(w)).unwrap()
}

// ---------------------------------------------------------------------------
// The quadrant decoders. Each reads the remainder of its instruction from
// the byte source and computes exactly the spec-level decoding of the
// assembled word.
// ---------------------------------------------------------------------------

/// Decode the rest of a quadrant-0 compact instruction, whose first byte
/// was already read.
fn decode_quadrant0<R: ByteReader>(bytes: &mut R, b0: u8, xlen: Xlen) -> (r: Result<
    (Inst, u8),
    DecodeError,
>)
    ensures
        old(bytes).remaining().len() == 0 ==> r == Err::<(Inst, u8), DecodeError>(
            DecodeError::Truncated,
        ) && final (bytes).remaining().len() == 0,
        old(bytes).remaining().len() > 0 ==> r == Ok::<(Inst, u8), DecodeError>(
            (spec_decode_q0(spec_word16(b0, old(bytes).remaining()[0]), xlen), 2),
        ) && final (bytes).remaining() == old(bytes).remaining().drop_first(),
{
    let wn = match bytes.next() {
        None => { return Err(DecodeError::Truncated) },
        Some(b) => b,
    };
    let w: u16 = (b0 as u16) | ((wn as u16) << 8);
    let f3 = c_f3_bits(w);
    let i = if f3 == 0b000 {
        if w == 0 {
            Inst::CILLEGAL
        } else {
            Inst::CADDI4SPN(crd(w), c_ciw_uimm_bits(w))
        }
    } else if f3 == 0b001 {
        if matches!(xlen, Xlen::Rv128) {
            Inst::CLQ(crd(w), crs1(w), c_lq_uimm_bits(w))
        } else {
            Inst::CFLD(c_rd_bits(w), crs1(w), c_ld_uimm_bits(w))
        }
    } else if f3 == 0b010 {
        Inst::CLW(crd(w), crs1(w), c_lw_uimm_bits(w))
    } else if f3 == 0b011 {
        if matches!(xlen, Xlen::Rv32) {
            Inst::CFLW(c_rd_bits(w), crs1(w), c_lw_uimm_bits(w))
        } else {
            Inst::CLD(crd(w), crs1(w), c_ld_uimm_bits(w))
        }
    } else if f3 == 0b101 {
        if matches!(xlen, Xlen::Rv128) {
            Inst::CSQ(crs1(w), crd(w), c_lq_uimm_bits(w))
        } else {
            Inst::CFSD(crs1(w), c_rd_bits(w), c_ld_uimm_bits(w))
        }
    } else if f3 == 0b110 {
        Inst::CSW(crs1(w), crd(w), c_lw_uimm_bits(w))
    } else if f3 == 0b111 {
        if matches!(xlen, Xlen::Rv32) {
            Inst::CFSW(crs1(w), c_rd_bits(w), c_lw_uimm_bits(w))
        } else {
            Inst::CSD(crs1(w), crd(w), c_ld_uimm_bits(w))
        }
    } else {
        Inst::CUNDEF(w)
    };
    Ok((i, 2))
}

/// Decode the rest of a quadrant-1 compact instruction, whose first byte
/// was already read.
fn decode_quadrant1<R: ByteReader>(bytes: &mut R, b0: u8, xlen: Xlen) -> (r: Result<
    (Inst, u8),
    DecodeError,
>)
    ensures
        old(bytes).remaining().len() == 0 ==> r == Err::<(Inst, u8), DecodeError>(
            DecodeError::Truncated,
        ) && final (bytes).remaining().len() == 0,
        old(bytes).remaining().len() > 0 ==> r == Ok::<(Inst, u8), DecodeError>(
            (spec_decode_q1(spec_word16(b0, old(bytes).remaining()[0]), xlen), 2),
        ) && final (bytes).remaining() == old(bytes).remaining().drop_first(),
{
    let wn = match bytes.next() {
        None => { return Err(DecodeError::Truncated) },
        Some(b) => b,
    };
    let w: u16 = (b0 as u16) | ((wn as u16) << 8);
    let f3 = c_f3_bits(w);
    let i = if f3 == 0b000 {
        Inst::CADDI(ci_rd(w), c_ci_imm_bits(w))
    } else if f3 == 0b001 {
        if matches!(xlen, Xlen::Rv32) {
            Inst::CJAL(c_j_imm_bits(w))
        } else {
            Inst::CADDIW(ci_rd(w), c_ci_imm_bits(w))
        }
    } else if f3 == 0b010 {
        Inst::CLI(ci_rd(w), c_ci_imm_bits(w))
    } else if f3 == 0b011 {
        Inst::CLUI(ci_rd(w), c_lui_imm_bits(w))
    } else if f3 == 0b101 {
        Inst::CJ(c_j_imm_bits(w))
    } else if f3 == 0b110 {
        Inst::CBEQZ(crs1(w), c_b_imm_bits(w))
    } else if f3 == 0b111 {
        Inst::CBNEZ(crs1(w), c_b_imm_bits(w))
    } else {
        Inst::CUNDEF(w)
    };
    Ok((i, 2))
}

/// Decode the rest of a quadrant-2 compact instruction, whose first byte
/// was already read.
fn decode_quadrant2<R: ByteReader>(bytes: &mut R, b0: u8, xlen: Xlen) -> (r: Result<
    (Inst, u8),
    DecodeError,
>)
    ensures
        old(bytes).remaining().len() == 0 ==> r == Err::<(Inst, u8), DecodeError>(
            DecodeError::Truncated,
        ) && final (bytes).remaining().len() == 0,
        old(bytes).remaining().len() > 0 ==> r == Ok::<(Inst, u8), DecodeError>(
            (spec_decode_q2(spec_word16(b0, old(bytes).remaining()[0]), xlen), 2),
        ) && final (bytes).remaining() == old(bytes).remaining().drop_first(),
{
    let wn = match bytes.next() {
        None => { return Err(DecodeError::Truncated) },
        Some(b) => b,
    };
    let w: u16 = (b0 as u16) | ((wn as u16) << 8);
    let f3 = c_f3_bits(w);
    let i = if f3 == 0b000 {
        if matches!(xlen, Xlen::Rv32) {
            Inst::CSLLI(ci_rd(w), c_shamt_bits(w))
        } else {
            Inst::CSLLI64(ci_rd(w))
        }
    } else if f3 == 0b001 {
        Inst::CFLDSP(c_ci_rd_bits(w), c_ldsp_uimm_bits(w))
    } else if f3 == 0b010 {
        Inst::CLWSP(ci_rd(w), c_lwsp_uimm_bits(w))
    } else if f3 == 0b011 {
        Inst::CFLWSP(c_ci_rd_bits(w), c_lwsp_uimm_bits(w))
    } else if f3 == 0b100 {
        Inst::CJR(ci_rd(w))
    } else if f3 == 0b101 {
        Inst::CFSDSP(c_cr_rs2_bits(w), c_sdsp_uimm_bits(w))
    } else if f3 == 0b110 {
        Inst::CSWSP(cr_rs2(w), c_swsp_uimm_bits(w))
    } else if f3 == 0b111 {
        Inst::CFSWSP(c_cr_rs2_bits(w), c_swsp_uimm_bits(w))
    } else {
        Inst::CUNDEF(w)
    };
    Ok((i, 2))
}

/// Decode a load-opcode word.
fn dec_load(w: u32) -> (i: Inst)
    ensures
        i == spec_dec_load(w),
{
    match f3_bits(w) {
        0b000 => Inst::LB(rd(w), rs1(w), i_imm_bits(w)),
        0b001 => Inst::LH(rd(w), rs1(w), i_imm_bits(w)),
        0b010 => Inst::LW(rd(w), rs1(w), i_imm_bits(w)),
        0b011 => Inst::LD(rd(w), rs1(w), i_imm_bits(w)),
        0b100 => Inst::LBU(rd(w), rs1(w), i_imm_bits(w)),
        0b101 => Inst::LHU(rd(w), rs1(w), i_imm_bits(w)),
        0b110 => Inst::LWU(rd(w), rs1(w), i_imm_bits(w)),
        _ => Inst::UNDEF(w),
    }
}

/// Decode a fence-opcode word.
fn dec_misc_mem(w: u32) -> (i: Inst)
    ensures
        i == spec_dec_misc_mem(w),
{
    match f3_bits(w) {
        0b000 => Inst::FENCE(rd(w), rs1(w), i_imm_bits(w)),
        0b001 => Inst::FENCEI(rd(w), rs1(w), i_imm_bits(w)),
        _ => Inst::UNDEF(w),
    }
}

/// Decode an immediate-arithmetic word.
fn dec_op_imm(w: u32, xlen: Xlen) -> (i: Inst)
    ensures
        i == spec_dec_op_imm(w, xlen),
{
    match f3_bits(w) {
        0b000 => Inst::ADDI(rd(w), rs1(w), i_imm_bits(w)),
        0b001 => {
            if matches!(xlen, Xlen::Rv32) {
                match f7_bits(w) {
                    0x00 => Inst::SLLI(rd(w), rs1(w), shamt32_imm_bits(w)),
                    _ => Inst::UNDEF(w),
                }
            } else {
                match f6_bits(w) {
                    0x00 => Inst::SLLI(rd(w), rs1(w), shamt64_imm_bits(w)),
                    _ => Inst::UNDEF(w),
                }
            }
        },
        0b010 => Inst::SLTI(rd(w), rs1(w), i_imm_bits(w)),
        0b011 => Inst::SLTUI(rd(w), rs1(w), i_imm_bits(w) as u32),
        0b100 => Inst::XORI(rd(w), rs1(w), i_imm_bits(w)),
        0b101 => {
            if matches!(xlen, Xlen::Rv32) {
                match f7_bits(w) {
                    0x00 => Inst::SRLI(rd(w), rs1(w), shamt32_imm_bits(w)),
                    0x20 => Inst::SRAI(rd(w), rs1(w), shamt32_imm_bits(w)),
                    _ => Inst::UNDEF(w),
                }
            } else {
                match f6_bits(w) {
                    0x00 => Inst::SRLI(rd(w), rs1(w), shamt64_imm_bits(w)),
                    0x10 => Inst::SRAI(rd(w), rs1(w), shamt64_imm_bits(w)),
                    _ => Inst::UNDEF(w),
                }
            }
        },
        0b110 => Inst::ORI(rd(w), rs1(w), i_imm_bits(w)),
        _ => Inst::ANDI(rd(w), rs1(w), i_imm_bits(w)),
    }
}

/// Decode a word-truncating immediate-arithmetic word.
fn dec_op_imm32(w: u32) -> (i: Inst)
    ensures
        i == spec_dec_op_imm32(w),
{
    match f3_bits(w) {
        0b000 => Inst::ADDIW(rd(w), rs1(w), i_imm_bits(w)),
        0b001 => {
            match f7_bits(w) {
                0x00 => Inst::SLLIW(rd(w), rs1(w), shamt32_imm_bits(w)),
                _ => Inst::UNDEF(w),
            }
        },
        0b101 => {
            match f7_bits(w) {
                0x00 => Inst::SRLIW(rd(w), rs1(w), shamt32_imm_bits(w)),
                0x20 => Inst::SRAIW(rd(w), rs1(w), shamt32_imm_bits(w)),
                _ => Inst::UNDEF(w),
            }
        },
        _ => Inst::UNDEF(w),
    }
}

/// Decode a store-opcode word.
fn dec_store(w: u32) -> (i: Inst)
    ensures
        i == spec_dec_store(w),
{
    match f3_bits(w) {
        0b000 => Inst::SB(rs1(w), rs2(w), s_imm_bits(w)),
        0b001 => Inst::SH(rs1(w), rs2(w), s_imm_bits(w)),
        0b010 => Inst::SW(rs1(w), rs2(w), s_imm_bits(w)),
        0b011 => Inst::SD(rs1(w), rs2(w), s_imm_bits(w)),
        _ => Inst::UNDEF(w),
    }
}

/// Decode an atomic-memory word.
fn dec_amo(w: u32) -> (i: Inst)
    ensures
        i == spec_dec_amo(w),
{
    match f3_bits(w) {
        0b010 => match f5_bits(w) {
            0b00010 => match rs2_bits(w) {
                0b00000 => Inst::LRW(rd(w), rs1(w)),
                _ => Inst::UNDEF(w),
            },
            0b00011 => Inst::SCW(rd(w), rs1(w), rs2(w)),
            0b00001 => Inst::AMOSWAPW(rd(w), rs1(w), rs2(w)),
            0b00000 => Inst::AMOADDW(rd(w), rs1(w), rs2(w)),
            0b00100 => Inst::AMOXORW(rd(w), rs1(w), rs2(w)),
            0b01100 => Inst::AMOANDW(rd(w), rs1(w), rs2(w)),
            0b01000 => Inst::AMOORW(rd(w), rs1(w), rs2(w)),
            0b10000 => Inst::AMOMINW(rd(w), rs1(w), rs2(w)),
            0b10100 => Inst::AMOMAXW(rd(w), rs1(w), rs2(w)),
            0b11000 => Inst::AMOMINUW(rd(w), rs1(w), rs2(w)),
            0b11100 => Inst::AMOMAXUW(rd(w), rs1(w), rs2(w)),
            _ => Inst::UNDEF(w),
        },
        0b011 => match f5_bits(w) {
            0b00010 => match rs2_bits(w) {
                0b00000 => Inst::LRD(rd(w), rs1(w)),
                _ => Inst::UNDEF(w),
            },
            0b00011 => Inst::SCD(rd(w), rs1(w), rs2(w)),
            0b00001 => Inst::AMOSWAPD(rd(w), rs1(w), rs2(w)),
            0b00000 => Inst::AMOADDD(rd(w), rs1(w), rs2(w)),
            0b00100 => Inst::AMOXORD(rd(w), rs1(w), rs2(w)),
            0b01100 => Inst::AMOANDD(rd(w), rs1(w), rs2(w)),
            0b01000 => Inst::AMOORD(rd(w), rs1(w), rs2(w)),
            0b10000 => Inst::AMOMIND(rd(w), rs1(w), rs2(w)),
            0b10100 => Inst::AMOMAXD(rd(w), rs1(w), rs2(w)),
            0b11000 => Inst::AMOMINUD(rd(w), rs1(w), rs2(w)),
            0b11100 => Inst::AMOMAXUD(rd(w), rs1(w), rs2(w)),
            _ => Inst::UNDEF(w),
        },
        _ => Inst::UNDEF(w),
    }
}

/// Decode a register-register arithmetic word.
fn dec_op(w: u32) -> (i: Inst)
    ensures
        i == spec_dec_op(w),
{
    match f3_bits(w) {
        0b000 => match f7_bits(w) {
            0x00 => Inst::ADD(rd(w), rs1(w), rs2(w)),
            0x01 => Inst::MUL(rd(w), rs1(w), rs2(w)),
            0x20 => Inst::SUB(rd(w), rs1(w), rs2(w)),
            _ => Inst::UNDEF(w),
        },
        0b001 => match f7_bits(w) {
            0x00 => Inst::SLL(rd(w), rs1(w), rs2(w)),
            0x01 => Inst::MULH(rd(w), rs1(w), rs2(w)),
            _ => Inst::UNDEF(w),
        },
        0b010 => match f7_bits(w) {
            0x00 => Inst::SLT(rd(w), rs1(w), rs2(w)),
            0x01 => Inst::MULSU(rd(w), rs1(w), rs2(w)),
            _ => Inst::UNDEF(w),
        },
        0b011 => match f7_bits(w) {
            0x00 => Inst::SLTU(rd(w), rs1(w), rs2(w)),
            0x01 => Inst::MULU(rd(w), rs1(w), rs2(w)),
            _ => Inst::UNDEF(w),
        },
        0b100 => match f7_bits(w) {
            0x00 => Inst::XOR(rd(w), rs1(w), rs2(w)),
            0x01 => Inst::DIV(rd(w), rs1(w), rs2(w)),
            _ => Inst::UNDEF(w),
        },
        0b101 => match f7_bits(w) {
            0x00 => Inst::SRL(rd(w), rs1(w), rs2(w)),
            0x01 => Inst::DIVU(rd(w), rs1(w), rs2(w)),
            0x20 => Inst::SRA(rd(w), rs1(w), rs2(w)),
            _ => Inst::UNDEF(w),
        },
        0b110 => match f7_bits(w) {
            0x00 => Inst::OR(rd(w), rs1(w), rs2(w)),
            0x01 => Inst::REM(rd(w), rs1(w), rs2(w)),
            _ => Inst::UNDEF(w),
        },
        _ => match f7_bits(w) {
            0x00 => Inst::AND(rd(w), rs1(w), rs2(w)),
            0x01 => Inst::REMU(rd(w), rs1(w), rs2(w)),
            _ => Inst::UNDEF(w),
        },
    }
}

/// Decode a word-truncating register-register word.
fn dec_op32(w: u32) -> (i: Inst)
    ensures
        i == spec_dec_op32(w),
{
    match f3_bits(w) {
        0b000 => match f7_bits(w) {
            0x00 => Inst::ADDW(rd(w), rs1(w), rs2(w)),
            0x01 => Inst::MULW(rd(w), rs1(w), rs2(w)),
            0x20 => Inst::SUBW(rd(w), rs1(w), rs2(w)),
            _ => Inst::UNDEF(w),
        },
        0b001 => match f7_bits(w) {
            0x00 => Inst::SLLW(rd(w), rs1(w), rs2(w)),
            _ => Inst::UNDEF(w),
        },
        0b100 => match f7_bits(w) {
            0x01 => Inst::DIVW(rd(w), rs1(w), rs2(w)),
            _ => Inst::UNDEF(w),
        },
        0b101 => match f7_bits(w) {
            0x00 => Inst::SRLW(rd(w), rs1(w), rs2(w)),
            0x01 => Inst::DIVUW(rd(w), rs1(w), rs2(w)),
            0x20 => Inst::SRAW(rd(w), rs1(w), rs2(w)),
            _ => Inst::UNDEF(w),
        },
        0b110 => match f7_bits(w) {
            0x01 => Inst::REMW(rd(w), rs1(w), rs2(w)),
            _ => Inst::UNDEF(w),
        },
        0b111 => match f7_bits(w) {
            0x01 => Inst::REMUW(rd(w), rs1(w), rs2(w)),
            _ => Inst::UNDEF(w),
        },
        _ => Inst::UNDEF(w),
    }
}

/// Decode a conditional-branch word.
fn dec_branch(w: u32) -> (i: Inst)
    ensures
        i == spec_dec_branch(w),
{
    match f3_bits(w) {
        0b000 => Inst::BEQ(rs1(w), rs2(w), b_imm_bits(w)),
        0b001 => Inst::BNE(rs1(w), rs2(w), b_imm_bits(w)),
        0b100 => Inst::BLT(rs1(w), rs2(w), b_imm_bits(w)),
        0b101 => Inst::BGE(rs1(w), rs2(w), b_imm_bits(w)),
        0b110 => Inst::BLTU(rs1(w), rs2(w), b_imm_bits(w)),
        0b111 => Inst::BGEU(rs1(w), rs2(w), b_imm_bits(w)),
        _ => Inst::UNDEF(w),
    }
}

/// Decode a system-opcode word: the privileged/fence table, the
/// hypervisor load/store table, and the control/status register forms.
fn dec_system(w: u32) -> (i: Inst)
    ensures
        i == spec_dec_system(w),
{
    match f3_bits(w) {
        0b000 => match (f7_bits(w), rs2_bits(w), rs1_bits(w), rd_bits(w)) {
            (0b0000000, 0b00000, 0b00000, 0b00000) => Inst::ECALL,
            (0b0000000, 0b00001, 0b00000, 0b00000) => Inst::EBREAK,
            (0b0001000, 0b00010, 0b00000, 0b00000) => Inst::SRET,
            (0b0011000, 0b00010, 0b00000, 0b00000) => Inst::MRET,
            (0b0001000, 0b00101, 0b00000, 0b00000) => Inst::WFI,
            (0b0001001, _, _, 0b00000) => Inst::SFENCEVMA(rs1(w), rs2(w)),
            (0b0001011, _, _, 0b00000) => Inst::SINVALVMA(rs1(w), rs2(w)),
            (0b0001100, 0b00000, 0b00000, 0b00000) => Inst::SFENCEWINVAL,
            (0b0001100, 0b00001, 0b00000, 0b00000) => Inst::SFENCEINVALIR,
            (0b0010001, _, _, 0b00000) => Inst::HFENCEVVMA(rs1(w), rs2(w)),
            (0b0110001, _, _, 0b00000) => Inst::HFENCEGVMA(rs1(w), rs2(w)),
            (0b0010011, _, _, 0b00000) => Inst::HINVALVVMA(rs1(w), rs2(w)),
            (0b0110011, _, _, 0b00000) => Inst::HINVALGVMA(rs1(w), rs2(w)),
            _ => Inst::UNDEF(w),
        },
        0b100 => match (f7_bits(w), rs2_bits(w), rd_bits(w)) {
            (0b0110000, 0b00000, _) => Inst::HLVB(rd(w), rs1(w)),
            (0b0110000, 0b00001, _) => Inst::HLVBU(rd(w), rs1(w)),
            (0b0110010, 0b00000, _) => Inst::HLVH(rd(w), rs1(w)),
            (0b0110010, 0b00001, _) => Inst::HLVHU(rd(w), rs1(w)),
            (0b0110010, 0b00011, _) => Inst::HLVXHU(rd(w), rs1(w)),
            (0b0110100, 0b00000, _) => Inst::HLVW(rd(w), rs1(w)),
            (0b0110100, 0b00011, _) => Inst::HLVXWU(rd(w), rs1(w)),
            (0b0110001, _, 0b00000) => Inst::HSVB(rs1(w), rs2(w)),
            (0b0110011, _, 0b00000) => Inst::HSVH(rs1(w), rs2(w)),
            (0b0110101, _, 0b00000) => Inst::HSVW(rs1(w), rs2(w)),
            (0b0110100, 0b00001, _) => Inst::HLVWU(rd(w), rs1(w)),
            (0b0110110, 0b00000, _) => Inst::HLVD(rd(w), rs1(w)),
            (0b0110111, _, 0b00000) => Inst::HSVD(rs1(w), rs2(w)),
            _ => Inst::UNDEF(w),
        },
        0b001 => Inst::CSRRW(rd(w), rs1(w), csr(w)),
        0b010 => Inst::CSRRS(rd(w), rs1(w), csr(w)),
        0b011 => Inst::CSRRC(rd(w), rs1(w), csr(w)),
        0b101 => Inst::CSRRWI(rd(w), rs1_bits(w), csr(w)),
        0b110 => Inst::CSRRSI(rd(w), rs1_bits(w), csr(w)),
        _ => Inst::CSRRCI(rd(w), rs1_bits(w), csr(w)),
    }
}

/// Decode the rest of a standard 32-bit instruction, whose first byte was
/// already read: three more bytes, then the opcode dispatch.
fn decode_quadrant3<R: ByteReader>(bytes: &mut R, b0: u8, xlen: Xlen) -> (r: Result<
    (Inst, u8),
    DecodeError,
>)
    ensures
        old(bytes).remaining().len() < 3 ==> r == Err::<(Inst, u8), DecodeError>(
            DecodeError::Truncated,
        ) && final (bytes).remaining().len() == 0,
        old(bytes).remaining().len() >= 3 ==> r == Ok::<(Inst, u8), DecodeError>(
            (
                spec_decode32(
                    spec_word32(
                        b0,
                        old(bytes).remaining()[0],
                        old(bytes).remaining()[1],
                        old(bytes).remaining()[2],
                    ),
                    xlen,
                ),
                4,
            ),
        ) && final (bytes).remaining() == old(bytes).remaining().skip(3),
{
    let b1 = match bytes.next() {
        None => { return Err(DecodeError::Truncated) },
        Some(b) => b,
    };
    let b2 = match bytes.next() {
        None => { return Err(DecodeError::Truncated) },
        Some(b) => b,
    };
    let b3 = match bytes.next() {
        None => { return Err(DecodeError::Truncated) },
        Some(b) => b,
    };
    proof {
        assert(old(bytes).remaining().drop_first().drop_first().drop_first() =~= old(
            bytes,
        ).remaining().skip(3));
    }
    let w: u32 = (b0 as u32) | ((b1 as u32) << 8) | ((b2 as u32) << 16) | ((b3 as u32) << 24);
    let op = op_bits(w);
    let i = if op == 0b00000 {
        dec_load(w)
    } else if op == 0b00011 {
        dec_misc_mem(w)
    } else if op == 0b00100 {
        dec_op_imm(w, xlen)
    } else if op == 0b00101 {
        Inst::AUIPC(rd(w), u_imm_bits(w))
    } else if op == 0b00110 {
        dec_op_imm32(w)
    } else if op == 0b01000 {
        dec_store(w)
    } else if op == 0b01011 {
        dec_amo(w)
    } else if op == 0b01100 {
        dec_op(w)
    } else if op == 0b01101 {
        Inst::LUI(rd(w), u_imm_bits(w))
    } else if op == 0b01110 {
        dec_op32(w)
    } else if op == 0b11000 {
        dec_branch(w)
    } else if op == 0b11001 {
        Inst::JALR(rd(w), rs1(w), i_imm_bits(w))
    } else if op == 0b11011 {
        Inst::JAL(rd(w), j_imm_bits(w))
    } else if op == 0b11100 {
        dec_system(w)
    } else {
        Inst::UNDEF(w)
    };
    Ok((i, 4))
}

/// The low two bits of a 16-bit word come from its first byte.
proof fn lemma_word16_quadrant(b0: u8, b1: u8)
    by (bit_vector)
    ensures
        spec_word16(b0, b1) & 0b11 == (b0 & 0b11) as u16,
{
}

/// Decode one instruction from the byte source under the given
/// register-width configuration.
///
/// The low two bits of the first byte select the path: any value other
/// than 0b11 selects the 2-byte compact path, 0b11 the 4-byte standard
/// path. Supplying fewer bytes than the selected path requires yields the
/// truncation failure and leaves the source exhausted; otherwise the
/// result is exactly the spec-level decoding of the assembled word,
/// together with the number of bytes consumed, and the instruction
/// carries no out-of-range operand.
pub fn decode<R: ByteReader>(bytes: &mut R, xlen: Xlen) -> (r: Result<(Inst, u8), DecodeError>)
    ensures
        old(bytes).remaining().len() == 0 ==> r == Err::<(Inst, u8), DecodeError>(
            DecodeError::Truncated,
        ) && final (bytes).remaining().len() == 0,
        old(bytes).remaining().len() == 1 ==> r == Err::<(Inst, u8), DecodeError>(
            DecodeError::Truncated,
        ) && final (bytes).remaining().len() == 0,
        old(bytes).remaining().len() >= 2 && old(bytes).remaining()[0] & 0b11 != 0b11 ==> r
            == Ok::<(Inst, u8), DecodeError>(
            (
                spec_decode16(
                    spec_word16(old(bytes).remaining()[0], old(bytes).remaining()[1]),
                    xlen,
                ),
                2,
            ),
        ) && final (bytes).remaining() == old(bytes).remaining().skip(2),
        2 <= old(bytes).remaining().len() < 4 && old(bytes).remaining()[0] & 0b11 == 0b11 ==> r
            == Err::<(Inst, u8), DecodeError>(DecodeError::Truncated) && final (
        bytes).remaining().len() == 0,
        old(bytes).remaining().len() >= 4 && old(bytes).remaining()[0] & 0b11 == 0b11 ==> r
            == Ok::<(Inst, u8), DecodeError>(
            (
                spec_decode32(
                    spec_word32(
                        old(bytes).remaining()[0],
                        old(bytes).remaining()[1],
                        old(bytes).remaining()[2],
                        old(bytes).remaining()[3],
                    ),
                    xlen,
                ),
                4,
            ),
        ) && final (bytes).remaining() == old(bytes).remaining().skip(4),
        r matches Ok(p) ==> p.0.wf(),
{
    let b0 = match bytes.next() {
        None => { return Err(DecodeError::Truncated) },
        Some(b) => b,
    };
    let ghost s = old(bytes).remaining();
    proof {
        assert(b0 & 0b11 < 4) by (bit_vector);
        if s.len() >= 2 {
            assert(s.drop_first().drop_first() =~= s.skip(2));
            assert(s.drop_first()[0] == s[1]);
            lemma_word16_quadrant(s[0], s[1]);
            lemma_decode16_in_range(spec_word16(s[0], s[1]), xlen);
        }
        if s.len() >= 4 {
            assert(s.drop_first().skip(3) =~= s.skip(4));
            lemma_decode32_in_range(spec_word32(s[0], s[1], s[2], s[3]), xlen);
        }
    }
    let q = b0 & 0b11;
    if q == 0b00 {
        decode_quadrant0(bytes, b0, xlen)
    } else if q == 0b01 {
        decode_quadrant1(bytes, b0, xlen)
    } else if q == 0b10 {
        decode_quadrant2(bytes, b0, xlen)
    } else {
        decode_quadrant3(bytes, b0, xlen)
    }
}

} // verus!
