//! Bit-field extraction: pure, total functions from an instruction word to
//! its standardized sub-fields, with exact two's-complement sign extension.
//!
//! Each executable extractor is specified against a spec-level field
//! function; the signed immediates are specified directly as mathematical
//! integers, so a contract reader never has to re-derive the bit twiddling.

use vstd::prelude::*;

verus! {

// ---------------------------------------------------------------------------
// Sign extension, as mathematics: a field of the given width is read as a
// two's-complement value.
// ---------------------------------------------------------------------------

/// A 6-bit field read as a two's-complement value.
pub open spec fn sext6(v: u32) -> int {
    if v < 0x20 {
        v as int
    } else {
        v - 0x40
    }
}

/// A 9-bit field read as a two's-complement value.
pub open spec fn sext9(v: u32) -> int {
    if v < 0x100 {
        v as int
    } else {
        v - 0x200
    }
}

/// A 12-bit field read as a two's-complement value.
pub open spec fn sext12(v: u32) -> int {
    if v < 0x800 {
        v as int
    } else {
        v - 0x1000
    }
}

/// A 13-bit field read as a two's-complement value.
pub open spec fn sext13(v: u32) -> int {
    if v < 0x1000 {
        v as int
    } else {
        v - 0x2000
    }
}

/// A 21-bit field read as a two's-complement value.
pub open spec fn sext21(v: u32) -> int {
    if v < 0x100000 {
        v as int
    } else {
        v - 0x200000
    }
}

// ---------------------------------------------------------------------------
// Field layouts of the standard 32-bit encoding.
// ---------------------------------------------------------------------------

/// The primary dispatch key: bits [6:2].
pub open spec fn opcode_of(w: u32) -> u8 {
    ((w >> 2) & 0x1f) as u8
}

/// Secondary dispatch key funct3: bits [14:12].
pub open spec fn funct3_of(w: u32) -> u8 {
    ((w >> 12) & 0x7) as u8
}

/// Secondary dispatch key funct5: bits [31:27].
pub open spec fn funct5_of(w: u32) -> u8 {
    ((w >> 27) & 0x1f) as u8
}

/// Secondary dispatch key funct6: bits [31:26].
pub open spec fn funct6_of(w: u32) -> u8 {
    ((w >> 26) & 0x3f) as u8
}

/// Secondary dispatch key funct7: bits [31:25].
pub open spec fn funct7_of(w: u32) -> u8 {
    ((w >> 25) & 0x7f) as u8
}

/// Destination register index: bits [11:7].
pub open spec fn rd_of(w: u32) -> u8 {
    ((w >> 7) & 0x1f) as u8
}

/// First source register index: bits [19:15].
pub open spec fn rs1_of(w: u32) -> u8 {
    ((w >> 15) & 0x1f) as u8
}

/// Second source register index: bits [24:20].
pub open spec fn rs2_of(w: u32) -> u8 {
    ((w >> 20) & 0x1f) as u8
}

/// The I-format immediate: bits [31:20], sign-extended from bit 31.
pub open spec fn imm_i_of(w: u32) -> int {
    sext12((w >> 20) & 0xfff)
}

/// The S-format immediate: bits [11:7] and [31:25]<<5, sign-extended from
/// bit 31.
pub open spec fn imm_s_of(w: u32) -> int {
    sext12(((w >> 7) & 0x1f) | (((w >> 25) & 0x7f) << 5))
}

/// The B-format immediate: bits [11:8]<<1, [30:25]<<5, [7]<<11 and
/// [31]<<12, sign-extended from bit 31. Bit 0 is never set.
pub open spec fn imm_b_of(w: u32) -> int {
    sext13(
        (((w >> 8) & 0xf) << 1) | (((w >> 25) & 0x3f) << 5) | (((w >> 7) & 0x1) << 11) | (((w
            >> 31) & 0x1) << 12),
    )
}

/// The U-format immediate: bits [31:12], left in place (not shifted down).
pub open spec fn imm_u_of(w: u32) -> u32 {
    w & 0xfffff000
}

/// The J-format immediate: bits [30:21]<<1, [20]<<11, [19:12]<<12 and
/// [31]<<20, sign-extended from bit 31. Bit 0 is never set.
pub open spec fn imm_j_of(w: u32) -> int {
    sext21(
        (((w >> 21) & 0x3ff) << 1) | (((w >> 20) & 0x1) << 11) | (((w >> 12) & 0xff) << 12) | (((w
            >> 31) & 0x1) << 20),
    )
}

/// The 5-bit shift amount of the 32-bit register-width configuration:
/// bits [24:20].
pub open spec fn shamt5_of(w: u32) -> u8 {
    ((w >> 20) & 0x1f) as u8
}

/// The 6-bit shift amount of the wider register-width configurations:
/// bits [25:20].
pub open spec fn shamt6_of(w: u32) -> u8 {
    ((w >> 20) & 0x3f) as u8
}

/// The control/status register address: the top 12 bits [31:20], read as
/// an unsigned address.
pub open spec fn csr_addr_of(w: u32) -> u16 {
    ((w >> 20) & 0xfff) as u16
}

/// Compact-format dispatch key funct3: bits [15:13] of the 16-bit word.
pub open spec fn cfunct3_of(w: u16) -> u8 {
    ((w >> 13) & 0x7) as u8
}

// ---------------------------------------------------------------------------
// Field layouts of the 16-bit compact encoding.
// ---------------------------------------------------------------------------

/// The popular-register operand rd'/rs2' of the CIW, CL and CS formats:
/// bits [4:2], naming registers 8 through 15.
pub open spec fn crd_of(w: u16) -> u8 {
    ((((w as u32) >> 2) & 0x7) + 8) as u8
}

/// The popular-register operand rs1' of the CL, CS and CB formats:
/// bits [9:7], naming registers 8 through 15.
pub open spec fn crs1_of(w: u16) -> u8 {
    ((((w as u32) >> 7) & 0x7) + 8) as u8
}

/// The full register operand rd/rs1 of the CI and CR formats: bits [11:7].
pub open spec fn ci_rd_of(w: u16) -> u8 {
    (((w as u32) >> 7) & 0x1f) as u8
}

/// The full register operand rs2 of the CR and CSS formats: bits [6:2].
pub open spec fn cr_rs2_of(w: u16) -> u8 {
    (((w as u32) >> 2) & 0x1f) as u8
}

/// The CIW-format zero-extended immediate of the stack-pointer add:
/// bits [12:11]<<4, [10:7]<<6, [6]<<2 and [5]<<3; a multiple of 4.
pub open spec fn ciw_uimm_of(w: u16) -> u32 {
    ((((w as u32) >> 11) & 0x3) << 4) | ((((w as u32) >> 7) & 0xf) << 6) | ((((w as u32) >> 6)
        & 0x1) << 2) | ((((w as u32) >> 5) & 0x1) << 3)
}

/// The CL/CS-format word offset: bits [12:10]<<3, [6]<<2 and [5]<<6; a
/// multiple of 4.
pub open spec fn clw_uimm_of(w: u16) -> u32 {
    ((((w as u32) >> 10) & 0x7) << 3) | ((((w as u32) >> 6) & 0x1) << 2) | ((((w as u32) >> 5)
        & 0x1) << 6)
}

/// The CL/CS-format doubleword offset: bits [12:10]<<3 and [6:5]<<6; a
/// multiple of 8.
pub open spec fn cld_uimm_of(w: u16) -> u32 {
    ((((w as u32) >> 10) & 0x7) << 3) | ((((w as u32) >> 5) & 0x3) << 6)
}

/// The CL/CS-format quadword offset: bits [12:11]<<4, [10]<<8 and
/// [6:5]<<6; a multiple of 16.
pub open spec fn clq_uimm_of(w: u16) -> u32 {
    ((((w as u32) >> 11) & 0x3) << 4) | ((((w as u32) >> 10) & 0x1) << 8) | ((((w as u32) >> 5)
        & 0x3) << 6)
}

/// The CI-format stack-relative word-load offset: bits [12]<<5, [6:4]<<2
/// and [3:2]<<6; a multiple of 4.
pub open spec fn clwsp_uimm_of(w: u16) -> u32 {
    ((((w as u32) >> 12) & 0x1) << 5) | ((((w as u32) >> 4) & 0x7) << 2) | ((((w as u32) >> 2)
        & 0x3) << 6)
}

/// The CI-format stack-relative doubleword-load offset: bits [12]<<5,
/// [6:5]<<3 and [4:2]<<6; a multiple of 8.
pub open spec fn cldsp_uimm_of(w: u16) -> u32 {
    ((((w as u32) >> 12) & 0x1) << 5) | ((((w as u32) >> 5) & 0x3) << 3) | ((((w as u32) >> 2)
        & 0x7) << 6)
}

/// The CSS-format stack-relative word-store offset: bits [12:9]<<2 and
/// [8:7]<<6; a multiple of 4.
pub open spec fn cswsp_uimm_of(w: u16) -> u32 {
    ((((w as u32) >> 9) & 0xf) << 2) | ((((w as u32) >> 7) & 0x3) << 6)
}

/// The CSS-format stack-relative doubleword-store offset: bits [12:10]<<3
/// and [9:7]<<6; a multiple of 8.
pub open spec fn csdsp_uimm_of(w: u16) -> u32 {
    ((((w as u32) >> 10) & 0x7) << 3) | ((((w as u32) >> 7) & 0x7) << 6)
}

/// The CI-format shift amount: bits [12]<<5 and [6:2].
pub open spec fn cshamt_of(w: u16) -> u8 {
    (((((w as u32) >> 12) & 0x1) << 5) | (((w as u32) >> 2) & 0x1f)) as u8
}

/// The CI-format signed immediate: bits [12]<<5 and [6:2], sign-extended
/// from bit 12 as a 6-bit two's-complement value.
pub open spec fn cimm6_of(w: u16) -> int {
    sext6(((((w as u32) >> 12) & 0x1) << 5) | (((w as u32) >> 2) & 0x1f))
}

/// The CI-format load-upper immediate: the 6-bit field of bits [12] and
/// [6:2] read as a two's-complement value, placed in bits [17:12].
pub open spec fn clui_imm_of(w: u16) -> int {
    cimm6_of(w) * 0x1000
}

/// The CJ-format jump target offset: bits [12]<<11, [11]<<4, [10:9]<<8,
/// [8]<<10, [7]<<6, [6]<<7, [5:3]<<1 and [2]<<5, sign-extended from
/// bit 12; always even.
pub open spec fn cj_imm_of(w: u16) -> int {
    sext12(
        ((((w as u32) >> 12) & 0x1) << 11) | ((((w as u32) >> 11) & 0x1) << 4) | ((((w as u32)
            >> 9) & 0x3) << 8) | ((((w as u32) >> 8) & 0x1) << 10) | ((((w as u32) >> 7) & 0x1)
            << 6) | ((((w as u32) >> 6) & 0x1) << 7) | ((((w as u32) >> 3) & 0x7) << 1) | ((((
        w as u32) >> 2) & 0x1) << 5),
    )
}

/// The CB-format branch offset: bits [12]<<8, [11:10]<<3, [6:5]<<6,
/// [4:3]<<1 and [2]<<5, sign-extended from bit 12; always even.
pub open spec fn cb_imm_of(w: u16) -> int {
    sext9(
        ((((w as u32) >> 12) & 0x1) << 8) | ((((w as u32) >> 10) & 0x3) << 3) | ((((w as u32) >> 5)
            & 0x3) << 6) | ((((w as u32) >> 3) & 0x3) << 1) | ((((w as u32) >> 2) & 0x1) << 5),
    )
}

// ---------------------------------------------------------------------------
// Facts the dispatch trees lean on.
// ---------------------------------------------------------------------------

/// Every field is bounded by the width of the bits it was cut from.
pub proof fn lemma_field_bounds(w: u32)
    by (bit_vector)
    ensures
        opcode_of(w) < 32,
        funct3_of(w) < 8,
        funct5_of(w) < 32,
        funct6_of(w) < 64,
        funct7_of(w) < 128,
        rd_of(w) < 32,
        rs1_of(w) < 32,
        rs2_of(w) < 32,
        shamt5_of(w) < 32,
        shamt6_of(w) < 64,
        csr_addr_of(w) < 0x1000,
{
}

/// Every immediate field, before sign extension, fits the width of the
/// bits it was cut from, and the upper-immediate field is a multiple of
/// 4096.
pub proof fn lemma_imm_field_ranges(w: u32)
    by (bit_vector)
    ensures
        ((w >> 20) & 0xfff) < 0x1000,
        (((w >> 7) & 0x1f) | (((w >> 25) & 0x7f) << 5)) < 0x1000,
        ((((w >> 8) & 0xf) << 1) | (((w >> 25) & 0x3f) << 5) | (((w >> 7) & 0x1) << 11) | (((w
            >> 31) & 0x1) << 12)) < 0x2000,
        ((((w >> 21) & 0x3ff) << 1) | (((w >> 20) & 0x1) << 11) | (((w >> 12) & 0xff) << 12) | (((w
            >> 31) & 0x1) << 20)) < 0x200000,
        imm_u_of(w) % 0x1000 == 0,
{
}

/// Every compact immediate field fits its bits: the zero-extended offsets
/// stay under their scaled widths, and the fields that feed sign
/// extension stay under the extension width; the jump and branch offsets
/// are even.
pub proof fn lemma_compact_imm_ranges(w: u16)
    by (bit_vector)
    ensures
        ciw_uimm_of(w) < 0x400,
        clw_uimm_of(w) < 0x80,
        cld_uimm_of(w) < 0x100,
        clq_uimm_of(w) < 0x200,
        clwsp_uimm_of(w) < 0x100,
        cldsp_uimm_of(w) < 0x200,
        cswsp_uimm_of(w) < 0x100,
        csdsp_uimm_of(w) < 0x200,
        (((((w as u32) >> 12) & 0x1) << 5) | (((w as u32) >> 2) & 0x1f)) < 0x40,
        (((((w as u32) >> 12) & 0x1) << 11) | ((((w as u32) >> 11) & 0x1) << 4) | ((((w as u32)
            >> 9) & 0x3) << 8) | ((((w as u32) >> 8) & 0x1) << 10) | ((((w as u32) >> 7) & 0x1)
            << 6) | ((((w as u32) >> 6) & 0x1) << 7) | ((((w as u32) >> 3) & 0x7) << 1) | ((((
        w as u32) >> 2) & 0x1) << 5)) < 0x1000,
        (((((w as u32) >> 12) & 0x1) << 11) | ((((w as u32) >> 11) & 0x1) << 4) | ((((w as u32)
            >> 9) & 0x3) << 8) | ((((w as u32) >> 8) & 0x1) << 10) | ((((w as u32) >> 7) & 0x1)
            << 6) | ((((w as u32) >> 6) & 0x1) << 7) | ((((w as u32) >> 3) & 0x7) << 1) | ((((
        w as u32) >> 2) & 0x1) << 5)) % 2 == 0,
        (((((w as u32) >> 12) & 0x1) << 8) | ((((w as u32) >> 10) & 0x3) << 3) | ((((w as u32)
            >> 5) & 0x3) << 6) | ((((w as u32) >> 3) & 0x3) << 1) | ((((w as u32) >> 2) & 0x1)
            << 5)) < 0x200,
        (((((w as u32) >> 12) & 0x1) << 8) | ((((w as u32) >> 10) & 0x3) << 3) | ((((w as u32)
            >> 5) & 0x3) << 6) | ((((w as u32) >> 3) & 0x3) << 1) | ((((w as u32) >> 2) & 0x1)
            << 5)) % 2 == 0,
{
}

/// B-format and J-format immediates are always even: their lowest bit is
/// never taken from the word.
pub proof fn lemma_branch_jump_imm_even(w: u32)
    ensures
        imm_b_of(w) % 2 == 0,
        imm_j_of(w) % 2 == 0,
{
    assert(((((w >> 8) & 0xf) << 1) | (((w >> 25) & 0x3f) << 5) | (((w >> 7) & 0x1) << 11) | (((w
        >> 31) & 0x1) << 12)) % 2 == 0) by (bit_vector);
    assert(((((w >> 21) & 0x3ff) << 1) | (((w >> 20) & 0x1) << 11) | (((w >> 12) & 0xff) << 12) | (
    ((w >> 31) & 0x1) << 20)) % 2 == 0) by (bit_vector);
}

/// Exact I-format sign extension: when bit 31 is set, the immediate is the
/// raw 12-bit field less 4096; with bits [30:20] clear that value is -2048.
pub proof fn lemma_i_imm_sign_extension(w: u32)
    ensures
        (w >> 31) & 1 == 1 ==> imm_i_of(w) == ((w >> 20) & 0xfff) - 0x1000,
        (w >> 31) & 1 == 0 ==> imm_i_of(w) == (w >> 20) & 0xfff,
        (w >> 31) & 1 == 1 && (w >> 20) & 0x7ff == 0 ==> imm_i_of(w) == -2048,
{
    assert((w >> 31) & 1 == 1 ==> (w >> 20) & 0xfff >= 0x800) by (bit_vector);
    assert((w >> 31) & 1 == 0 ==> (w >> 20) & 0xfff < 0x800) by (bit_vector);
    assert((w >> 31) & 1 == 1 && (w >> 20) & 0x7ff == 0 ==> (w >> 20) & 0xfff == 0x800)
        by (bit_vector);
}

// ---------------------------------------------------------------------------
// Executable extractors.
// ---------------------------------------------------------------------------

/// All-ones when bit 31 of the word is set, all-zeros otherwise: the mask
/// that replicates the sign bit across the high bits of an immediate.
fn sign(w: u32) -> (r: u32)
    ensures
        r == (if (w & 0x80000000) == 0 {
            0u32
        } else {
            0xffffffffu32
        }),
{
    if w & 0x80000000 == 0 {
        0
    } else {
        0xffffffff
    }
}

/// The primary opcode, bits [6:2].
pub fn op_bits(w: u32) -> (r: u8)
    ensures
        r == opcode_of(w),
        r < 32,
{
    proof {
        lemma_field_bounds(w);
    }
    ((w >> 2) & 0x1f) as u8
}

/// funct3, bits [14:12].
pub fn f3_bits(w: u32) -> (r: u8)
    ensures
        r == funct3_of(w),
        r < 8,
{
    proof {
        lemma_field_bounds(w);
    }
    ((w >> 12) & 0x7) as u8
}

/// funct5, bits [31:27].
pub fn f5_bits(w: u32) -> (r: u8)
    ensures
        r == funct5_of(w),
        r < 32,
{
    proof {
        lemma_field_bounds(w);
    }
    ((w >> 27) & 0x1f) as u8
}

/// funct6, bits [31:26].
pub fn f6_bits(w: u32) -> (r: u8)
    ensures
        r == funct6_of(w),
        r < 64,
{
    proof {
        lemma_field_bounds(w);
    }
    ((w >> 26) & 0x3f) as u8
}

/// funct7, bits [31:25].
pub fn f7_bits(w: u32) -> (r: u8)
    ensures
        r == funct7_of(w),
        r < 128,
{
    proof {
        lemma_field_bounds(w);
    }
    ((w >> 25) & 0x7f) as u8
}

/// The destination register index, bits [11:7].
pub fn rd_bits(w: u32) -> (r: u8)
    ensures
        r == rd_of(w),
        r < 32,
{
    proof {
        lemma_field_bounds(w);
    }
    ((w >> 7) & 0x1f) as u8
}

/// The first source register index, bits [19:15].
pub fn rs1_bits(w: u32) -> (r: u8)
    ensures
        r == rs1_of(w),
        r < 32,
{
    proof {
        lemma_field_bounds(w);
    }
    ((w >> 15) & 0x1f) as u8
}

/// The second source register index, bits [24:20].
pub fn rs2_bits(w: u32) -> (r: u8)
    ensures
        r == rs2_of(w),
        r < 32,
{
    proof {
        lemma_field_bounds(w);
    }
    ((w >> 20) & 0x1f) as u8
}

/// The I-format immediate, sign-extended.
pub fn i_imm_bits(w: u32) -> (r: i32)
    ensures
        r as int == imm_i_of(w),
{
    let f: u32 = (w >> 20) & 0xfff;
    let s: u32 = sign(w);
    let r: i32 = (f | (s << 12)) as i32;
    proof {
        assert((((w >> 20) & 0xfff) | ((if (w & 0x80000000) == 0 {
            0u32
        } else {
            0xffffffffu32
        }) << 12)) as i32 as int == sext12((w >> 20) & 0xfff)) by (bit_vector);
    }
    r
}

/// The 5-bit shift amount, bits [24:20].
pub fn shamt32_imm_bits(w: u32) -> (r: u8)
    ensures
        r == shamt5_of(w),
        r < 32,
{
    proof {
        lemma_field_bounds(w);
    }
    ((w >> 20) & 0x1f) as u8
}

/// The 6-bit shift amount, bits [25:20].
pub fn shamt64_imm_bits(w: u32) -> (r: u8)
    ensures
        r == shamt6_of(w),
        r < 64,
{
    proof {
        lemma_field_bounds(w);
    }
    ((w >> 20) & 0x3f) as u8
}

/// The S-format immediate, sign-extended.
pub fn s_imm_bits(w: u32) -> (r: i32)
    ensures
        r as int == imm_s_of(w),
{
    let f: u32 = ((w >> 7) & 0x1f) | (((w >> 25) & 0x7f) << 5);
    let s: u32 = sign(w);
    let r: i32 = (f | (s << 12)) as i32;
    proof {
        assert(((((w >> 7) & 0x1f) | (((w >> 25) & 0x7f) << 5)) | ((if (w & 0x80000000) == 0 {
            0u32
        } else {
            0xffffffffu32
        }) << 12)) as i32 as int == sext12(((w >> 7) & 0x1f) | (((w >> 25) & 0x7f) << 5)))
            by (bit_vector);
    }
    r
}

/// The U-format immediate, left in place in bits [31:12].
pub fn u_imm_bits(w: u32) -> (r: u32)
    ensures
        r == imm_u_of(w),
{
    w & 0xfffff000
}

/// The J-format immediate, sign-extended; always even.
pub fn j_imm_bits(w: u32) -> (r: i32)
    ensures
        r as int == imm_j_of(w),
        r % 2 == 0,
{
    let f: u32 = (((w >> 21) & 0x3ff) << 1) | (((w >> 20) & 0x1) << 11) | (((w >> 12) & 0xff)
        << 12);
    let s: u32 = sign(w);
    let r: i32 = (f | (s << 20)) as i32;
    proof {
        assert((((((w >> 21) & 0x3ff) << 1) | (((w >> 20) & 0x1) << 11) | (((w >> 12) & 0xff)
            << 12)) | ((if (w & 0x80000000) == 0 {
            0u32
        } else {
            0xffffffffu32
        }) << 20)) as i32 as int == sext21(
            (((w >> 21) & 0x3ff) << 1) | (((w >> 20) & 0x1) << 11) | (((w >> 12) & 0xff) << 12) | (
            ((w >> 31) & 0x1) << 20),
        )) by (bit_vector);
        lemma_branch_jump_imm_even(w);
    }
    r
}

/// The B-format immediate, sign-extended; always even.
pub fn b_imm_bits(w: u32) -> (r: i32)
    ensures
        r as int == imm_b_of(w),
        r % 2 == 0,
{
    let f: u32 = (((w >> 8) & 0xf) << 1) | (((w >> 25) & 0x3f) << 5) | (((w >> 7) & 0x1) << 11);
    let s: u32 = sign(w);
    let r: i32 = (f | (s << 12)) as i32;
    proof {
        assert((((((w >> 8) & 0xf) << 1) | (((w >> 25) & 0x3f) << 5) | (((w >> 7) & 0x1) << 11)) | (
        (if (w & 0x80000000) == 0 {
            0u32
        } else {
            0xffffffffu32
        }) << 12)) as i32 as int == sext13(
            (((w >> 8) & 0xf) << 1) | (((w >> 25) & 0x3f) << 5) | (((w >> 7) & 0x1) << 11) | (((w
                >> 31) & 0x1) << 12),
        )) by (bit_vector);
        lemma_branch_jump_imm_even(w);
    }
    r
}

/// The compact-format funct3, bits [15:13] of the 16-bit word.
pub fn c_f3_bits(w: u16) -> (r: u8)
    ensures
        r == cfunct3_of(w),
        r < 8,
{
    proof {
        assert(((w >> 13) & 0x7) as u8 == cfunct3_of(w) && (((w >> 13) & 0x7) as u8) < 8)
            by (bit_vector);
    }
    ((w >> 13) & 0x7) as u8
}

/// Every compact register field names a register: the popular-register
/// fields stay within 8..16 and the full fields within 0..32, and the
/// compact shift amount stays within its six bits.
pub proof fn lemma_compact_field_bounds(w: u16)
    by (bit_vector)
    ensures
        8 <= crd_of(w) < 16,
        8 <= crs1_of(w) < 16,
        ci_rd_of(w) < 32,
        cr_rs2_of(w) < 32,
        cshamt_of(w) < 64,
        ((w as u32) >> 2) & 0x7 < 8,
        ((w as u32) >> 7) & 0x7 < 8,
{
}

/// The popular-register operand rd'/rs2' of the CIW, CL and CS formats.
pub fn c_rd_bits(w: u16) -> (r: u8)
    ensures
        r == crd_of(w),
        8 <= r < 16,
{
    proof {
        lemma_compact_field_bounds(w);
    }
    (((((w as u32) >> 2) & 0x7) + 8) as u8)
}

/// The popular-register operand rs1' of the CL, CS and CB formats.
pub fn c_rs1_bits(w: u16) -> (r: u8)
    ensures
        r == crs1_of(w),
        8 <= r < 16,
{
    proof {
        lemma_compact_field_bounds(w);
    }
    (((((w as u32) >> 7) & 0x7) + 8) as u8)
}

/// The full register operand rd/rs1 of the CI and CR formats.
pub fn c_ci_rd_bits(w: u16) -> (r: u8)
    ensures
        r == ci_rd_of(w),
        r < 32,
{
    proof {
        lemma_compact_field_bounds(w);
    }
    ((((w as u32) >> 7) & 0x1f) as u8)
}

/// The full register operand rs2 of the CR and CSS formats.
pub fn c_cr_rs2_bits(w: u16) -> (r: u8)
    ensures
        r == cr_rs2_of(w),
        r < 32,
{
    proof {
        lemma_compact_field_bounds(w);
    }
    ((((w as u32) >> 2) & 0x1f) as u8)
}

/// The CIW-format zero-extended immediate of the stack-pointer add.
pub fn c_ciw_uimm_bits(w: u16) -> (r: u32)
    ensures
        r == ciw_uimm_of(w),
{
    ((((w as u32) >> 11) & 0x3) << 4) | ((((w as u32) >> 7) & 0xf) << 6) | ((((w as u32) >> 6)
        & 0x1) << 2) | ((((w as u32) >> 5) & 0x1) << 3)
}

/// The CL/CS-format word offset.
pub fn c_lw_uimm_bits(w: u16) -> (r: u32)
    ensures
        r == clw_uimm_of(w),
{
    ((((w as u32) >> 10) & 0x7) << 3) | ((((w as u32) >> 6) & 0x1) << 2) | ((((w as u32) >> 5)
        & 0x1) << 6)
}

/// The CL/CS-format doubleword offset.
pub fn c_ld_uimm_bits(w: u16) -> (r: u32)
    ensures
        r == cld_uimm_of(w),
{
    ((((w as u32) >> 10) & 0x7) << 3) | ((((w as u32) >> 5) & 0x3) << 6)
}

/// The CL/CS-format quadword offset.
pub fn c_lq_uimm_bits(w: u16) -> (r: u32)
    ensures
        r == clq_uimm_of(w),
{
    ((((w as u32) >> 11) & 0x3) << 4) | ((((w as u32) >> 10) & 0x1) << 8) | ((((w as u32) >> 5)
        & 0x3) << 6)
}

/// The CI-format stack-relative word-load offset.
pub fn c_lwsp_uimm_bits(w: u16) -> (r: u32)
    ensures
        r == clwsp_uimm_of(w),
{
    ((((w as u32) >> 12) & 0x1) << 5) | ((((w as u32) >> 4) & 0x7) << 2) | ((((w as u32) >> 2)
        & 0x3) << 6)
}

/// The CI-format stack-relative doubleword-load offset.
pub fn c_ldsp_uimm_bits(w: u16) -> (r: u32)
    ensures
        r == cldsp_uimm_of(w),
{
    ((((w as u32) >> 12) & 0x1) << 5) | ((((w as u32) >> 5) & 0x3) << 3) | ((((w as u32) >> 2)
        & 0x7) << 6)
}

/// The CSS-format stack-relative word-store offset.
pub fn c_swsp_uimm_bits(w: u16) -> (r: u32)
    ensures
        r == cswsp_uimm_of(w),
{
    ((((w as u32) >> 9) & 0xf) << 2) | ((((w as u32) >> 7) & 0x3) << 6)
}

/// The CSS-format stack-relative doubleword-store offset.
pub fn c_sdsp_uimm_bits(w: u16) -> (r: u32)
    ensures
        r == csdsp_uimm_of(w),
{
    ((((w as u32) >> 10) & 0x7) << 3) | ((((w as u32) >> 7) & 0x7) << 6)
}

/// The CI-format shift amount.
pub fn c_shamt_bits(w: u16) -> (r: u8)
    ensures
        r == cshamt_of(w),
        r < 64,
{
    proof {
        lemma_compact_field_bounds(w);
    }
    ((((((w as u32) >> 12) & 0x1) << 5) | (((w as u32) >> 2) & 0x1f)) as u8)
}

/// The CI-format signed immediate, sign-extended.
pub fn c_ci_imm_bits(w: u16) -> (r: i32)
    ensures
        r as int == cimm6_of(w),
{
    let v: u32 = ((((w as u32) >> 12) & 0x1) << 5) | (((w as u32) >> 2) & 0x1f);
    let r: i32 = if v < 0x20 {
        v as i32
    } else {
        (v | 0xffffffc0) as i32
    };
    proof {
        let vv = ((((w as u32) >> 12) & 0x1) << 5) | (((w as u32) >> 2) & 0x1f);
        assert((if vv < 0x20 {
            vv as i32
        } else {
            (vv | 0xffffffc0) as i32
        }) as int == sext6(vv)) by (bit_vector)
            requires
                vv == ((((w as u32) >> 12) & 0x1) << 5) | (((w as u32) >> 2) & 0x1f),
        ;
    }
    r
}

/// The CI-format load-upper immediate, sign-extended and placed in bits
/// [17:12].
pub fn c_lui_imm_bits(w: u16) -> (r: i32)
    ensures
        r as int == clui_imm_of(w),
{
    let v: u32 = ((((w as u32) >> 12) & 0x1) << 5) | (((w as u32) >> 2) & 0x1f);
    let r: i32 = if v < 0x20 {
        (v << 12) as i32
    } else {
        ((v << 12) | 0xfffc0000) as i32
    };
    proof {
        let vv = ((((w as u32) >> 12) & 0x1) << 5) | (((w as u32) >> 2) & 0x1f);
        assert((if vv < 0x20 {
            (vv << 12) as i32
        } else {
            ((vv << 12) | 0xfffc0000) as i32
        }) as int == sext6(vv) * 0x1000) by (bit_vector)
            requires
                vv == ((((w as u32) >> 12) & 0x1) << 5) | (((w as u32) >> 2) & 0x1f),
        ;
    }
    r
}

/// The CJ-format jump target offset, sign-extended; always even.
pub fn c_j_imm_bits(w: u16) -> (r: i32)
    ensures
        r as int == cj_imm_of(w),
{
    let v: u32 = ((((w as u32) >> 12) & 0x1) << 11) | ((((w as u32) >> 11) & 0x1) << 4) | ((((
    w as u32) >> 9) & 0x3) << 8) | ((((w as u32) >> 8) & 0x1) << 10) | ((((w as u32) >> 7) & 0x1)
        << 6) | ((((w as u32) >> 6) & 0x1) << 7) | ((((w as u32) >> 3) & 0x7) << 1) | ((((w as u32)
        >> 2) & 0x1) << 5);
    let r: i32 = if v < 0x800 {
        v as i32
    } else {
        (v | 0xfffff000) as i32
    };
    proof {
        let vv = ((((w as u32) >> 12) & 0x1) << 11) | ((((w as u32) >> 11) & 0x1) << 4) | ((((
        w as u32) >> 9) & 0x3) << 8) | ((((w as u32) >> 8) & 0x1) << 10) | ((((w as u32) >> 7)
            & 0x1) << 6) | ((((w as u32) >> 6) & 0x1) << 7) | ((((w as u32) >> 3) & 0x7) << 1) | ((
        ((w as u32) >> 2) & 0x1) << 5);
        assert((if vv < 0x800 {
            vv as i32
        } else {
            (vv | 0xfffff000) as i32
        }) as int == sext12(vv)) by (bit_vector)
            requires
                vv == ((((w as u32) >> 12) & 0x1) << 11) | ((((w as u32) >> 11) & 0x1) << 4) | ((((
                w as u32) >> 9) & 0x3) << 8) | ((((w as u32) >> 8) & 0x1) << 10) | ((((w as u32)
                    >> 7) & 0x1) << 6) | ((((w as u32) >> 6) & 0x1) << 7) | ((((w as u32) >> 3)
                    & 0x7) << 1) | ((((w as u32) >> 2) & 0x1) << 5),
        ;
    }
    r
}

/// The CB-format branch offset, sign-extended; always even.
pub fn c_b_imm_bits(w: u16) -> (r: i32)
    ensures
        r as int == cb_imm_of(w),
{
    let v: u32 = ((((w as u32) >> 12) & 0x1) << 8) | ((((w as u32) >> 10) & 0x3) << 3) | ((((
    w as u32) >> 5) & 0x3) << 6) | ((((w as u32) >> 3) & 0x3) << 1) | ((((w as u32) >> 2) & 0x1)
        << 5);
    let r: i32 = if v < 0x100 {
        v as i32
    } else {
        (v | 0xfffffe00) as i32
    };
    proof {
        let vv = ((((w as u32) >> 12) & 0x1) << 8) | ((((w as u32) >> 10) & 0x3) << 3) | ((((
        w as u32) >> 5) & 0x3) << 6) | ((((w as u32) >> 3) & 0x3) << 1) | ((((w as u32) >> 2) & 0x1)
            << 5);
        assert((if vv < 0x100 {
            vv as i32
        } else {
            (vv | 0xfffffe00) as i32
        }) as int == sext9(vv)) by (bit_vector)
            requires
                vv == ((((w as u32) >> 12) & 0x1) << 8) | ((((w as u32) >> 10) & 0x3) << 3) | ((((
                w as u32) >> 5) & 0x3) << 6) | ((((w as u32) >> 3) & 0x3) << 1) | ((((w as u32)
                    >> 2) & 0x1) << 5),
        ;
    }
    r
}

} // verus!
