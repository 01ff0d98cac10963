//! Decoding of 16-bit compact-format instructions.

use rvdec::decode;
use rvdec::ByteSlice;
use rvdec::Gpr;
use rvdec::Inst;
use rvdec::Xlen;

fn dec(bytes: &[u8], xlen: Xlen) -> (Inst, u8) {
    let mut r = ByteSlice::from(bytes);
    decode(&mut r, xlen).unwrap()
}

fn halfword(w: u16) -> [u8; 2] {
    [w as u8, (w >> 8) as u8]
}

#[test]
fn zero_word_is_the_illegal_instruction() {
    // The literal zero word is special-cased away from the
    // stack-pointer-add form.
    let (i, n) = dec(&[0x00, 0x00], Xlen::Rv64);
    assert_eq!(i, Inst::CILLEGAL);
    assert_eq!(n, 2);
}

#[test]
fn stack_pointer_add() {
    // Quadrant 0, funct3 0, rd' field 1 names register 9; bit 12 is
    // offset bit 5.
    assert_eq!(dec(&halfword(0x0004), Xlen::Rv64).0, Inst::CADDI4SPN(Gpr::s1, 0));
    assert_eq!(dec(&halfword(0x1000), Xlen::Rv64).0, Inst::CADDI4SPN(Gpr::fp, 32));
}

#[test]
fn quadrant0_loads_depend_on_width() {
    // funct3 001: float-double load below width 128, quad load at 128.
    let w: u16 = 0x2000;
    assert_eq!(dec(&halfword(w), Xlen::Rv32).0, Inst::CFLD(8, Gpr::fp, 0));
    assert_eq!(dec(&halfword(w), Xlen::Rv64).0, Inst::CFLD(8, Gpr::fp, 0));
    assert_eq!(dec(&halfword(w), Xlen::Rv128).0, Inst::CLQ(Gpr::fp, Gpr::fp, 0));
    // funct3 011: float-word load at width 32, doubleword load above.
    let w3: u16 = 0x6000;
    assert_eq!(dec(&halfword(w3), Xlen::Rv32).0, Inst::CFLW(8, Gpr::fp, 0));
    assert_eq!(dec(&halfword(w3), Xlen::Rv64).0, Inst::CLD(Gpr::fp, Gpr::fp, 0));
}

#[test]
fn quadrant0_word_load_offsets() {
    // Word load: bits [12:10] are offset bits [5:3], bit 6 is offset
    // bit 2, bit 5 is offset bit 6.
    let w: u16 = 0x4000 | (1 << 10) | (1 << 6) | (2 << 7) | (3 << 2);
    let (i, _) = dec(&halfword(w), Xlen::Rv64);
    assert_eq!(i, Inst::CLW(Gpr::a1, Gpr::a0, 8 + 4));
}

#[test]
fn quadrant0_stores() {
    assert_eq!(dec(&halfword(0xC000), Xlen::Rv64).0, Inst::CSW(Gpr::fp, Gpr::fp, 0));
    assert_eq!(dec(&halfword(0xE000), Xlen::Rv64).0, Inst::CSD(Gpr::fp, Gpr::fp, 0));
    assert_eq!(dec(&halfword(0xE000), Xlen::Rv32).0, Inst::CFSW(Gpr::fp, 8, 0));
    assert_eq!(dec(&halfword(0xA000), Xlen::Rv64).0, Inst::CFSD(Gpr::fp, 8, 0));
    assert_eq!(dec(&halfword(0xA000), Xlen::Rv128).0, Inst::CSQ(Gpr::fp, Gpr::fp, 0));
}

#[test]
fn quadrant0_reserved_funct3_is_undefined() {
    let w: u16 = 0x8000;
    assert_eq!(dec(&halfword(w), Xlen::Rv64).0, Inst::CUNDEF(w));
}

#[test]
fn quadrant1_immediate_forms() {
    // addi ra, 1: full register field 1, immediate 1.
    assert_eq!(dec(&halfword(0x0085), Xlen::Rv64).0, Inst::CADDI(Gpr::ra, 1));
    // Negative immediate: bit 12 is the sign.
    assert_eq!(dec(&halfword(0x1085), Xlen::Rv64).0, Inst::CADDI(Gpr::ra, -31));
    assert_eq!(dec(&halfword(0x4085), Xlen::Rv64).0, Inst::CLI(Gpr::ra, 1));
    assert_eq!(dec(&halfword(0x6085), Xlen::Rv64).0, Inst::CLUI(Gpr::ra, 0x1000));
}

#[test]
fn quadrant1_jump_or_add_word_by_width() {
    // funct3 001: jump-and-link at width 32, add-word immediate above.
    let w: u16 = 0x2085;
    assert_eq!(dec(&halfword(w), Xlen::Rv64).0, Inst::CADDIW(Gpr::ra, 1));
    assert_eq!(dec(&halfword(w), Xlen::Rv128).0, Inst::CADDIW(Gpr::ra, 1));
    assert_eq!(dec(&halfword(w), Xlen::Rv32).0, Inst::CJAL(96));
}

#[test]
fn quadrant1_jumps_and_branches() {
    // Plain jump with offset bits 6 and 5 set.
    assert_eq!(dec(&halfword(0xA085), Xlen::Rv64).0, Inst::CJ(96));
    // Branch if zero/nonzero on a popular register.
    assert_eq!(dec(&halfword(0xC081), Xlen::Rv64).0, Inst::CBEQZ(Gpr::s1, 0));
    assert_eq!(dec(&halfword(0xE081), Xlen::Rv64).0, Inst::CBNEZ(Gpr::s1, 0));
    // Branch offset sign bit.
    assert_eq!(dec(&halfword(0xD081), Xlen::Rv64).0, Inst::CBEQZ(Gpr::s1, -256));
}

#[test]
fn quadrant1_arithmetic_funct3_is_undefined() {
    let w: u16 = 0x8085;
    assert_eq!(dec(&halfword(w), Xlen::Rv64).0, Inst::CUNDEF(w));
}

#[test]
fn quadrant2_shifts_depend_on_width() {
    let w: u16 = 0x0086;
    assert_eq!(dec(&halfword(w), Xlen::Rv32).0, Inst::CSLLI(Gpr::ra, 1));
    assert_eq!(dec(&halfword(w), Xlen::Rv64).0, Inst::CSLLI64(Gpr::ra));
    // Shift amount bit 5 rides in word bit 12.
    assert_eq!(dec(&halfword(0x1086), Xlen::Rv32).0, Inst::CSLLI(Gpr::ra, 33));
}

#[test]
fn quadrant2_stack_relative() {
    assert_eq!(dec(&halfword(0x4082), Xlen::Rv64).0, Inst::CLWSP(Gpr::ra, 0));
    // Word offset: bits [6:4] are offset [4:2], bits [3:2] offset [7:6].
    assert_eq!(dec(&halfword(0x4082 | (1 << 4) | (1 << 2)), Xlen::Rv64).0,
        Inst::CLWSP(Gpr::ra, 4 + 64));
    assert_eq!(dec(&halfword(0x2082), Xlen::Rv64).0, Inst::CFLDSP(1, 0));
    assert_eq!(dec(&halfword(0x6082), Xlen::Rv64).0, Inst::CFLWSP(1, 0));
    // Stores name rs2 in bits [6:2].
    assert_eq!(dec(&halfword(0xC08A), Xlen::Rv64).0, Inst::CSWSP(Gpr::sp, 64));
    assert_eq!(dec(&halfword(0xA00A), Xlen::Rv64).0, Inst::CFSDSP(2, 0));
    assert_eq!(dec(&halfword(0xE00A), Xlen::Rv64).0, Inst::CFSWSP(2, 0));
}

#[test]
fn quadrant2_jump_register() {
    // The return idiom: jump through ra.
    assert_eq!(dec(&halfword(0x8082), Xlen::Rv64).0, Inst::CJR(Gpr::ra));
}
