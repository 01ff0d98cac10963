//! Decoding of 32-bit standard-format instructions.

use rvdec::decode;
use rvdec::ByteSlice;
use rvdec::Csr;
use rvdec::Gpr;
use rvdec::Inst;
use rvdec::Xlen;

fn dec64(bytes: &[u8]) -> (Inst, u8) {
    let mut r = ByteSlice::from(bytes);
    decode(&mut r, Xlen::Rv64).unwrap()
}

fn dec32(bytes: &[u8]) -> (Inst, u8) {
    let mut r = ByteSlice::from(bytes);
    decode(&mut r, Xlen::Rv32).unwrap()
}

fn word(w: u32) -> [u8; 4] {
    [w as u8, (w >> 8) as u8, (w >> 16) as u8, (w >> 24) as u8]
}

#[test]
fn addi_scenario() {
    // Little-endian word 0x00400513: add-immediate, rd = 10, rs1 = 0,
    // immediate 4.
    let (i, n) = dec64(&[0x13, 0x05, 0x40, 0x00]);
    assert_eq!(i, Inst::ADDI(Gpr::a0, Gpr::zero, 4));
    assert_eq!(n, 4);
}

#[test]
fn csrrw_scenario() {
    // Little-endian word 0x300110F3: read-and-write of the machine
    // status register, rd = 1, rs1 = 2.
    let (i, n) = dec64(&[0xF3, 0x10, 0x01, 0x30]);
    assert_eq!(i, Inst::CSRRW(Gpr::ra, Gpr::sp, Csr::mstatus));
    assert_eq!(n, 4);
}

#[test]
fn load_reserved_with_nonzero_rs2_is_undefined() {
    // Atomic-memory opcode, funct3 = doubleword, funct5 = load-reserved,
    // second source-register field nonzero: undefined.
    let w: u32 = (0b00010 << 27) | (1 << 20) | (0b011 << 12) | 0b0101111;
    assert_eq!(w, 0x1010302F);
    let (i, n) = dec64(&word(w));
    assert_eq!(i, Inst::UNDEF(w));
    assert_eq!(n, 4);
}

#[test]
fn load_reserved_with_zero_rs2() {
    let w: u32 = (0b00010 << 27) | (1 << 15) | (0b010 << 12) | (2 << 7) | 0b0101111;
    let (i, _) = dec64(&word(w));
    assert_eq!(i, Inst::LRW(Gpr::sp, Gpr::ra));
    let wd: u32 = (0b00010 << 27) | (1 << 15) | (0b011 << 12) | (2 << 7) | 0b0101111;
    let (i, _) = dec64(&word(wd));
    assert_eq!(i, Inst::LRD(Gpr::sp, Gpr::ra));
}

#[test]
fn loads() {
    let lw: u32 = (8 << 20) | (2 << 15) | (0b010 << 12) | (10 << 7) | 0b0000011;
    assert_eq!(dec64(&word(lw)).0, Inst::LW(Gpr::a0, Gpr::sp, 8));
    let lbu: u32 = (0xfff << 20) | (2 << 15) | (0b100 << 12) | (10 << 7) | 0b0000011;
    assert_eq!(dec64(&word(lbu)).0, Inst::LBU(Gpr::a0, Gpr::sp, -1));
    let ld: u32 = (0b011 << 12) | 0b0000011;
    assert_eq!(dec64(&word(ld)).0, Inst::LD(Gpr::zero, Gpr::zero, 0));
    let bad: u32 = (0b111 << 12) | 0b0000011;
    assert_eq!(dec64(&word(bad)).0, Inst::UNDEF(bad));
}

#[test]
fn stores() {
    // sw t0, 8(sp): base rs1 = 2, stored rs2 = 5, offset 8.
    let sw: u32 = (5 << 20) | (2 << 15) | (0b010 << 12) | (8 << 7) | 0b0100011;
    assert_eq!(dec64(&word(sw)).0, Inst::SW(Gpr::sp, Gpr::t0, 8));
    let sd: u32 = (5 << 20) | (2 << 15) | (0b011 << 12) | (8 << 7) | 0b0100011;
    assert_eq!(dec64(&word(sd)).0, Inst::SD(Gpr::sp, Gpr::t0, 8));
    let bad: u32 = (0b100 << 12) | 0b0100011;
    assert_eq!(dec64(&word(bad)).0, Inst::UNDEF(bad));
}

#[test]
fn branches() {
    // beq ra, sp, -4096: bit 31 is immediate bit 12.
    let beq: u32 = (1u32 << 31) | (2 << 20) | (1 << 15) | 0b1100011;
    assert_eq!(dec64(&word(beq)).0, Inst::BEQ(Gpr::ra, Gpr::sp, -4096));
    let bltu: u32 = (2 << 20) | (1 << 15) | (0b110 << 12) | (1 << 8) | 0b1100011;
    assert_eq!(dec64(&word(bltu)).0, Inst::BLTU(Gpr::ra, Gpr::sp, 2));
    let bad: u32 = (0b010 << 12) | 0b1100011;
    assert_eq!(dec64(&word(bad)).0, Inst::UNDEF(bad));
}

#[test]
fn jumps() {
    // jal ra, -2: every immediate bit set.
    let jal: u32 = 0xFFFFF0EF;
    assert_eq!(dec64(&word(jal)).0, Inst::JAL(Gpr::ra, -2));
    let jalr: u32 = (4 << 20) | (1 << 15) | (2 << 7) | 0b1100111;
    assert_eq!(dec64(&word(jalr)).0, Inst::JALR(Gpr::sp, Gpr::ra, 4));
}

#[test]
fn upper_immediates_left_in_place() {
    let lui: u32 = 0x12345537;
    assert_eq!(dec64(&word(lui)).0, Inst::LUI(Gpr::a0, 0x12345000));
    let auipc: u32 = 0x12345517;
    assert_eq!(dec64(&word(auipc)).0, Inst::AUIPC(Gpr::a0, 0x12345000));
}

#[test]
fn register_register_ops() {
    let add: u32 = (3 << 20) | (2 << 15) | (1 << 7) | 0b0110011;
    assert_eq!(dec64(&word(add)).0, Inst::ADD(Gpr::ra, Gpr::sp, Gpr::gp));
    let sub: u32 = (0x20 << 25) | (3 << 20) | (2 << 15) | (1 << 7) | 0b0110011;
    assert_eq!(dec64(&word(sub)).0, Inst::SUB(Gpr::ra, Gpr::sp, Gpr::gp));
    let mul: u32 = (1 << 25) | (3 << 20) | (2 << 15) | (1 << 7) | 0b0110011;
    assert_eq!(dec64(&word(mul)).0, Inst::MUL(Gpr::ra, Gpr::sp, Gpr::gp));
    let and: u32 = (3 << 20) | (2 << 15) | (0b111 << 12) | (1 << 7) | 0b0110011;
    assert_eq!(dec64(&word(and)).0, Inst::AND(Gpr::ra, Gpr::sp, Gpr::gp));
    let remu: u32 = (1 << 25) | (3 << 20) | (2 << 15) | (0b111 << 12) | (1 << 7) | 0b0110011;
    assert_eq!(dec64(&word(remu)).0, Inst::REMU(Gpr::ra, Gpr::sp, Gpr::gp));
    let bad: u32 = (0x15 << 25) | 0b0110011;
    assert_eq!(dec64(&word(bad)).0, Inst::UNDEF(bad));
}

#[test]
fn word_truncating_ops() {
    let sraw: u32 = (0x20 << 25) | (2 << 20) | (1 << 15) | (0b101 << 12) | (3 << 7) | 0b0111011;
    assert_eq!(dec64(&word(sraw)).0, Inst::SRAW(Gpr::gp, Gpr::ra, Gpr::sp));
    let sllw: u32 = (2 << 20) | (1 << 15) | (0b001 << 12) | (3 << 7) | 0b0111011;
    assert_eq!(dec64(&word(sllw)).0, Inst::SLLW(Gpr::gp, Gpr::ra, Gpr::sp));
    let divw: u32 = (1 << 25) | (2 << 20) | (1 << 15) | (0b100 << 12) | (3 << 7) | 0b0111011;
    assert_eq!(dec64(&word(divw)).0, Inst::DIVW(Gpr::gp, Gpr::ra, Gpr::sp));
    let addiw: u32 = (5 << 20) | (1 << 15) | (2 << 7) | 0b0011011;
    assert_eq!(dec64(&word(addiw)).0, Inst::ADDIW(Gpr::sp, Gpr::ra, 5));
    let slliw: u32 = (5 << 20) | (1 << 15) | (0b001 << 12) | (2 << 7) | 0b0011011;
    assert_eq!(dec64(&word(slliw)).0, Inst::SLLIW(Gpr::sp, Gpr::ra, 5));
    let bad_slliw: u32 = slliw | (1 << 25);
    assert_eq!(dec64(&word(bad_slliw)).0, Inst::UNDEF(bad_slliw));
}

#[test]
fn shift_immediates_depend_on_width() {
    // Shift amount 37 uses the sixth bit: valid from width 64 up, an
    // undefined word at width 32.
    let slli37: u32 = (37 << 20) | (1 << 15) | (0b001 << 12) | (1 << 7) | 0b0010011;
    assert_eq!(dec64(&word(slli37)).0, Inst::SLLI(Gpr::ra, Gpr::ra, 37));
    assert_eq!(dec32(&word(slli37)).0, Inst::UNDEF(slli37));
    // Shift amount 5 decodes on both.
    let slli5: u32 = (5 << 20) | (1 << 15) | (0b001 << 12) | (1 << 7) | 0b0010011;
    assert_eq!(dec64(&word(slli5)).0, Inst::SLLI(Gpr::ra, Gpr::ra, 5));
    assert_eq!(dec32(&word(slli5)).0, Inst::SLLI(Gpr::ra, Gpr::ra, 5));
    // Arithmetic right shift: funct6 0x10 at width 64, funct7 0x20 at 32.
    let srai: u32 = (0x20 << 25) | (5 << 20) | (1 << 15) | (0b101 << 12) | (1 << 7) | 0b0010011;
    assert_eq!(dec64(&word(srai)).0, Inst::SRAI(Gpr::ra, Gpr::ra, 5));
    assert_eq!(dec32(&word(srai)).0, Inst::SRAI(Gpr::ra, Gpr::ra, 5));
}

#[test]
fn fences() {
    assert_eq!(dec64(&word(0x0000000F)).0, Inst::FENCE(Gpr::zero, Gpr::zero, 0));
    assert_eq!(dec64(&word(0x0000100F)).0, Inst::FENCEI(Gpr::zero, Gpr::zero, 0));
    let bad: u32 = (0b010 << 12) | 0b0001111;
    assert_eq!(dec64(&word(bad)).0, Inst::UNDEF(bad));
}

#[test]
fn environment_and_trap_returns() {
    assert_eq!(dec64(&word(0x00000073)).0, Inst::ECALL);
    assert_eq!(dec64(&word(0x00100073)).0, Inst::EBREAK);
    assert_eq!(dec64(&word(0x10200073)).0, Inst::SRET);
    assert_eq!(dec64(&word(0x30200073)).0, Inst::MRET);
    assert_eq!(dec64(&word(0x10500073)).0, Inst::WFI);
    // A nonzero rd makes the whole tuple miss the table.
    assert_eq!(dec64(&word(0x000000F3)).0, Inst::UNDEF(0x000000F3));
}

#[test]
fn supervisor_fences() {
    let sfence: u32 = (0b0001001 << 25) | (3 << 20) | (4 << 15) | 0b1110011;
    assert_eq!(dec64(&word(sfence)).0, Inst::SFENCEVMA(Gpr::tp, Gpr::gp));
    let winval: u32 = (0b0001100 << 25) | 0b1110011;
    assert_eq!(dec64(&word(winval)).0, Inst::SFENCEWINVAL);
    let invalir: u32 = (0b0001100 << 25) | (1 << 20) | 0b1110011;
    assert_eq!(dec64(&word(invalir)).0, Inst::SFENCEINVALIR);
    let hfence: u32 = (0b0110001 << 25) | (3 << 20) | (4 << 15) | 0b1110011;
    assert_eq!(dec64(&word(hfence)).0, Inst::HFENCEGVMA(Gpr::tp, Gpr::gp));
}

#[test]
fn hypervisor_loads_and_stores() {
    let hlvb: u32 = (0b0110000 << 25) | (5 << 15) | (0b100 << 12) | (6 << 7) | 0b1110011;
    assert_eq!(dec64(&word(hlvb)).0, Inst::HLVB(Gpr::t1, Gpr::t0));
    let hlvwu: u32 = (0b0110100 << 25) | (1 << 20) | (5 << 15) | (0b100 << 12) | (6 << 7)
        | 0b1110011;
    assert_eq!(dec64(&word(hlvwu)).0, Inst::HLVWU(Gpr::t1, Gpr::t0));
    let hsvd: u32 = (0b0110111 << 25) | (6 << 20) | (5 << 15) | (0b100 << 12) | 0b1110011;
    assert_eq!(dec64(&word(hsvd)).0, Inst::HSVD(Gpr::t0, Gpr::t1));
    // A store form with nonzero rd misses the table.
    let bad: u32 = hsvd | (1 << 7);
    assert_eq!(dec64(&word(bad)).0, Inst::UNDEF(bad));
}

#[test]
fn csr_immediate_forms() {
    // The zero-extended 5-bit immediate rides in the rs1 field.
    let csrrwi: u32 = (0x300 << 20) | (2 << 15) | (0b101 << 12) | (1 << 7) | 0b1110011;
    assert_eq!(dec64(&word(csrrwi)).0, Inst::CSRRWI(Gpr::ra, 2, Csr::mstatus));
    let csrrsi: u32 = (0xc05 << 20) | (31 << 15) | (0b110 << 12) | 0b1110011;
    assert_eq!(dec64(&word(csrrsi)).0, Inst::CSRRSI(Gpr::zero, 31, Csr::hpmcounter(5)));
    let csrrci: u32 = (0x7c0 << 20) | (1 << 15) | (0b111 << 12) | 0b1110011;
    assert_eq!(dec64(&word(csrrci)).0, Inst::CSRRCI(Gpr::zero, 1, Csr::unknown(0x7c0)));
}

#[test]
fn csr_register_forms() {
    let csrrs: u32 = (0xc01 << 20) | (0b010 << 12) | (10 << 7) | 0b1110011;
    assert_eq!(dec64(&word(csrrs)).0, Inst::CSRRS(Gpr::a0, Gpr::zero, Csr::time));
    let csrrc: u32 = (0x3c2 << 20) | (3 << 15) | (0b011 << 12) | (10 << 7) | 0b1110011;
    assert_eq!(dec64(&word(csrrc)).0, Inst::CSRRC(Gpr::a0, Gpr::gp, Csr::pmpcfg(34)));
}

#[test]
fn atomic_memory_operations() {
    let amoaddd: u32 = (3 << 20) | (1 << 15) | (0b011 << 12) | (4 << 7) | 0b0101111;
    assert_eq!(dec64(&word(amoaddd)).0, Inst::AMOADDD(Gpr::tp, Gpr::ra, Gpr::gp));
    let amoswapw: u32 = (0b00001 << 27) | (3 << 20) | (1 << 15) | (0b010 << 12) | (4 << 7)
        | 0b0101111;
    assert_eq!(dec64(&word(amoswapw)).0, Inst::AMOSWAPW(Gpr::tp, Gpr::ra, Gpr::gp));
    let amomaxu: u32 = (0b11100 << 27) | (3 << 20) | (1 << 15) | (0b010 << 12) | (4 << 7)
        | 0b0101111;
    assert_eq!(dec64(&word(amomaxu)).0, Inst::AMOMAXUW(Gpr::tp, Gpr::ra, Gpr::gp));
    let scd: u32 = (0b00011 << 27) | (3 << 20) | (1 << 15) | (0b011 << 12) | (4 << 7) | 0b0101111;
    assert_eq!(dec64(&word(scd)).0, Inst::SCD(Gpr::tp, Gpr::ra, Gpr::gp));
    // funct3 selects only word and doubleword forms.
    let bad: u32 = (0b000 << 12) | 0b0101111;
    assert_eq!(dec64(&word(bad)).0, Inst::UNDEF(bad));
}

#[test]
fn unassigned_opcode_is_undefined() {
    let w: u32 = 0x000000FF;
    let (i, n) = dec64(&word(w));
    assert_eq!(i, Inst::UNDEF(w));
    assert_eq!(n, 4);
}
