//! The decode engine's length selection, truncation handling and byte
//! source behavior.

use rvdec::decode;
use rvdec::ByteReader;
use rvdec::ByteSlice;
use rvdec::DecodeError;
use rvdec::Gpr;
use rvdec::Inst;
use rvdec::Xlen;

#[test]
fn byte_slice_hands_bytes_out_in_order() {
    let data: [u8; 3] = [1, 2, 3];
    let mut r = ByteSlice::from(&data);
    assert_eq!(r.next(), Some(1));
    assert_eq!(r.next(), Some(2));
    assert_eq!(r.next(), Some(3));
    assert_eq!(r.next(), None);
    assert_eq!(r.next(), None);
}

#[test]
fn empty_input_is_truncated() {
    let mut r = ByteSlice::from(&[]);
    assert_eq!(decode(&mut r, Xlen::Rv64), Err(DecodeError::Truncated));
}

#[test]
fn compact_path_needs_two_bytes() {
    // Low bits 00, 01 and 10 all select the 2-byte path; one byte alone
    // is a truncation, never an out-of-bounds read.
    for b0 in [0x00u8, 0x01, 0x02] {
        let bytes: [u8; 1] = [b0];
        let mut r = ByteSlice::from(&bytes);
        assert_eq!(decode(&mut r, Xlen::Rv64), Err(DecodeError::Truncated));
    }
}

#[test]
fn standard_path_needs_four_bytes() {
    // Low bits 11 select the 4-byte path; one, two or three bytes are a
    // truncation.
    for len in 1..4usize {
        let bytes = vec![0x13u8, 0x05, 0x40, 0x00][..len].to_vec();
        let mut r = ByteSlice::from(&bytes);
        assert_eq!(decode(&mut r, Xlen::Rv64), Err(DecodeError::Truncated));
    }
}

#[test]
fn quadrant_selects_length() {
    // Any first byte with low bits 11 consumes four bytes; any other
    // first byte consumes two.
    let standard: [u8; 4] = [0x13, 0x05, 0x40, 0x00];
    let mut r = ByteSlice::from(&standard);
    let (_, n) = decode(&mut r, Xlen::Rv64).unwrap();
    assert_eq!(n, 4);
    for b0 in [0x00u8, 0x01, 0x02, 0x04, 0x81, 0xFE] {
        let bytes: [u8; 2] = [b0, 0x00];
        let mut r = ByteSlice::from(&bytes);
        let (_, n) = decode(&mut r, Xlen::Rv64).unwrap();
        assert_eq!(n, 2);
    }
}

#[test]
fn extra_bytes_stay_behind() {
    // Decoding consumes exactly the instruction's bytes; a following
    // instruction decodes from the same source.
    let program: [u8; 6] = [0x13, 0x05, 0x40, 0x00, 0x82, 0x80];
    let mut r = ByteSlice::from(&program);
    let (i1, n1) = decode(&mut r, Xlen::Rv64).unwrap();
    assert_eq!(i1, Inst::ADDI(Gpr::a0, Gpr::zero, 4));
    assert_eq!(n1, 4);
    let (i2, n2) = decode(&mut r, Xlen::Rv64).unwrap();
    assert_eq!(i2, Inst::CJR(Gpr::ra));
    assert_eq!(n2, 2);
    assert_eq!(decode(&mut r, Xlen::Rv64), Err(DecodeError::Truncated));
}

#[test]
fn decoding_is_pure() {
    // Identical inputs yield identical results.
    let bytes: [u8; 4] = [0xF3, 0x10, 0x01, 0x30];
    let mut a = ByteSlice::from(&bytes);
    let mut b = ByteSlice::from(&bytes);
    assert_eq!(decode(&mut a, Xlen::Rv64), decode(&mut b, Xlen::Rv64));
}
