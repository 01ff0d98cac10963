//! Register and control/status register symbol resolution.

use rvdec::Csr;
use rvdec::Gpr;

#[test]
fn gpr_resolution_is_total_below_32() {
    for i in 0..32u8 {
        assert!(Gpr::from_u8(i).is_some());
    }
}

#[test]
fn gpr_resolution_fails_from_32_up() {
    assert!(Gpr::from_u8(32).is_none());
    assert!(Gpr::from_u8(33).is_none());
    assert!(Gpr::from_u8(255).is_none());
}

#[test]
fn gpr_resolution_is_injective() {
    let mut regs: Vec<Gpr> = Vec::new();
    for i in 0..32u8 {
        regs.push(Gpr::from_u8(i).unwrap());
    }
    for i in 0..32 {
        for j in 0..32 {
            if i != j {
                assert!(regs[i] != regs[j]);
            }
        }
    }
}

#[test]
fn gpr_canonical_names() {
    assert_eq!(Gpr::from_u8(0), Some(Gpr::zero));
    assert_eq!(Gpr::from_u8(1), Some(Gpr::ra));
    assert_eq!(Gpr::from_u8(2), Some(Gpr::sp));
    assert_eq!(Gpr::from_u8(8), Some(Gpr::fp));
    assert_eq!(Gpr::from_u8(10), Some(Gpr::a0));
    assert_eq!(Gpr::from_u8(17), Some(Gpr::a7));
    assert_eq!(Gpr::from_u8(18), Some(Gpr::s2));
    assert_eq!(Gpr::from_u8(27), Some(Gpr::s11));
    assert_eq!(Gpr::from_u8(28), Some(Gpr::t3));
    assert_eq!(Gpr::from_u8(31), Some(Gpr::t6));
}

#[test]
fn csr_exact_table_entries() {
    assert_eq!(Csr::from_u16(0x001), Csr::fflags);
    assert_eq!(Csr::from_u16(0x002), Csr::frm);
    assert_eq!(Csr::from_u16(0x300), Csr::mstatus);
    assert_eq!(Csr::from_u16(0x301), Csr::misa);
    assert_eq!(Csr::from_u16(0x305), Csr::mtvec);
    assert_eq!(Csr::from_u16(0x341), Csr::mepc);
    assert_eq!(Csr::from_u16(0x100), Csr::sstatus);
    assert_eq!(Csr::from_u16(0x180), Csr::satp);
    assert_eq!(Csr::from_u16(0x600), Csr::hstatus);
    assert_eq!(Csr::from_u16(0x680), Csr::hgatp);
    assert_eq!(Csr::from_u16(0x200), Csr::vsstatus);
    assert_eq!(Csr::from_u16(0xc00), Csr::cycle);
    assert_eq!(Csr::from_u16(0xc80), Csr::cycleh);
    assert_eq!(Csr::from_u16(0xb00), Csr::mcycle);
    assert_eq!(Csr::from_u16(0xf11), Csr::mvendorid);
    assert_eq!(Csr::from_u16(0xf15), Csr::mconfigptr);
    assert_eq!(Csr::from_u16(0x7a0), Csr::tselect);
    assert_eq!(Csr::from_u16(0x7b3), Csr::dscratch1);
    assert_eq!(Csr::from_u16(0xe12), Csr::hgeip);
    assert_eq!(Csr::from_u16(0x320), Csr::mcountinhibit);
}

#[test]
fn csr_indexed_families() {
    // The documented examples: 0xc05 is hpmcounter 5, 0x3c2 is pmpcfg 34.
    assert_eq!(Csr::from_u16(0xc05), Csr::hpmcounter(5));
    assert_eq!(Csr::from_u16(0x3c2), Csr::pmpcfg(34));
    // Range starts and last members.
    assert_eq!(Csr::from_u16(0xc03), Csr::hpmcounter(3));
    assert_eq!(Csr::from_u16(0xc1f), Csr::hpmcounter(31));
    assert_eq!(Csr::from_u16(0xc83), Csr::hpmcounterh(3));
    assert_eq!(Csr::from_u16(0xc9f), Csr::hpmcounterh(31));
    assert_eq!(Csr::from_u16(0x3a0), Csr::pmpcfg(0));
    assert_eq!(Csr::from_u16(0x3ef), Csr::pmpcfg(79));
    assert_eq!(Csr::from_u16(0xb03), Csr::mhpmcounter(3));
    assert_eq!(Csr::from_u16(0xb1e), Csr::mhpmcounter(30));
    assert_eq!(Csr::from_u16(0xb83), Csr::mhpmcounterh(3));
    assert_eq!(Csr::from_u16(0xb9f), Csr::mhpmcounterh(31));
    assert_eq!(Csr::from_u16(0x323), Csr::mhpmevent(3));
    assert_eq!(Csr::from_u16(0x33f), Csr::mhpmevent(31));
}

#[test]
fn csr_unknown_fallback() {
    // Just outside each family range, and plainly unassigned addresses:
    // the unknown symbol carries the raw address, and nothing fails.
    assert_eq!(Csr::from_u16(0xc20), Csr::unknown(0xc20));
    assert_eq!(Csr::from_u16(0xca0), Csr::unknown(0xca0));
    assert_eq!(Csr::from_u16(0x39f), Csr::unknown(0x39f));
    assert_eq!(Csr::from_u16(0x3f0), Csr::unknown(0x3f0));
    assert_eq!(Csr::from_u16(0xb1f), Csr::unknown(0xb1f));
    assert_eq!(Csr::from_u16(0xba0), Csr::unknown(0xba0));
    assert_eq!(Csr::from_u16(0x7c0), Csr::unknown(0x7c0));
    assert_eq!(Csr::from_u16(0x000), Csr::unknown(0x000));
    assert_eq!(Csr::from_u16(0xfff), Csr::unknown(0xfff));
}
