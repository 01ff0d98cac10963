//! The control/status register symbol table: a total map from the 12-bit
//! address space to a symbolic register. An address resolves to a named
//! architectural register, to a member of one of the six indexed register
//! families, or — for every unassigned address — to the explicit unknown
//! symbol carrying the raw address. Resolution never fails.

use vstd::prelude::*;

verus! {

/// A control/status register symbol: a named architectural register, a
/// member of an indexed family (carrying the family index), or the unknown
/// symbol carrying an unassigned raw address.
#[allow(non_camel_case_types)]
#[derive(Copy, Clone, PartialEq, Eq, Structural, Debug)]
pub enum Csr {
    unknown(u16),
    fflags,
    frm,
    fcr,
    cycle,
    time,
    instret,
    hpmcounter(u16),
    cycleh,
    timeh,
    instreth,
    hpmcounterh(u16),
    sstatus,
    sie,
    stvec,
    scounteren,
    senvcfg,
    sscratch,
    sepc,
    scause,
    stval,
    sip,
    satp,
    scontext,
    hstatus,
    hedeleg,
    hideleg,
    hie,
    hcounteren,
    hgeie,
    htval,
    hip,
    hvip,
    htinst,
    hgeip,
    henvcfg,
    henvcfgh,
    hgatp,
    hcontext,
    htimedelta,
    htimedeltah,
    vsstatus,
    vsie,
    vstvec,
    vsscratch,
    vsepc,
    vscause,
    vstval,
    vsip,
    vsatp,
    mvendorid,
    marchid,
    mimpid,
    mhartid,
    mconfigptr,
    mstatus,
    misa,
    medeleg,
    mideleg,
    mie,
    mtvec,
    mcounteren,
    mstatush,
    mscratch,
    mepc,
    mcause,
    mtval,
    mip,
    mtinst,
    mtval2,
    menvcfg,
    menvcfgh,
    mseccfg,
    mseccfgh,
    pmpcfg(u16),
    mcycle,
    minstret,
    mhpmcounter(u16),
    mcycleh,
    minstreth,
    mhpmcounterh(u16),
    mcountinhibit,
    mhpmevent(u16),
    tselect,
    tdata1,
    tdata2,
    tdata3,
    mcontext,
    dcsr,
    dpc,
    dscratch0,
    dscratch1,
}

/// True of the addresses held by the exact-match table of named registers.
pub open spec fn is_named_csr(a: u16) -> bool {
    ||| a == 0x001 || a == 0x002 || a == 0x003
    ||| a == 0xc00 || a == 0xc01 || a == 0xc02
    ||| a == 0xc80 || a == 0xc81 || a == 0xc82
    ||| a == 0x100 || a == 0x104 || a == 0x105 || a == 0x106 || a == 0x10a
    ||| a == 0x140 || a == 0x141 || a == 0x142 || a == 0x143 || a == 0x144
    ||| a == 0x180 || a == 0x58a
    ||| a == 0x600 || a == 0x602 || a == 0x603 || a == 0x604 || a == 0x606 || a == 0x607
    ||| a == 0x643 || a == 0x644 || a == 0x645 || a == 0x64a || a == 0xe12
    ||| a == 0x60a || a == 0x61a || a == 0x680 || a == 0x6a8
    ||| a == 0x605 || a == 0x615
    ||| a == 0x200 || a == 0x204 || a == 0x205 || a == 0x240 || a == 0x241 || a == 0x242
    ||| a == 0x243 || a == 0x244 || a == 0x280
    ||| a == 0xf11 || a == 0xf12 || a == 0xf13 || a == 0xf14 || a == 0xf15
    ||| a == 0x300 || a == 0x301 || a == 0x302 || a == 0x303 || a == 0x304 || a == 0x305
    ||| a == 0x306 || a == 0x310
    ||| a == 0x340 || a == 0x341 || a == 0x342 || a == 0x343 || a == 0x344 || a == 0x34a
    ||| a == 0x34b
    ||| a == 0x30a || a == 0x31a || a == 0x747 || a == 0x757
    ||| a == 0xb00 || a == 0xb02 || a == 0xb80 || a == 0xb82
    ||| a == 0x320
    ||| a == 0x7a0 || a == 0x7a1 || a == 0x7a2 || a == 0x7a3 || a == 0x7a8
    ||| a == 0x7b0 || a == 0x7b1 || a == 0x7b2 || a == 0x7b3
}

/// True of the addresses inside one of the six half-open indexed-family
/// ranges.
pub open spec fn is_family_csr(a: u16) -> bool {
    ||| 0xc03 <= a < 0xc20
    ||| 0xc83 <= a < 0xca0
    ||| 0x3a0 <= a < 0x3f0
    ||| 0xb03 <= a < 0xb1f
    ||| 0xb83 <= a < 0xba0
    ||| 0x323 <= a < 0x340
}

/// The symbol a 12-bit address resolves to: the named register from the
/// exact-match table, the indexed family member with index
/// `address - family base`, or the unknown symbol with the raw address.
pub open spec fn csr_at(a: u16) -> Csr {
    match a {
        0x001u16 => Csr::fflags,
        0x002u16 => Csr::frm,
        0x003u16 => Csr::fcr,
        0xc00u16 => Csr::cycle,
        0xc01u16 => Csr::time,
        0xc02u16 => Csr::instret,
        0xc80u16 => Csr::cycleh,
        0xc81u16 => Csr::timeh,
        0xc82u16 => Csr::instreth,
        0x100u16 => Csr::sstatus,
        0x104u16 => Csr::sie,
        0x105u16 => Csr::stvec,
        0x106u16 => Csr::scounteren,
        0x10au16 => Csr::senvcfg,
        0x140u16 => Csr::sscratch,
        0x141u16 => Csr::sepc,
        0x142u16 => Csr::scause,
        0x143u16 => Csr::stval,
        0x144u16 => Csr::sip,
        0x180u16 => Csr::satp,
        0x58au16 => Csr::scontext,
        0x600u16 => Csr::hstatus,
        0x602u16 => Csr::hedeleg,
        0x603u16 => Csr::hideleg,
        0x604u16 => Csr::hie,
        0x606u16 => Csr::hcounteren,
        0x607u16 => Csr::hgeie,
        0x643u16 => Csr::htval,
        0x644u16 => Csr::hip,
        0x645u16 => Csr::hvip,
        0x64au16 => Csr::htinst,
        0xe12u16 => Csr::hgeip,
        0x60au16 => Csr::henvcfg,
        0x61au16 => Csr::henvcfgh,
        0x680u16 => Csr::hgatp,
        0x6a8u16 => Csr::hcontext,
        0x605u16 => Csr::htimedelta,
        0x615u16 => Csr::htimedeltah,
        0x200u16 => Csr::vsstatus,
        0x204u16 => Csr::vsie,
        0x205u16 => Csr::vstvec,
        0x240u16 => Csr::vsscratch,
        0x241u16 => Csr::vsepc,
        0x242u16 => Csr::vscause,
        0x243u16 => Csr::vstval,
        0x244u16 => Csr::vsip,
        0x280u16 => Csr::vsatp,
        0xf11u16 => Csr::mvendorid,
        0xf12u16 => Csr::marchid,
        0xf13u16 => Csr::mimpid,
        0xf14u16 => Csr::mhartid,
        0xf15u16 => Csr::mconfigptr,
        0x300u16 => Csr::mstatus,
        0x301u16 => Csr::misa,
        0x302u16 => Csr::medeleg,
        0x303u16 => Csr::mideleg,
        0x304u16 => Csr::mie,
        0x305u16 => Csr::mtvec,
        0x306u16 => Csr::mcounteren,
        0x310u16 => Csr::mstatush,
        0x340u16 => Csr::mscratch,
        0x341u16 => Csr::mepc,
        0x342u16 => Csr::mcause,
        0x343u16 => Csr::mtval,
        0x344u16 => Csr::mip,
        0x34au16 => Csr::mtinst,
        0x34bu16 => Csr::mtval2,
        0x30au16 => Csr::menvcfg,
        0x31au16 => Csr::menvcfgh,
        0x747u16 => Csr::mseccfg,
        0x757u16 => Csr::mseccfgh,
        0xb00u16 => Csr::mcycle,
        0xb02u16 => Csr::minstret,
        0xb80u16 => Csr::mcycleh,
        0xb82u16 => Csr::minstreth,
        0x320u16 => Csr::mcountinhibit,
        0x7a0u16 => Csr::tselect,
        0x7a1u16 => Csr::tdata1,
        0x7a2u16 => Csr::tdata2,
        0x7a3u16 => Csr::tdata3,
        0x7a8u16 => Csr::mcontext,
        0x7b0u16 => Csr::dcsr,
        0x7b1u16 => Csr::dpc,
        0x7b2u16 => Csr::dscratch0,
        0x7b3u16 => Csr::dscratch1,
        _ => {
            if 0xc03 <= a && a < 0xc20 {
                Csr::hpmcounter((a - 0xc00) as u16)
            } else if 0xc83 <= a && a < 0xca0 {
                Csr::hpmcounterh((a - 0xc80) as u16)
            } else if 0x3a0 <= a && a < 0x3f0 {
                Csr::pmpcfg((a - 0x3a0) as u16)
            } else if 0xb03 <= a && a < 0xb1f {
                Csr::mhpmcounter((a - 0xb00) as u16)
            } else if 0xb83 <= a && a < 0xba0 {
                Csr::mhpmcounterh((a - 0xb80) as u16)
            } else if 0x323 <= a && a < 0x340 {
                Csr::mhpmevent((a - 0x320) as u16)
            } else {
                Csr::unknown(a)
            }
        },
    }
}

impl Csr {
    /// Resolve a 12-bit address to its symbol. Total: every address has
    /// exactly one outcome, and an unassigned address resolves to the
    /// unknown symbol rather than failing.
    pub fn from_u16(r: u16) -> (c: Csr)
        ensures
            c == csr_at(r),
    {
        match r {
            0x001 => Csr::fflags,
            0x002 => Csr::frm,
            0x003 => Csr::fcr,
            0xc00 => Csr::cycle,
            0xc01 => Csr::time,
            0xc02 => Csr::instret,
            0xc80 => Csr::cycleh,
            0xc81 => Csr::timeh,
            0xc82 => Csr::instreth,
            0x100 => Csr::sstatus,
            0x104 => Csr::sie,
            0x105 => Csr::stvec,
            0x106 => Csr::scounteren,
            0x10a => Csr::senvcfg,
            0x140 => Csr::sscratch,
            0x141 => Csr::sepc,
            0x142 => Csr::scause,
            0x143 => Csr::stval,
            0x144 => Csr::sip,
            0x180 => Csr::satp,
            0x58a => Csr::scontext,
            0x600 => Csr::hstatus,
            0x602 => Csr::hedeleg,
            0x603 => Csr::hideleg,
            0x604 => Csr::hie,
            0x606 => Csr::hcounteren,
            0x607 => Csr::hgeie,
            0x643 => Csr::htval,
            0x644 => Csr::hip,
            0x645 => Csr::hvip,
            0x64a => Csr::htinst,
            0xe12 => Csr::hgeip,
            0x60a => Csr::henvcfg,
            0x61a => Csr::henvcfgh,
            0x680 => Csr::hgatp,
            0x6a8 => Csr::hcontext,
            0x605 => Csr::htimedelta,
            0x615 => Csr::htimedeltah,
            0x200 => Csr::vsstatus,
            0x204 => Csr::vsie,
            0x205 => Csr::vstvec,
            0x240 => Csr::vsscratch,
            0x241 => Csr::vsepc,
            0x242 => Csr::vscause,
            0x243 => Csr::vstval,
            0x244 => Csr::vsip,
            0x280 => Csr::vsatp,
            0xf11 => Csr::mvendorid,
            0xf12 => Csr::marchid,
            0xf13 => Csr::mimpid,
            0xf14 => Csr::mhartid,
            0xf15 => Csr::mconfigptr,
            0x300 => Csr::mstatus,
            0x301 => Csr::misa,
            0x302 => Csr::medeleg,
            0x303 => Csr::mideleg,
            0x304 => Csr::mie,
            0x305 => Csr::mtvec,
            0x306 => Csr::mcounteren,
            0x310 => Csr::mstatush,
            0x340 => Csr::mscratch,
            0x341 => Csr::mepc,
            0x342 => Csr::mcause,
            0x343 => Csr::mtval,
            0x344 => Csr::mip,
            0x34a => Csr::mtinst,
            0x34b => Csr::mtval2,
            0x30a => Csr::menvcfg,
            0x31a => Csr::menvcfgh,
            0x747 => Csr::mseccfg,
            0x757 => Csr::mseccfgh,
            0xb00 => Csr::mcycle,
            0xb02 => Csr::minstret,
            0xb80 => Csr::mcycleh,
            0xb82 => Csr::minstreth,
            0x320 => Csr::mcountinhibit,
            0x7a0 => Csr::tselect,
            0x7a1 => Csr::tdata1,
            0x7a2 => Csr::tdata2,
            0x7a3 => Csr::tdata3,
            0x7a8 => Csr::mcontext,
            0x7b0 => Csr::dcsr,
            0x7b1 => Csr::dpc,
            0x7b2 => Csr::dscratch0,
            0x7b3 => Csr::dscratch1,
            _ => {
                if 0xc03 <= r && r < 0xc20 {
                    Csr::hpmcounter(r - 0xc00)
                } else if 0xc83 <= r && r < 0xca0 {
                    Csr::hpmcounterh(r - 0xc80)
                } else if 0x3a0 <= r && r < 0x3f0 {
                    Csr::pmpcfg(r - 0x3a0)
                } else if 0xb03 <= r && r < 0xb1f {
                    Csr::mhpmcounter(r - 0xb00)
                } else if 0xb83 <= r && r < 0xba0 {
                    Csr::mhpmcounterh(r - 0xb80)
                } else if 0x323 <= r && r < 0x340 {
                    Csr::mhpmevent(r - 0x320)
                } else {
                    Csr::unknown(r)
                }
            },
        }
    }
}

/// Every address inside an indexed family's half-open range resolves to
/// that family's variant, with the index computed from the family base.
pub proof fn lemma_csr_indexed_families()
    ensures
        forall|a: u16| 0xc03 <= a < 0xc20 ==> #[trigger] csr_at(a) == Csr::hpmcounter(
            (a - 0xc00) as u16,
        ),
        forall|a: u16| 0xc83 <= a < 0xca0 ==> #[trigger] csr_at(a) == Csr::hpmcounterh(
            (a - 0xc80) as u16,
        ),
        forall|a: u16| 0x3a0 <= a < 0x3f0 ==> #[trigger] csr_at(a) == Csr::pmpcfg(
            (a - 0x3a0) as u16,
        ),
        forall|a: u16| 0xb03 <= a < 0xb1f ==> #[trigger] csr_at(a) == Csr::mhpmcounter(
            (a - 0xb00) as u16,
        ),
        forall|a: u16| 0xb83 <= a < 0xba0 ==> #[trigger] csr_at(a) == Csr::mhpmcounterh(
            (a - 0xb80) as u16,
        ),
        forall|a: u16| 0x323 <= a < 0x340 ==> #[trigger] csr_at(a) == Csr::mhpmevent(
            (a - 0x320) as u16,
        ),
{
}

/// Resolution is total with an explicit fallback: an address that is in
/// neither the exact-match table nor any family range resolves to the
/// unknown symbol carrying that very address — never to a failure.
pub proof fn lemma_csr_unknown_fallback()
    ensures
        forall|a: u16|
            !is_named_csr(a) && !is_family_csr(a) ==> #[trigger] csr_at(a) == Csr::unknown(a),
        forall|a: u16| is_named_csr(a) || is_family_csr(a) ==> !(#[trigger] csr_at(a) is unknown),
{
}

} // verus!
