//! The general-purpose register file: 32 canonical names, one for each
//! 5-bit register index.

use vstd::prelude::*;

verus! {

/// One of the 32 general-purpose integer registers, under its canonical
/// ABI name. The names are bijective with the 5-bit index space.
#[allow(non_camel_case_types)]
#[derive(Copy, Clone, PartialEq, Eq, Structural, Debug)]
pub enum Gpr {
    zero,
    ra,
    sp,
    gp,
    tp,
    t0,
    t1,
    t2,
    fp,
    s1,
    a0,
    a1,
    a2,
    a3,
    a4,
    a5,
    a6,
    a7,
    s2,
    s3,
    s4,
    s5,
    s6,
    s7,
    s8,
    s9,
    s10,
    s11,
    t3,
    t4,
    t5,
    t6,
}

/// The register named by a 5-bit index.
pub open spec fn gpr_at(i: u8) -> Gpr
    recommends
        i < 32,
{
    if i == 0 { Gpr::zero }
    else if i == 1 { Gpr::ra }
    else if i == 2 { Gpr::sp }
    else if i == 3 { Gpr::gp }
    else if i == 4 { Gpr::tp }
    else if i == 5 { Gpr::t0 }
    else if i == 6 { Gpr::t1 }
    else if i == 7 { Gpr::t2 }
    else if i == 8 { Gpr::fp }
    else if i == 9 { Gpr::s1 }
    else if i == 10 { Gpr::a0 }
    else if i == 11 { Gpr::a1 }
    else if i == 12 { Gpr::a2 }
    else if i == 13 { Gpr::a3 }
    else if i == 14 { Gpr::a4 }
    else if i == 15 { Gpr::a5 }
    else if i == 16 { Gpr::a6 }
    else if i == 17 { Gpr::a7 }
    else if i == 18 { Gpr::s2 }
    else if i == 19 { Gpr::s3 }
    else if i == 20 { Gpr::s4 }
    else if i == 21 { Gpr::s5 }
    else if i == 22 { Gpr::s6 }
    else if i == 23 { Gpr::s7 }
    else if i == 24 { Gpr::s8 }
    else if i == 25 { Gpr::s9 }
    else if i == 26 { Gpr::s10 }
    else if i == 27 { Gpr::s11 }
    else if i == 28 { Gpr::t3 }
    else if i == 29 { Gpr::t4 }
    else if i == 30 { Gpr::t5 }
    else { Gpr::t6 }
}

impl Gpr {
    /// The 5-bit index of this register within the register file.
    pub open spec fn index(self) -> u8 {
        match self {
            Gpr::zero => 0,
            Gpr::ra => 1,
            Gpr::sp => 2,
            Gpr::gp => 3,
            Gpr::tp => 4,
            Gpr::t0 => 5,
            Gpr::t1 => 6,
            Gpr::t2 => 7,
            Gpr::fp => 8,
            Gpr::s1 => 9,
            Gpr::a0 => 10,
            Gpr::a1 => 11,
            Gpr::a2 => 12,
            Gpr::a3 => 13,
            Gpr::a4 => 14,
            Gpr::a5 => 15,
            Gpr::a6 => 16,
            Gpr::a7 => 17,
            Gpr::s2 => 18,
            Gpr::s3 => 19,
            Gpr::s4 => 20,
            Gpr::s5 => 21,
            Gpr::s6 => 22,
            Gpr::s7 => 23,
            Gpr::s8 => 24,
            Gpr::s9 => 25,
            Gpr::s10 => 26,
            Gpr::s11 => 27,
            Gpr::t3 => 28,
            Gpr::t4 => 29,
            Gpr::t5 => 30,
            Gpr::t6 => 31,
        }
    }

    /// Resolve a register index to its register: total on indices below 32,
    /// and `None` exactly on the indices no register carries.
    pub fn from_u8(r: u8) -> (g: Option<Gpr>)
        ensures
            r < 32 ==> g == Some(gpr_at(r)),
            r >= 32 ==> g is None,
    {
        match r {
            0 => Some(Gpr::zero),
            1 => Some(Gpr::ra),
            2 => Some(Gpr::sp),
            3 => Some(Gpr::gp),
            4 => Some(Gpr::tp),
            5 => Some(Gpr::t0),
            6 => Some(Gpr::t1),
            7 => Some(Gpr::t2),
            8 => Some(Gpr::fp),
            9 => Some(Gpr::s1),
            10 => Some(Gpr::a0),
            11 => Some(Gpr::a1),
            12 => Some(Gpr::a2),
            13 => Some(Gpr::a3),
            14 => Some(Gpr::a4),
            15 => Some(Gpr::a5),
            16 => Some(Gpr::a6),
            17 => Some(Gpr::a7),
            18 => Some(Gpr::s2),
            19 => Some(Gpr::s3),
            20 => Some(Gpr::s4),
            21 => Some(Gpr::s5),
            22 => Some(Gpr::s6),
            23 => Some(Gpr::s7),
            24 => Some(Gpr::s8),
            25 => Some(Gpr::s9),
            26 => Some(Gpr::s10),
            27 => Some(Gpr::s11),
            28 => Some(Gpr::t3),
            29 => Some(Gpr::t4),
            30 => Some(Gpr::t5),
            31 => Some(Gpr::t6),
            _ => None,
        }
    }
}

/// Register resolution is total and bijective with the canonical name set:
/// every index below 32 names exactly one register, that register carries
/// that index, and every register is reached from its own index.
pub proof fn lemma_gpr_resolution_bijective()
    ensures
        forall|i: u8| i < 32 ==> (#[trigger] gpr_at(i)).index() == i,
        forall|g: Gpr| #[trigger] gpr_at(g.index()) == g && g.index() < 32,
{
}

} // verus!
