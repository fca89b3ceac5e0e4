//! Condition codes and processor status flags.
//!
//! Every ARM instruction carries a 4-bit condition field; the instruction is
//! executed only when the combination of the N, Z, C and V flags it names
//! holds. `spec_cond_holds` is the truth table, and `ArmCond::is_satisfied`
//! is proved to match it for every code and every flag combination.

use vstd::prelude::*;

verus! {

/// The four processor status flags (negative, zero, carry, overflow) that
/// condition evaluation reads. Owned by the execution context and passed in
/// by value.
#[derive(Clone, Copy, PartialEq, Eq, Structural, Debug)]
pub struct StatusFlags {
    pub n: bool,
    pub z: bool,
    pub c: bool,
    pub v: bool,
}

/// The condition field of an ARM instruction: the 15 meaningful codes plus
/// the always-true sentinel `AL`.
#[derive(Clone, Copy, PartialEq, Eq, Structural, Debug)]
pub enum ArmCond {
    EQ,
    NE,
    HS,
    LO,
    MI,
    PL,
    VS,
    VC,
    HI,
    LS,
    GE,
    LT,
    GT,
    LE,
    AL,
}

/// The truth table of condition evaluation: which flag combination each
/// condition code requires.
pub open spec fn spec_cond_holds(cond: ArmCond, f: StatusFlags) -> bool {
    match cond {
        ArmCond::EQ => f.z,
        ArmCond::NE => !f.z,
        ArmCond::HS => f.c,
        ArmCond::LO => !f.c,
        ArmCond::MI => f.n,
        ArmCond::PL => !f.n,
        ArmCond::VS => f.v,
        ArmCond::VC => !f.v,
        ArmCond::HI => f.c && !f.z,
        ArmCond::LS => !f.c || f.z,
        ArmCond::GE => f.n == f.v,
        ArmCond::LT => f.n != f.v,
        ArmCond::GT => !f.z && f.n == f.v,
        ArmCond::LE => f.z || f.n != f.v,
        ArmCond::AL => true,
    }
}

/// The condition code selected by a 4-bit field value, or `None` for the
/// reserved encoding 15, which no recognized instruction carries.
pub open spec fn spec_cond_from_bits(bits: u32) -> Option<ArmCond> {
    if bits == 0 {
        Some(ArmCond::EQ)
    } else if bits == 1 {
        Some(ArmCond::NE)
    } else if bits == 2 {
        Some(ArmCond::HS)
    } else if bits == 3 {
        Some(ArmCond::LO)
    } else if bits == 4 {
        Some(ArmCond::MI)
    } else if bits == 5 {
        Some(ArmCond::PL)
    } else if bits == 6 {
        Some(ArmCond::VS)
    } else if bits == 7 {
        Some(ArmCond::VC)
    } else if bits == 8 {
        Some(ArmCond::HI)
    } else if bits == 9 {
        Some(ArmCond::LS)
    } else if bits == 10 {
        Some(ArmCond::GE)
    } else if bits == 11 {
        Some(ArmCond::LT)
    } else if bits == 12 {
        Some(ArmCond::GT)
    } else if bits == 13 {
        Some(ArmCond::LE)
    } else if bits == 14 {
        Some(ArmCond::AL)
    } else {
        None
    }
}

/// The 4-bit field value that encodes a condition code.
pub open spec fn spec_cond_bits(cond: ArmCond) -> u32 {
    match cond {
        ArmCond::EQ => 0,
        ArmCond::NE => 1,
        ArmCond::HS => 2,
        ArmCond::LO => 3,
        ArmCond::MI => 4,
        ArmCond::PL => 5,
        ArmCond::VS => 6,
        ArmCond::VC => 7,
        ArmCond::HI => 8,
        ArmCond::LS => 9,
        ArmCond::GE => 10,
        ArmCond::LT => 11,
        ArmCond::GT => 12,
        ArmCond::LE => 13,
        ArmCond::AL => 14,
    }
}

/// The disassembly suffix of each condition code. `AL` renders as the empty
/// suffix, distinguishing it from every other code.
pub open spec fn spec_cond_suffix(cond: ArmCond) -> Seq<char> {
    match cond {
        ArmCond::EQ => "eq"@,
        ArmCond::NE => "ne"@,
        ArmCond::HS => "cs"@,
        ArmCond::LO => "cc"@,
        ArmCond::MI => "mi"@,
        ArmCond::PL => "pl"@,
        ArmCond::VS => "vs"@,
        ArmCond::VC => "vc"@,
        ArmCond::HI => "hi"@,
        ArmCond::LS => "ls"@,
        ArmCond::GE => "ge"@,
        ArmCond::LT => "lt"@,
        ArmCond::GT => "gt"@,
        ArmCond::LE => "le"@,
        ArmCond::AL => ""@,
    }
}

impl ArmCond {
    /// Evaluate this condition against the given flags. The result matches
    /// the truth table `spec_cond_holds` exactly, for all 16 flag
    /// combinations; `AL` is true for all of them.
    pub fn is_satisfied(&self, f: StatusFlags) -> (r: bool)
        ensures
            r == spec_cond_holds(*self, f),
    {
        match self {
            ArmCond::EQ => f.z,
            ArmCond::NE => !f.z,
            ArmCond::HS => f.c,
            ArmCond::LO => !f.c,
            ArmCond::MI => f.n,
            ArmCond::PL => !f.n,
            ArmCond::VS => f.v,
            ArmCond::VC => !f.v,
            ArmCond::HI => f.c && !f.z,
            ArmCond::LS => !f.c || f.z,
            ArmCond::GE => f.n == f.v,
            ArmCond::LT => f.n != f.v,
            ArmCond::GT => !f.z && f.n == f.v,
            ArmCond::LE => f.z || f.n != f.v,
            ArmCond::AL => true,
        }
    }

    /// Decode a 4-bit condition field. The reserved value 15 yields `None`;
    /// every other value below 16 yields its condition code.
    pub fn from_bits(bits: u32) -> (r: Option<ArmCond>)
        ensures
            r == spec_cond_from_bits(bits),
    {
        if bits == 0 {
            Some(ArmCond::EQ)
        } else if bits == 1 {
            Some(ArmCond::NE)
        } else if bits == 2 {
            Some(ArmCond::HS)
        } else if bits == 3 {
            Some(ArmCond::LO)
        } else if bits == 4 {
            Some(ArmCond::MI)
        } else if bits == 5 {
            Some(ArmCond::PL)
        } else if bits == 6 {
            Some(ArmCond::VS)
        } else if bits == 7 {
            Some(ArmCond::VC)
        } else if bits == 8 {
            Some(ArmCond::HI)
        } else if bits == 9 {
            Some(ArmCond::LS)
        } else if bits == 10 {
            Some(ArmCond::GE)
        } else if bits == 11 {
            Some(ArmCond::LT)
        } else if bits == 12 {
            Some(ArmCond::GT)
        } else if bits == 13 {
            Some(ArmCond::LE)
        } else if bits == 14 {
            Some(ArmCond::AL)
        } else {
            None
        }
    }

    /// The 4-bit encoding of this condition code.
    pub fn bits(&self) -> (r: u32)
        ensures
            r == spec_cond_bits(*self),
    {
        match self {
            ArmCond::EQ => 0,
            ArmCond::NE => 1,
            ArmCond::HS => 2,
            ArmCond::LO => 3,
            ArmCond::MI => 4,
            ArmCond::PL => 5,
            ArmCond::VS => 6,
            ArmCond::VC => 7,
            ArmCond::HI => 8,
            ArmCond::LS => 9,
            ArmCond::GE => 10,
            ArmCond::LT => 11,
            ArmCond::GT => 12,
            ArmCond::LE => 13,
            ArmCond::AL => 14,
        }
    }

    /// The disassembly suffix of this condition code.
    pub fn suffix_str(&self) -> (r: &'static str)
        ensures
            r@ == spec_cond_suffix(*self),
    {
        match self {
            ArmCond::EQ => "eq",
            ArmCond::NE => "ne",
            ArmCond::HS => "cs",
            ArmCond::LO => "cc",
            ArmCond::MI => "mi",
            ArmCond::PL => "pl",
            ArmCond::VS => "vs",
            ArmCond::VC => "vc",
            ArmCond::HI => "hi",
            ArmCond::LS => "ls",
            ArmCond::GE => "ge",
            ArmCond::LT => "lt",
            ArmCond::GT => "gt",
            ArmCond::LE => "le",
            ArmCond::AL => "",
        }
    }
}

/// Encoding and decoding of the condition field are inverse to each other:
/// every condition code survives a round trip through its 4-bit encoding.
pub proof fn lemma_cond_bits_roundtrip(cond: ArmCond)
    ensures
        spec_cond_from_bits(spec_cond_bits(cond)) == Some(cond),
{
}

} // verus!
