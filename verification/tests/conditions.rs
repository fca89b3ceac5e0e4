use arm7_core::cond::{ArmCond, StatusFlags};

fn all_conds() -> Vec<ArmCond> {
    vec![
        ArmCond::EQ,
        ArmCond::NE,
        ArmCond::HS,
        ArmCond::LO,
        ArmCond::MI,
        ArmCond::PL,
        ArmCond::VS,
        ArmCond::VC,
        ArmCond::HI,
        ArmCond::LS,
        ArmCond::GE,
        ArmCond::LT,
        ArmCond::GT,
        ArmCond::LE,
        ArmCond::AL,
    ]
}

fn expected(cond: ArmCond, f: StatusFlags) -> bool {
    match cond {
        ArmCond::EQ => f.z,
        ArmCond::NE => !f.z,
        ArmCond::HS => f.c,
        ArmCond::LO => !f.c,
        ArmCond::MI => f.n,
        ArmCond::PL => !f.n,
        ArmCond::VS => f.v,
        ArmCond::VC => !f.v,
        ArmCond::HI => f.c && !f.z,
        ArmCond::LS => !f.c || f.z,
        ArmCond::GE => f.n == f.v,
        ArmCond::LT => f.n != f.v,
        ArmCond::GT => !f.z && f.n == f.v,
        ArmCond::LE => f.z || f.n != f.v,
        ArmCond::AL => true,
    }
}

#[test]
fn condition_truth_table_exhaustive() {
    for bits in 0..16u32 {
        let f = StatusFlags {
            n: bits & 1 == 1,
            z: bits & 2 == 2,
            c: bits & 4 == 4,
            v: bits & 8 == 8,
        };
        for cond in all_conds() {
            assert_eq!(cond.is_satisfied(f), expected(cond, f), "{:?} {:?}", cond, f);
        }
    }
}

#[test]
fn al_true_for_all_flag_combinations() {
    for bits in 0..16u32 {
        let f = StatusFlags {
            n: bits & 1 == 1,
            z: bits & 2 == 2,
            c: bits & 4 == 4,
            v: bits & 8 == 8,
        };
        assert!(ArmCond::AL.is_satisfied(f));
    }
}

#[test]
fn condition_field_roundtrip() {
    for bits in 0..15u32 {
        let cond = ArmCond::from_bits(bits).unwrap();
        assert_eq!(cond.bits(), bits);
    }
    assert!(ArmCond::from_bits(15).is_none());
}

#[test]
fn condition_suffixes() {
    assert_eq!(ArmCond::EQ.suffix_str(), "eq");
    assert_eq!(ArmCond::NE.suffix_str(), "ne");
    assert_eq!(ArmCond::HS.suffix_str(), "cs");
    assert_eq!(ArmCond::LO.suffix_str(), "cc");
    assert_eq!(ArmCond::MI.suffix_str(), "mi");
    assert_eq!(ArmCond::PL.suffix_str(), "pl");
    assert_eq!(ArmCond::VS.suffix_str(), "vs");
    assert_eq!(ArmCond::VC.suffix_str(), "vc");
    assert_eq!(ArmCond::HI.suffix_str(), "hi");
    assert_eq!(ArmCond::LS.suffix_str(), "ls");
    assert_eq!(ArmCond::GE.suffix_str(), "ge");
    assert_eq!(ArmCond::LT.suffix_str(), "lt");
    assert_eq!(ArmCond::GT.suffix_str(), "gt");
    assert_eq!(ArmCond::LE.suffix_str(), "le");
    assert_eq!(ArmCond::AL.suffix_str(), "");
}
