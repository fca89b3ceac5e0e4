//! The decoded representation of 32-bit ARM instructions.
//!
//! The decoder's classification is upstream of this crate: `decode` receives
//! the fetched word together with its already-classified format tag and the
//! program counter at fetch time, and extracts the raw fields of that format
//! into a closed sum type. Re-encoding is provided for the data-processing
//! format and proved to be the inverse of decoding.

use vstd::prelude::*;

use crate::cond::{ArmCond, spec_cond_bits, spec_cond_from_bits};
use crate::shifter::{BarrelShiftOpCode, LdrStrOffset, Operand2, ShiftedRegister,
    spec_ldr_str_offset_wf, spec_operand2_wf, spec_shift_op_bits, spec_shift_op_from_bits};

verus! {

/// The ALU operation of a data-processing instruction, in the order of its
/// 4-bit encoding.
#[derive(Clone, Copy, PartialEq, Eq, Structural, Debug)]
pub enum AluOpCode {
    AND,
    EOR,
    SUB,
    RSB,
    ADD,
    ADC,
    SBC,
    RSC,
    TST,
    TEQ,
    CMP,
    CMN,
    ORR,
    MOV,
    BIC,
    MVN,
}

/// The ALU operation selected by a 4-bit field value.
pub open spec fn spec_alu_from_bits(bits: int) -> AluOpCode {
    if bits == 0 {
        AluOpCode::AND
    } else if bits == 1 {
        AluOpCode::EOR
    } else if bits == 2 {
        AluOpCode::SUB
    } else if bits == 3 {
        AluOpCode::RSB
    } else if bits == 4 {
        AluOpCode::ADD
    } else if bits == 5 {
        AluOpCode::ADC
    } else if bits == 6 {
        AluOpCode::SBC
    } else if bits == 7 {
        AluOpCode::RSC
    } else if bits == 8 {
        AluOpCode::TST
    } else if bits == 9 {
        AluOpCode::TEQ
    } else if bits == 10 {
        AluOpCode::CMP
    } else if bits == 11 {
        AluOpCode::CMN
    } else if bits == 12 {
        AluOpCode::ORR
    } else if bits == 13 {
        AluOpCode::MOV
    } else if bits == 14 {
        AluOpCode::BIC
    } else {
        AluOpCode::MVN
    }
}

/// The 4-bit encoding of an ALU operation.
pub open spec fn spec_alu_bits(op: AluOpCode) -> u32 {
    match op {
        AluOpCode::AND => 0,
        AluOpCode::EOR => 1,
        AluOpCode::SUB => 2,
        AluOpCode::RSB => 3,
        AluOpCode::ADD => 4,
        AluOpCode::ADC => 5,
        AluOpCode::SBC => 6,
        AluOpCode::RSC => 7,
        AluOpCode::TST => 8,
        AluOpCode::TEQ => 9,
        AluOpCode::CMP => 10,
        AluOpCode::CMN => 11,
        AluOpCode::ORR => 12,
        AluOpCode::MOV => 13,
        AluOpCode::BIC => 14,
        AluOpCode::MVN => 15,
    }
}

impl AluOpCode {
    /// The ALU operation selected by a 4-bit field value.
    pub fn from_bits(bits: u32) -> (r: AluOpCode)
        requires
            bits < 16,
        ensures
            r == spec_alu_from_bits(bits as int),
    {
        if bits == 0 {
            AluOpCode::AND
        } else if bits == 1 {
            AluOpCode::EOR
        } else if bits == 2 {
            AluOpCode::SUB
        } else if bits == 3 {
            AluOpCode::RSB
        } else if bits == 4 {
            AluOpCode::ADD
        } else if bits == 5 {
            AluOpCode::ADC
        } else if bits == 6 {
            AluOpCode::SBC
        } else if bits == 7 {
            AluOpCode::RSC
        } else if bits == 8 {
            AluOpCode::TST
        } else if bits == 9 {
            AluOpCode::TEQ
        } else if bits == 10 {
            AluOpCode::CMP
        } else if bits == 11 {
            AluOpCode::CMN
        } else if bits == 12 {
            AluOpCode::ORR
        } else if bits == 13 {
            AluOpCode::MOV
        } else if bits == 14 {
            AluOpCode::BIC
        } else {
            AluOpCode::MVN
        }
    }

    /// The 4-bit encoding of this ALU operation.
    pub fn bits(&self) -> (r: u32)
        ensures
            r == spec_alu_bits(*self),
    {
        match self {
            AluOpCode::AND => 0,
            AluOpCode::EOR => 1,
            AluOpCode::SUB => 2,
            AluOpCode::RSB => 3,
            AluOpCode::ADD => 4,
            AluOpCode::ADC => 5,
            AluOpCode::SBC => 6,
            AluOpCode::RSC => 7,
            AluOpCode::TST => 8,
            AluOpCode::TEQ => 9,
            AluOpCode::CMP => 10,
            AluOpCode::CMN => 11,
            AluOpCode::ORR => 12,
            AluOpCode::MOV => 13,
            AluOpCode::BIC => 14,
            AluOpCode::MVN => 15,
        }
    }
}

/// The transfer size and sign of a recognized halfword/signed transfer.
#[derive(Clone, Copy, PartialEq, Eq, Structural, Debug)]
pub enum ArmHalfwordTransferType {
    UnsignedHalfwords,
    SignedHalfwords,
    SignedByte,
}

/// The instruction format tags recognized by the upstream classifier.
#[allow(non_camel_case_types)]
#[derive(Clone, Copy, PartialEq, Eq, Structural, Debug)]
pub enum ArmFormat {
    BX,
    B_BL,
    DP,
    LDR_STR,
    LDM_STM,
    MRS,
    MSR_REG,
    MSR_FLAGS,
    MUL_MLA,
    MULL_MLAL,
    LDR_STR_HS_IMM,
    LDR_STR_HS_REG,
    SWI,
    Undefined,
}

/// The raw fields of one decoded instruction, a closed sum over the
/// recognized formats plus an explicit undefined case. A halfword transfer
/// whose type field matches no recognized pattern carries `None` there and
/// renders as an explicit undefined marker.
#[allow(inconsistent_fields)]
#[derive(Clone, Copy, PartialEq, Eq, Debug)]
pub enum ArmInstructionKind {
    BranchExchange { rn: u32 },
    Branch { link: bool, offset: i32 },
    DataProcessing { opcode: AluOpCode, set_cond: bool, rn: u32, rd: u32, operand2: Operand2 },
    LoadStore {
        load: bool,
        byte: bool,
        pre_index: bool,
        write_back: bool,
        rd: u32,
        rn: u32,
        offset: LdrStrOffset,
    },
    LoadStoreMultiple {
        load: bool,
        add_offset: bool,
        pre_index: bool,
        write_back: bool,
        psr_force_user: bool,
        rn: u32,
        register_list: u16,
    },
    Mrs { spsr: bool, rd: u32 },
    MsrReg { spsr: bool, rm: u32 },
    MsrFlags { spsr: bool, operand2: Operand2 },
    MulMla { accumulate: bool, set_cond: bool, rd: u32, rn: u32, rs: u32, rm: u32 },
    MullMlal {
        signed: bool,
        accumulate: bool,
        set_cond: bool,
        rd_hi: u32,
        rd_lo: u32,
        rs: u32,
        rm: u32,
    },
    HalfwordTransfer {
        load: bool,
        pre_index: bool,
        write_back: bool,
        transfer: Option<ArmHalfwordTransferType>,
        rd: u32,
        rn: u32,
        offset: LdrStrOffset,
    },
    SoftwareInterrupt { comment: u32 },
    Undefined,
}

/// One decoded instruction: condition code, format fields, and the program
/// counter value at fetch time. Constructed once by the decoder and never
/// mutated.
#[derive(Clone, Copy, PartialEq, Eq, Debug)]
pub struct ArmInstruction {
    pub cond: ArmCond,
    pub kind: ArmInstructionKind,
    pub pc: u32,
}

/// Well-formedness of decoded fields: every register index names one of the
/// 16 general registers, and immediate subfields fit their bit fields.
pub open spec fn spec_kind_wf(kind: ArmInstructionKind) -> bool {
    match kind {
        ArmInstructionKind::BranchExchange { rn } => rn < 16,
        ArmInstructionKind::Branch { .. } => true,
        ArmInstructionKind::DataProcessing { rn, rd, operand2, .. } => rn < 16 && rd < 16
            && spec_operand2_wf(operand2),
        ArmInstructionKind::LoadStore { rd, rn, offset, .. } => rd < 16 && rn < 16
            && spec_ldr_str_offset_wf(offset),
        ArmInstructionKind::LoadStoreMultiple { rn, .. } => rn < 16,
        ArmInstructionKind::Mrs { rd, .. } => rd < 16,
        ArmInstructionKind::MsrReg { rm, .. } => rm < 16,
        ArmInstructionKind::MsrFlags { operand2, .. } => spec_operand2_wf(operand2),
        ArmInstructionKind::MulMla { rd, rn, rs, rm, .. } => rd < 16 && rn < 16 && rs < 16 && rm
            < 16,
        ArmInstructionKind::MullMlal { rd_hi, rd_lo, rs, rm, .. } => rd_hi < 16 && rd_lo < 16 && rs
            < 16 && rm < 16,
        ArmInstructionKind::HalfwordTransfer { rd, rn, offset, .. } => rd < 16 && rn < 16
            && spec_ldr_str_offset_wf(offset),
        ArmInstructionKind::SoftwareInterrupt { comment } => comment < 0x1000000,
        ArmInstructionKind::Undefined => true,
    }
}

impl ArmInstruction {
    /// Well-formedness of the decoded fields; `decode` establishes it.
    pub open spec fn wf(self) -> bool {
        spec_kind_wf(self.kind)
    }
}

/// The shift carried by a register operand: by the low byte of a register
/// when bit 4 is set, otherwise by a 5-bit literal amount.
pub open spec fn spec_decode_shift(raw: u32) -> ShiftedRegister {
    let typ = spec_shift_op_from_bits(((raw >> 5) & 3) as int);
    if (raw >> 4) & 1 == 1 {
        ShiftedRegister::ByRegister((raw >> 8) & 0xf, typ)
    } else {
        ShiftedRegister::ByAmount((raw >> 7) & 0x1f, typ)
    }
}

/// The operand2 of a data-processing or flags-only MSR word: a rotated
/// immediate when bit 25 is set, otherwise a shifted register.
pub open spec fn spec_decode_operand2(raw: u32) -> Operand2 {
    if (raw >> 25) & 1 == 1 {
        Operand2::RotatedImmediate(raw & 0xff, (raw >> 8) & 0xf)
    } else {
        Operand2::ShiftedRegister(raw & 0xf, spec_decode_shift(raw))
    }
}

/// The byte offset of a branch: the 24-bit word offset, sign-extended and
/// multiplied by four.
pub open spec fn spec_branch_offset(raw: u32) -> i32 {
    let shifted = (raw & 0xffffff) << 2;
    if (raw >> 23) & 1 == 1 {
        (shifted | 0xfc000000) as i32
    } else {
        shifted as i32
    }
}

/// The offset of a single load/store word: a register with shift when bit
/// 25 is set, otherwise a 12-bit immediate signed by the add/subtract bit.
pub open spec fn spec_decode_ldr_str_offset(raw: u32) -> LdrStrOffset {
    let added = (raw >> 23) & 1 == 1;
    if (raw >> 25) & 1 == 1 {
        LdrStrOffset::ShiftedRegister(raw & 0xf, spec_decode_shift(raw), added)
    } else {
        let imm = (raw & 0xfff) as i32;
        LdrStrOffset::Immediate(
            if added {
                imm
            } else {
                (-imm) as i32
            },
        )
    }
}

/// The transfer type of a halfword/signed transfer word, or `None` for the
/// unrecognized encoding.
pub open spec fn spec_decode_hs_type(raw: u32) -> Option<ArmHalfwordTransferType> {
    let sh = (raw >> 5) & 3;
    if sh == 1 {
        Some(ArmHalfwordTransferType::UnsignedHalfwords)
    } else if sh == 2 {
        Some(ArmHalfwordTransferType::SignedByte)
    } else if sh == 3 {
        Some(ArmHalfwordTransferType::SignedHalfwords)
    } else {
        None
    }
}

/// The offset of a halfword/signed transfer: split 8-bit immediate or bare
/// register, signed by the add/subtract bit.
pub open spec fn spec_decode_hs_offset(raw: u32, register_form: bool) -> LdrStrOffset {
    let added = (raw >> 23) & 1 == 1;
    if register_form {
        LdrStrOffset::ShiftedRegister(
            raw & 0xf,
            ShiftedRegister::ByAmount(0, BarrelShiftOpCode::LSL),
            added,
        )
    } else {
        let imm = ((((raw >> 8) & 0xf) << 4) | (raw & 0xf)) as i32;
        LdrStrOffset::Immediate(
            if added {
                imm
            } else {
                (-imm) as i32
            },
        )
    }
}

/// Field extraction for each classified format.
pub open spec fn spec_decode_kind(raw: u32, fmt: ArmFormat) -> ArmInstructionKind {
    match fmt {
        ArmFormat::BX => ArmInstructionKind::BranchExchange { rn: raw & 0xf },
        ArmFormat::B_BL => ArmInstructionKind::Branch {
            link: (raw >> 24) & 1 == 1,
            offset: spec_branch_offset(raw),
        },
        ArmFormat::DP => ArmInstructionKind::DataProcessing {
            opcode: spec_alu_from_bits(((raw >> 21) & 0xf) as int),
            set_cond: (raw >> 20) & 1 == 1,
            rn: (raw >> 16) & 0xf,
            rd: (raw >> 12) & 0xf,
            operand2: spec_decode_operand2(raw),
        },
        ArmFormat::LDR_STR => ArmInstructionKind::LoadStore {
            load: (raw >> 20) & 1 == 1,
            byte: (raw >> 22) & 1 == 1,
            pre_index: (raw >> 24) & 1 == 1,
            write_back: (raw >> 21) & 1 == 1,
            rd: (raw >> 12) & 0xf,
            rn: (raw >> 16) & 0xf,
            offset: spec_decode_ldr_str_offset(raw),
        },
        ArmFormat::LDM_STM => ArmInstructionKind::LoadStoreMultiple {
            load: (raw >> 20) & 1 == 1,
            add_offset: (raw >> 23) & 1 == 1,
            pre_index: (raw >> 24) & 1 == 1,
            write_back: (raw >> 21) & 1 == 1,
            psr_force_user: (raw >> 22) & 1 == 1,
            rn: (raw >> 16) & 0xf,
            register_list: (raw & 0xffff) as u16,
        },
        ArmFormat::MRS => ArmInstructionKind::Mrs {
            spsr: (raw >> 22) & 1 == 1,
            rd: (raw >> 12) & 0xf,
        },
        ArmFormat::MSR_REG => ArmInstructionKind::MsrReg {
            spsr: (raw >> 22) & 1 == 1,
            rm: raw & 0xf,
        },
        ArmFormat::MSR_FLAGS => ArmInstructionKind::MsrFlags {
            spsr: (raw >> 22) & 1 == 1,
            operand2: spec_decode_operand2(raw),
        },
        ArmFormat::MUL_MLA => ArmInstructionKind::MulMla {
            accumulate: (raw >> 21) & 1 == 1,
            set_cond: (raw >> 20) & 1 == 1,
            rd: (raw >> 16) & 0xf,
            rn: (raw >> 12) & 0xf,
            rs: (raw >> 8) & 0xf,
            rm: raw & 0xf,
        },
        ArmFormat::MULL_MLAL => ArmInstructionKind::MullMlal {
            signed: (raw >> 22) & 1 == 1,
            accumulate: (raw >> 21) & 1 == 1,
            set_cond: (raw >> 20) & 1 == 1,
            rd_hi: (raw >> 16) & 0xf,
            rd_lo: (raw >> 12) & 0xf,
            rs: (raw >> 8) & 0xf,
            rm: raw & 0xf,
        },
        ArmFormat::LDR_STR_HS_IMM => ArmInstructionKind::HalfwordTransfer {
            load: (raw >> 20) & 1 == 1,
            pre_index: (raw >> 24) & 1 == 1,
            write_back: (raw >> 21) & 1 == 1,
            transfer: spec_decode_hs_type(raw),
            rd: (raw >> 12) & 0xf,
            rn: (raw >> 16) & 0xf,
            offset: spec_decode_hs_offset(raw, false),
        },
        ArmFormat::LDR_STR_HS_REG => ArmInstructionKind::HalfwordTransfer {
            load: (raw >> 20) & 1 == 1,
            pre_index: (raw >> 24) & 1 == 1,
            write_back: (raw >> 21) & 1 == 1,
            transfer: spec_decode_hs_type(raw),
            rd: (raw >> 12) & 0xf,
            rn: (raw >> 16) & 0xf,
            offset: spec_decode_hs_offset(raw, true),
        },
        ArmFormat::SWI => ArmInstructionKind::SoftwareInterrupt { comment: raw & 0xffffff },
        ArmFormat::Undefined => ArmInstructionKind::Undefined,
    }
}

/// Decoding a classified word: the condition field selects the condition
/// code (the reserved value yields the undefined instruction), and the
/// format tag selects the field extraction.
pub open spec fn spec_decode(raw: u32, fmt: ArmFormat, pc: u32) -> ArmInstruction {
    match spec_cond_from_bits(raw >> 28) {
        Some(cond) => ArmInstruction { cond, kind: spec_decode_kind(raw, fmt), pc },
        None => ArmInstruction { cond: ArmCond::AL, kind: ArmInstructionKind::Undefined, pc },
    }
}

/// Bounds of masked bit-field extractions, used to establish
/// well-formedness of decoded fields.
proof fn lemma_field_bounds(x: u32)
    by (bit_vector)
    ensures
        forall|k: u32| #[trigger] ((x >> k) & 0xf) < 16,
        forall|k: u32| #[trigger] ((x >> k) & 0x1f) < 32,
        forall|k: u32| #[trigger] ((x >> k) & 3) < 4,
        forall|k: u32| #[trigger] ((x >> k) & 0xff) < 256,
        (x & 0xf) < 16,
        (x & 0xff) < 256,
        (x & 0xfff) < 4096,
        (x & 0xffff) < 0x10000,
        (x & 0xffffff) < 0x1000000,
{
}

impl ArmInstruction {
    /// Decode a fetched word whose format the upstream classifier has
    /// already determined, recording the program counter at fetch time.
    /// The result is well-formed for every input word.
    pub fn decode(raw: u32, fmt: ArmFormat, pc: u32) -> (r: ArmInstruction)
        ensures
            r == spec_decode(raw, fmt, pc),
            r.wf(),
    {
        proof {
            lemma_field_bounds(raw);
        }
        let cond = match ArmCond::from_bits(raw >> 28) {
            Some(c) => c,
            None => {
                return ArmInstruction { cond: ArmCond::AL, kind: ArmInstructionKind::Undefined, pc };
            },
        };
        let kind = match fmt {
            ArmFormat::BX => ArmInstructionKind::BranchExchange { rn: raw & 0xf },
            ArmFormat::B_BL => ArmInstructionKind::Branch {
                link: (raw >> 24) & 1 == 1,
                offset: Self::branch_offset(raw),
            },
            ArmFormat::DP => ArmInstructionKind::DataProcessing {
                opcode: AluOpCode::from_bits((raw >> 21) & 0xf),
                set_cond: (raw >> 20) & 1 == 1,
                rn: (raw >> 16) & 0xf,
                rd: (raw >> 12) & 0xf,
                operand2: Self::decode_operand2(raw),
            },
            ArmFormat::LDR_STR => ArmInstructionKind::LoadStore {
                load: (raw >> 20) & 1 == 1,
                byte: (raw >> 22) & 1 == 1,
                pre_index: (raw >> 24) & 1 == 1,
                write_back: (raw >> 21) & 1 == 1,
                rd: (raw >> 12) & 0xf,
                rn: (raw >> 16) & 0xf,
                offset: Self::decode_ldr_str_offset(raw),
            },
            ArmFormat::LDM_STM => ArmInstructionKind::LoadStoreMultiple {
                load: (raw >> 20) & 1 == 1,
                add_offset: (raw >> 23) & 1 == 1,
                pre_index: (raw >> 24) & 1 == 1,
                write_back: (raw >> 21) & 1 == 1,
                psr_force_user: (raw >> 22) & 1 == 1,
                rn: (raw >> 16) & 0xf,
                register_list: (raw & 0xffff) as u16,
            },
            ArmFormat::MRS => ArmInstructionKind::Mrs {
                spsr: (raw >> 22) & 1 == 1,
                rd: (raw >> 12) & 0xf,
            },
            ArmFormat::MSR_REG => ArmInstructionKind::MsrReg {
                spsr: (raw >> 22) & 1 == 1,
                rm: raw & 0xf,
            },
            ArmFormat::MSR_FLAGS => ArmInstructionKind::MsrFlags {
                spsr: (raw >> 22) & 1 == 1,
                operand2: Self::decode_operand2(raw),
            },
            ArmFormat::MUL_MLA => ArmInstructionKind::MulMla {
                accumulate: (raw >> 21) & 1 == 1,
                set_cond: (raw >> 20) & 1 == 1,
                rd: (raw >> 16) & 0xf,
                rn: (raw >> 12) & 0xf,
                rs: (raw >> 8) & 0xf,
                rm: raw & 0xf,
            },
            ArmFormat::MULL_MLAL => ArmInstructionKind::MullMlal {
                signed: (raw >> 22) & 1 == 1,
                accumulate: (raw >> 21) & 1 == 1,
                set_cond: (raw >> 20) & 1 == 1,
                rd_hi: (raw >> 16) & 0xf,
                rd_lo: (raw >> 12) & 0xf,
                rs: (raw >> 8) & 0xf,
                rm: raw & 0xf,
            },
            ArmFormat::LDR_STR_HS_IMM => ArmInstructionKind::HalfwordTransfer {
                load: (raw >> 20) & 1 == 1,
                pre_index: (raw >> 24) & 1 == 1,
                write_back: (raw >> 21) & 1 == 1,
                transfer: Self::decode_hs_type(raw),
                rd: (raw >> 12) & 0xf,
                rn: (raw >> 16) & 0xf,
                offset: Self::decode_hs_offset(raw, false),
            },
            ArmFormat::LDR_STR_HS_REG => ArmInstructionKind::HalfwordTransfer {
                load: (raw >> 20) & 1 == 1,
                pre_index: (raw >> 24) & 1 == 1,
                write_back: (raw >> 21) & 1 == 1,
                transfer: Self::decode_hs_type(raw),
                rd: (raw >> 12) & 0xf,
                rn: (raw >> 16) & 0xf,
                offset: Self::decode_hs_offset(raw, true),
            },
            ArmFormat::SWI => ArmInstructionKind::SoftwareInterrupt { comment: raw & 0xffffff },
            ArmFormat::Undefined => ArmInstructionKind::Undefined,
        };
        ArmInstruction { cond, kind, pc }
    }

    /// The sign-extended byte offset of a branch word.
    fn branch_offset(raw: u32) -> (r: i32)
        ensures
            r == spec_branch_offset(raw),
    {
        let shifted = (raw & 0xffffff) << 2;
        if (raw >> 23) & 1 == 1 {
            #[verifier::truncate] ((shifted | 0xfc000000) as i32)
        } else {
            shifted as i32
        }
    }

    /// The shift of a register operand.
    fn decode_shift(raw: u32) -> (r: ShiftedRegister)
        ensures
            r == spec_decode_shift(raw),
    {
        proof {
            lemma_field_bounds(raw);
        }
        let typ = BarrelShiftOpCode::from_bits((raw >> 5) & 3);
        if (raw >> 4) & 1 == 1 {
            ShiftedRegister::ByRegister((raw >> 8) & 0xf, typ)
        } else {
            ShiftedRegister::ByAmount((raw >> 7) & 0x1f, typ)
        }
    }

    /// The operand2 of a data-processing or flags-only MSR word.
    fn decode_operand2(raw: u32) -> (r: Operand2)
        ensures
            r == spec_decode_operand2(raw),
    {
        proof {
            lemma_field_bounds(raw);
        }
        if (raw >> 25) & 1 == 1 {
            Operand2::RotatedImmediate(raw & 0xff, (raw >> 8) & 0xf)
        } else {
            Operand2::ShiftedRegister(raw & 0xf, Self::decode_shift(raw))
        }
    }

    /// The offset of a single load/store word.
    fn decode_ldr_str_offset(raw: u32) -> (r: LdrStrOffset)
        ensures
            r == spec_decode_ldr_str_offset(raw),
    {
        proof {
            lemma_field_bounds(raw);
        }
        let added = (raw >> 23) & 1 == 1;
        if (raw >> 25) & 1 == 1 {
            LdrStrOffset::ShiftedRegister(raw & 0xf, Self::decode_shift(raw), added)
        } else {
            let imm = (raw & 0xfff) as i32;
            LdrStrOffset::Immediate(
                if added {
                    imm
                } else {
                    -imm
                },
            )
        }
    }

    /// The transfer type field of a halfword/signed transfer word.
    fn decode_hs_type(raw: u32) -> (r: Option<ArmHalfwordTransferType>)
        ensures
            r == spec_decode_hs_type(raw),
    {
        let sh = (raw >> 5) & 3;
        if sh == 1 {
            Some(ArmHalfwordTransferType::UnsignedHalfwords)
        } else if sh == 2 {
            Some(ArmHalfwordTransferType::SignedByte)
        } else if sh == 3 {
            Some(ArmHalfwordTransferType::SignedHalfwords)
        } else {
            None
        }
    }

    /// The offset of a halfword/signed transfer word.
    fn decode_hs_offset(raw: u32, register_form: bool) -> (r: LdrStrOffset)
        ensures
            r == spec_decode_hs_offset(raw, register_form),
    {
        proof {
            lemma_field_bounds(raw);
        }
        let added = (raw >> 23) & 1 == 1;
        if register_form {
            LdrStrOffset::ShiftedRegister(
                raw & 0xf,
                ShiftedRegister::ByAmount(0, BarrelShiftOpCode::LSL),
                added,
            )
        } else {
            let imm = (((raw >> 8) & 0xf) << 4) | (raw & 0xf);
            proof {
                assert(((((raw >> 8) & 0xf) << 4) | (raw & 0xf)) < 256) by (bit_vector);
            }
            let simm = imm as i32;
            LdrStrOffset::Immediate(
                if added {
                    simm
                } else {
                    -simm
                },
            )
        }
    }
}

/// The operand2 bit field of a re-encoded data-processing word.
pub open spec fn spec_encode_operand2(op2: Operand2) -> u32 {
    match op2 {
        Operand2::RotatedImmediate(value, rotate) => (rotate << 8) | value,
        Operand2::ShiftedRegister(reg, shift) => match shift {
            ShiftedRegister::ByAmount(amount, typ) => (amount << 7) | (spec_shift_op_bits(typ)
                << 5) | reg,
            ShiftedRegister::ByRegister(rs, typ) => (rs << 8) | (spec_shift_op_bits(typ) << 5)
                | 0x10 | reg,
        },
    }
}

/// The re-encoded word of a data-processing instruction; 0 for any other
/// kind.
pub open spec fn spec_encode_dp(i: ArmInstruction) -> u32 {
    match i.kind {
        ArmInstructionKind::DataProcessing { opcode, set_cond, rn, rd, operand2 } => {
            let imm_flag: u32 = match operand2 {
                Operand2::RotatedImmediate(_, _) => 1,
                Operand2::ShiftedRegister(_, _) => 0,
            };
            (spec_cond_bits(i.cond) << 28) | (imm_flag << 25) | (spec_alu_bits(opcode) << 21) | (
            (
            if set_cond {
                1u32
            } else {
                0u32
            }) << 20) | (rn << 16) | (rd << 12) | spec_encode_operand2(operand2)
        },
        _ => 0,
    }
}

impl ArmInstruction {
    /// Re-encode this instruction into its 32-bit word. Supported for the
    /// data-processing format; every other kind yields `None`.
    pub fn encode(&self) -> (r: Option<u32>)
        requires
            self.wf(),
        ensures
            r == (match self.kind {
                ArmInstructionKind::DataProcessing { .. } => Some(spec_encode_dp(*self)),
                _ => None::<u32>,
            }),
    {
        match self.kind {
            ArmInstructionKind::DataProcessing { opcode, set_cond, rn, rd, operand2 } => {
                let imm_flag: u32 = match operand2 {
                    Operand2::RotatedImmediate(_, _) => 1,
                    Operand2::ShiftedRegister(_, _) => 0,
                };
                let op2_bits: u32 = match operand2 {
                    Operand2::RotatedImmediate(value, rotate) => (rotate << 8) | value,
                    Operand2::ShiftedRegister(reg, shift) => match shift {
                        ShiftedRegister::ByAmount(amount, typ) => (amount << 7) | (typ.bits() << 5)
                            | reg,
                        ShiftedRegister::ByRegister(rs, typ) => (rs << 8) | (typ.bits() << 5) | 0x10
                            | reg,
                    },
                };
                let s_bit: u32 = if set_cond {
                    1
                } else {
                    0
                };
                Some(
                    (self.cond.bits() << 28) | (imm_flag << 25) | (opcode.bits() << 21) | (s_bit
                        << 20) | (rn << 16) | (rd << 12) | op2_bits,
                )
            },
            _ => None,
        }
    }
}

/// Every ALU operation survives a round trip through its 4-bit encoding.
pub proof fn lemma_alu_bits_roundtrip(op: AluOpCode)
    ensures
        spec_alu_from_bits(spec_alu_bits(op) as int) == op,
{
}

/// Every shift operator survives a round trip through its 2-bit encoding.
pub proof fn lemma_shift_op_bits_roundtrip(op: BarrelShiftOpCode)
    ensures
        spec_shift_op_from_bits(spec_shift_op_bits(op) as int) == op,
{
}

/// Decoding is the inverse of re-encoding for the data-processing format:
/// a well-formed data-processing instruction re-encoded and decoded again
/// reproduces every field, in particular its destination register and its
/// immediate value.
pub proof fn lemma_data_processing_roundtrip(i: ArmInstruction)
    requires
        i.wf(),
        i.kind is DataProcessing,
    ensures
        spec_decode(spec_encode_dp(i), ArmFormat::DP, i.pc) == i,
{
    let raw = spec_encode_dp(i);
    let c = spec_cond_bits(i.cond);
    assert(c < 15);
    crate::cond::lemma_cond_bits_roundtrip(i.cond);
    match i.kind {
        ArmInstructionKind::DataProcessing { opcode, set_cond, rn, rd, operand2 } => {
            let o = spec_alu_bits(opcode);
            let s: u32 = if set_cond {
                1
            } else {
                0
            };
            lemma_alu_bits_roundtrip(opcode);
            assert(o < 16);
            match operand2 {
                Operand2::RotatedImmediate(value, rotate) => {
                    assert(raw == (c << 28) | (1u32 << 25) | (o << 21) | (s << 20) | (rn << 16) | (
                    rd << 12) | ((rotate << 8) | value));
                    assert((raw >> 28) == c && (raw >> 25) & 1 == 1 && (raw >> 21) & 0xf == o && (
                    raw >> 20) & 1 == s && (raw >> 16) & 0xf == rn && (raw >> 12) & 0xf == rd && (
                    raw >> 8) & 0xf == rotate && raw & 0xff == value) by (bit_vector)
                        requires
                            raw == (c << 28) | (1u32 << 25) | (o << 21) | (s << 20) | (rn << 16) | (
                            rd << 12) | ((rotate << 8) | value),
                            c < 15,
                            o < 16,
                            s < 2,
                            rn < 16,
                            rd < 16,
                            rotate < 16,
                            value < 256,
                    ;
                },
                Operand2::ShiftedRegister(reg, shift) => {
                    match shift {
                        ShiftedRegister::ByAmount(amount, typ) => {
                            let t = spec_shift_op_bits(typ);
                            lemma_shift_op_bits_roundtrip(typ);
                            assert(t < 4);
                            assert(raw == (c << 28) | (0u32 << 25) | (o << 21) | (s << 20) | (rn
                                << 16) | (rd << 12) | ((amount << 7) | (t << 5) | reg));
                            assert((raw >> 28) == c && (raw >> 25) & 1 == 0 && (raw >> 21) & 0xf
                                == o && (raw >> 20) & 1 == s && (raw >> 16) & 0xf == rn && (raw
                                >> 12) & 0xf == rd && (raw >> 4) & 1 == 0 && (raw >> 7) & 0x1f
                                == amount && (raw >> 5) & 3 == t && raw & 0xf == reg)
                                by (bit_vector)
                                requires
                                    raw == (c << 28) | (0u32 << 25) | (o << 21) | (s << 20) | (rn
                                        << 16) | (rd << 12) | ((amount << 7) | (t << 5) | reg),
                                    c < 15,
                                    o < 16,
                                    s < 2,
                                    rn < 16,
                                    rd < 16,
                                    amount < 32,
                                    t < 4,
                                    reg < 16,
                            ;
                        },
                        ShiftedRegister::ByRegister(rs, typ) => {
                            let t = spec_shift_op_bits(typ);
                            lemma_shift_op_bits_roundtrip(typ);
                            assert(t < 4);
                            assert(raw == (c << 28) | (0u32 << 25) | (o << 21) | (s << 20) | (rn
                                << 16) | (rd << 12) | ((rs << 8) | (t << 5) | 0x10 | reg));
                            assert((raw >> 28) == c && (raw >> 25) & 1 == 0 && (raw >> 21) & 0xf
                                == o && (raw >> 20) & 1 == s && (raw >> 16) & 0xf == rn && (raw
                                >> 12) & 0xf == rd && (raw >> 4) & 1 == 1 && (raw >> 8) & 0xf == rs
                                && (raw >> 5) & 3 == t && raw & 0xf == reg) by (bit_vector)
                                requires
                                    raw == (c << 28) | (0u32 << 25) | (o << 21) | (s << 20) | (rn
                                        << 16) | (rd << 12) | ((rs << 8) | (t << 5) | 0x10 | reg),
                                    c < 15,
                                    o < 16,
                                    s < 2,
                                    rn < 16,
                                    rd < 16,
                                    rs < 16,
                                    t < 4,
                                    reg < 16,
                            ;
                        },
                    }
                },
            }
        },
        _ => {},
    }
}

} // verus!
