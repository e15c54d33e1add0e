//! Lowering of RISC-V instructions to AArch64 instructions.
//!
//! Each instruction is lowered by itself, through fixed tables for registers
//! and widths; a program is lowered instruction by instruction, in order, and
//! either as a whole or not at all.
use crate::instruction::{
    ArmInstruction, ArmInstructionView, ArmRegister, ArmRegisterName, ArmVal, ArmValView,
    ArmWidth, RiscVInstruction, RiscVInstructionView, RiscVRegister, RiscVVal, RiscVValView,
    RiscVWidth, RELOC_HI, RELOC_LO,
};
use crate::parser::{parse_asm, parse_asm_spec};
use crate::render::{
    render_instruction_spec, render_program, render_program_spec, render_register_spec,
    render_val_spec, RenderError,
};
use crate::text::{replace_char, replace_in};
use vstd::prelude::*;

verus! {

/// Why an instruction has no lowering.
#[derive(Debug, Clone, Copy, PartialEq, Eq, Structural)]
pub enum TranslateError {
    /// An immediate that the AArch64 instruction cannot hold.
    ImmediateOutOfRange,
    /// Register-register arithmetic at a width for which there is no rule.
    UnsupportedWidth,
    /// An instruction for which there is no rule.
    UnsupportedInstruction,
}

/// The largest magnitude of the immediate of `li`.
pub const LI_IMM_MAX: i32 = 4095;

/// The AArch64 width for a RISC-V width.
pub open spec fn arm_width_of(width: RiscVWidth) -> ArmWidth {
    match width {
        RiscVWidth::Double => ArmWidth::Double,
        RiscVWidth::Word => ArmWidth::Word,
    }
}

/// The register table: the AArch64 register that plays the role of a RISC-V
/// register.
pub open spec fn arm_register_name_of(reg: RiscVRegister) -> ArmRegisterName {
    match reg {
        RiscVRegister::X0 => ArmRegisterName::Zero,
        RiscVRegister::RA => ArmRegisterName::Lr,
        RiscVRegister::SP => ArmRegisterName::Sp,
        RiscVRegister::GP => ArmRegisterName::X12,
        RiscVRegister::TP => ArmRegisterName::X14,
        RiscVRegister::T0 => ArmRegisterName::X9,
        RiscVRegister::T1 => ArmRegisterName::X10,
        RiscVRegister::T2 => ArmRegisterName::X11,
        RiscVRegister::S0FP => ArmRegisterName::X29,
        RiscVRegister::S1 => ArmRegisterName::X13,
        RiscVRegister::A0 => ArmRegisterName::X0,
        RiscVRegister::A1 => ArmRegisterName::X1,
        RiscVRegister::A2 => ArmRegisterName::X2,
        RiscVRegister::A3 => ArmRegisterName::X3,
        RiscVRegister::A4 => ArmRegisterName::X4,
        RiscVRegister::A5 => ArmRegisterName::X5,
        RiscVRegister::A6 => ArmRegisterName::X6,
        RiscVRegister::A7 => ArmRegisterName::X8,
        RiscVRegister::S2 => ArmRegisterName::X15,
        RiscVRegister::S3 => ArmRegisterName::X16,
        RiscVRegister::S4 => ArmRegisterName::X17,
        RiscVRegister::S5 => ArmRegisterName::X18,
        RiscVRegister::S6 => ArmRegisterName::X19,
        RiscVRegister::S7 => ArmRegisterName::X20,
        RiscVRegister::S8 => ArmRegisterName::X21,
        RiscVRegister::S9 => ArmRegisterName::X22,
        RiscVRegister::S10 => ArmRegisterName::X23,
        RiscVRegister::S11 => ArmRegisterName::X24,
        RiscVRegister::T3 => ArmRegisterName::X25,
        RiscVRegister::T4 => ArmRegisterName::X26,
        RiscVRegister::T5 => ArmRegisterName::X27,
        RiscVRegister::T6 => ArmRegisterName::X28,
    }
}

/// The AArch64 register for a RISC-V register used at `width`.
pub open spec fn arm_register_of(reg: RiscVRegister, width: RiscVWidth) -> ArmRegister {
    ArmRegister { width: arm_width_of(width), name: arm_register_name_of(reg) }
}

/// The AArch64 operand for a RISC-V operand used at `width`. Labels and
/// their offsets, relocation markers included, are carried over unchanged.
pub open spec fn arm_val_of(val: RiscVValView, width: RiscVWidth) -> ArmValView {
    match val {
        RiscVValView::RiscVRegister(reg) => ArmValView::Reg(arm_register_of(reg, width)),
        RiscVValView::Immediate(imm) => ArmValView::Imm(imm),
        RiscVValView::Offset { register, offset } => ArmValView::RegOffset(
            arm_register_of(register, width),
            offset,
        ),
        RiscVValView::LabelOffset { label, offset } => ArmValView::LabelOffset(label, offset),
    }
}

/// Whether `imm` can be the immediate of `li`.
pub open spec fn li_imm_in_range(imm: i32) -> bool {
    -LI_IMM_MAX <= imm <= LI_IMM_MAX
}

/// The lowering of one instruction.
///
/// * `addi` adds a non-negative immediate and subtracts the magnitude of a
///   negative one; from the zero register it is a load of the immediate.
/// * `li` moves an immediate of magnitude at most [`LI_IMM_MAX`].
/// * `mv` adds zero.
/// * `add`/`sub` on registers exist at 32-bit width only.
/// * Loads, stores, branches, jumps and calls keep their shape; labels,
///   directives and verbatim text pass through, a directive with `@` in its
///   operands turned into `%`.
pub open spec fn translate_spec(instr: RiscVInstructionView) -> Result<
    Seq<ArmInstructionView>,
    TranslateError,
> {
    let double = RiscVWidth::Double;
    match instr {
        RiscVInstructionView::Addi { dest, src, imm } => {
            if src == RiscVRegister::X0 {
                Ok(
                    seq![
                        ArmInstructionView::Mov {
                            width: arm_width_of(double),
                            dest: arm_register_of(dest, double),
                            src: ArmValView::Imm(imm),
                        },
                    ],
                )
            } else if imm >= 0 {
                Ok(
                    seq![
                        ArmInstructionView::Add {
                            dest: arm_register_of(dest, double),
                            arg1: arm_register_of(src, double),
                            arg2: ArmValView::Imm(imm),
                        },
                    ],
                )
            } else if imm == i32::MIN {
                Err(TranslateError::ImmediateOutOfRange)
            } else {
                Ok(
                    seq![
                        ArmInstructionView::Sub {
                            dest: arm_register_of(dest, double),
                            arg1: arm_register_of(src, double),
                            arg2: ArmValView::Imm((-imm) as i32),
                        },
                    ],
                )
            }
        },
        RiscVInstructionView::Ble { arg1, arg2, target } => Ok(
            seq![
                ArmInstructionView::Ble {
                    arg1: arm_register_of(arg1, double),
                    arg2: arm_register_of(arg2, double),
                    target: arm_val_of(target, double),
                },
            ],
        ),
        RiscVInstructionView::Bge { arg1, arg2, target } => Ok(
            seq![
                ArmInstructionView::Bge {
                    arg1: arm_register_of(arg1, double),
                    arg2: arm_register_of(arg2, double),
                    target: arm_val_of(target, double),
                },
            ],
        ),
        RiscVInstructionView::Blt { arg1, arg2, target } => Ok(
            seq![
                ArmInstructionView::Blt {
                    arg1: arm_register_of(arg1, double),
                    arg2: arm_register_of(arg2, double),
                    target: arm_val_of(target, double),
                },
            ],
        ),
        RiscVInstructionView::Bgt { arg1, arg2, target } => Ok(
            seq![
                ArmInstructionView::Bgt {
                    arg1: arm_register_of(arg1, double),
                    arg2: arm_register_of(arg2, double),
                    target: arm_val_of(target, double),
                },
            ],
        ),
        RiscVInstructionView::Bne { arg1, arg2, target } => Ok(
            seq![
                ArmInstructionView::Bne {
                    arg1: arm_register_of(arg1, double),
                    arg2: arm_register_of(arg2, double),
                    target: arm_val_of(target, double),
                },
            ],
        ),
        RiscVInstructionView::J { target } => Ok(
            seq![ArmInstructionView::B { target: arm_val_of(target, double) }],
        ),
        RiscVInstructionView::S { width, src, dest } => Ok(
            seq![
                ArmInstructionView::Str {
                    width: arm_width_of(width),
                    src: arm_register_of(src, width),
                    dest: arm_val_of(dest, width),
                },
            ],
        ),
        RiscVInstructionView::L { width, dest, src } => Ok(
            seq![
                ArmInstructionView::Ldr {
                    width: arm_width_of(width),
                    dest: arm_register_of(dest, width),
                    src: arm_val_of(src, width),
                },
            ],
        ),
        RiscVInstructionView::Directive { name, operands } => Ok(
            seq![
                ArmInstructionView::Directive {
                    name,
                    operands: replace_char(operands, '@', '%'),
                },
            ],
        ),
        RiscVInstructionView::Label { name } => Ok(seq![ArmInstructionView::Label { name }]),
        RiscVInstructionView::Mv { dest, src } => Ok(
            seq![
                ArmInstructionView::Add {
                    dest: arm_register_of(dest, double),
                    arg1: arm_register_of(src, double),
                    arg2: ArmValView::Imm(0),
                },
            ],
        ),
        RiscVInstructionView::Mvi { dest, imm } => Ok(
            seq![
                ArmInstructionView::Mov {
                    width: arm_width_of(double),
                    dest: arm_register_of(dest, double),
                    src: ArmValView::Imm(imm),
                },
            ],
        ),
        RiscVInstructionView::Add { width, dest, arg1, arg2 } => match width {
            RiscVWidth::Word => Ok(
                seq![
                    ArmInstructionView::Add {
                        dest: arm_register_of(dest, width),
                        arg1: arm_register_of(arg1, width),
                        arg2: ArmValView::Reg(arm_register_of(arg2, width)),
                    },
                ],
            ),
            RiscVWidth::Double => Err(TranslateError::UnsupportedWidth),
        },
        RiscVInstructionView::Sub { width, dest, arg1, arg2 } => match width {
            RiscVWidth::Word => Ok(
                seq![
                    ArmInstructionView::Sub {
                        dest: arm_register_of(dest, width),
                        arg1: arm_register_of(arg1, width),
                        arg2: ArmValView::Reg(arm_register_of(arg2, width)),
                    },
                ],
            ),
            RiscVWidth::Double => Err(TranslateError::UnsupportedWidth),
        },
        RiscVInstructionView::SextW { dest, src } => Ok(
            seq![
                ArmInstructionView::Sxtw {
                    dest: arm_register_of(dest, RiscVWidth::Double),
                    src: arm_register_of(src, RiscVWidth::Word),
                },
            ],
        ),
        RiscVInstructionView::Jr { target } => Ok(
            seq![ArmInstructionView::Blr { target: arm_register_name_of(target) }],
        ),
        RiscVInstructionView::Li { dest, imm } => {
            if li_imm_in_range(imm) {
                Ok(
                    seq![
                        ArmInstructionView::Mov {
                            width: arm_width_of(double),
                            dest: arm_register_of(dest, double),
                            src: ArmValView::Imm(imm),
                        },
                    ],
                )
            } else {
                Err(TranslateError::ImmediateOutOfRange)
            }
        },
        RiscVInstructionView::Addl { dest, src, label } => Ok(
            seq![
                ArmInstructionView::Add {
                    dest: arm_register_of(dest, double),
                    arg1: arm_register_of(src, double),
                    arg2: arm_val_of(label, double),
                },
            ],
        ),
        RiscVInstructionView::Lui { dest, src } => Ok(
            seq![
                ArmInstructionView::Adrp {
                    dest: arm_register_of(dest, double),
                    label: arm_val_of(src, double),
                },
            ],
        ),
        RiscVInstructionView::Call { label } => Ok(
            seq![ArmInstructionView::Bl { target: arm_val_of(label, double) }],
        ),
        RiscVInstructionView::ECall => Ok(seq![ArmInstructionView::Svc { id: 0 }]),
        RiscVInstructionView::Verbatim { text } => Ok(seq![ArmInstructionView::Verbatim { text }]),
        RiscVInstructionView::Slli { .. } => Err(TranslateError::UnsupportedInstruction),
    }
}

/// The lowering of a program: the lowerings of its instructions one after
/// another, or the error of the first instruction that has none.
pub open spec fn translate_instrs_spec(instrs: Seq<RiscVInstructionView>) -> Result<
    Seq<ArmInstructionView>,
    TranslateError,
>
    decreases instrs.len(),
{
    if instrs.len() == 0 {
        Ok(Seq::empty())
    } else {
        match translate_instrs_spec(instrs.drop_last()) {
            Err(e) => Err(e),
            Ok(before) => match translate_spec(instrs.last()) {
                Err(e) => Err(e),
                Ok(last) => Ok(before + last),
            },
        }
    }
}

/// The view of a lowering result.
pub open spec fn lowered_view(r: Result<Vec<ArmInstruction>, TranslateError>) -> Result<
    Seq<ArmInstructionView>,
    TranslateError,
> {
    match r {
        Ok(v) => Ok(v.deep_view()),
        Err(e) => Err(e),
    }
}

/// The AArch64 width for a RISC-V width.
pub fn map_width(riscv_width: &RiscVWidth) -> (w: ArmWidth)
    ensures
        w == arm_width_of(*riscv_width),
{
    match riscv_width {
        RiscVWidth::Double => ArmWidth::Double,
        RiscVWidth::Word => ArmWidth::Word,
    }
}

/// Looks a RISC-V register up in the register table.
pub fn map_register_name(riscv_reg: RiscVRegister) -> (name: ArmRegisterName)
    ensures
        name == arm_register_name_of(riscv_reg),
{
    match riscv_reg {
        RiscVRegister::X0 => ArmRegisterName::Zero,
        RiscVRegister::RA => ArmRegisterName::Lr,
        RiscVRegister::SP => ArmRegisterName::Sp,
        RiscVRegister::GP => ArmRegisterName::X12,
        RiscVRegister::TP => ArmRegisterName::X14,
        RiscVRegister::T0 => ArmRegisterName::X9,
        RiscVRegister::T1 => ArmRegisterName::X10,
        RiscVRegister::T2 => ArmRegisterName::X11,
        RiscVRegister::S0FP => ArmRegisterName::X29,
        RiscVRegister::S1 => ArmRegisterName::X13,
        RiscVRegister::A0 => ArmRegisterName::X0,
        RiscVRegister::A1 => ArmRegisterName::X1,
        RiscVRegister::A2 => ArmRegisterName::X2,
        RiscVRegister::A3 => ArmRegisterName::X3,
        RiscVRegister::A4 => ArmRegisterName::X4,
        RiscVRegister::A5 => ArmRegisterName::X5,
        RiscVRegister::A6 => ArmRegisterName::X6,
        RiscVRegister::A7 => ArmRegisterName::X8,
        RiscVRegister::S2 => ArmRegisterName::X15,
        RiscVRegister::S3 => ArmRegisterName::X16,
        RiscVRegister::S4 => ArmRegisterName::X17,
        RiscVRegister::S5 => ArmRegisterName::X18,
        RiscVRegister::S6 => ArmRegisterName::X19,
        RiscVRegister::S7 => ArmRegisterName::X20,
        RiscVRegister::S8 => ArmRegisterName::X21,
        RiscVRegister::S9 => ArmRegisterName::X22,
        RiscVRegister::S10 => ArmRegisterName::X23,
        RiscVRegister::S11 => ArmRegisterName::X24,
        RiscVRegister::T3 => ArmRegisterName::X25,
        RiscVRegister::T4 => ArmRegisterName::X26,
        RiscVRegister::T5 => ArmRegisterName::X27,
        RiscVRegister::T6 => ArmRegisterName::X28,
    }
}

/// The AArch64 register for a RISC-V register used at `riscv_width`.
pub fn map_register(riscv_reg: RiscVRegister, riscv_width: &RiscVWidth) -> (reg: ArmRegister)
    ensures
        reg == arm_register_of(riscv_reg, *riscv_width),
        reg.well_formed(),
{
    ArmRegister { width: map_width(riscv_width), name: map_register_name(riscv_reg) }
}

/// The AArch64 operand for a RISC-V operand used at `riscv_width`.
pub fn map_val(riscv_val: RiscVVal, riscv_width: &RiscVWidth) -> (val: ArmVal)
    ensures
        val@ == arm_val_of(riscv_val@, *riscv_width),
{
    match riscv_val {
        RiscVVal::RiscVRegister(riscv_reg) => ArmVal::Reg(map_register(riscv_reg, riscv_width)),
        RiscVVal::Immediate(imm) => ArmVal::Imm(imm),
        RiscVVal::Offset { register, offset } => ArmVal::RegOffset(
            map_register(register, riscv_width),
            offset,
        ),
        RiscVVal::LabelOffset { label, offset } => ArmVal::LabelOffset(label, offset),
    }
}

fn single(instr: ArmInstruction) -> (v: Vec<ArmInstruction>)
    ensures
        v.deep_view() == seq![instr@],
{
    let mut v: Vec<ArmInstruction> = Vec::new();
    v.push(instr);
    assert(v.deep_view() =~= seq![instr@]);
    v
}

/// Lowers one instruction.
pub fn translate(riscv_instr: RiscVInstruction) -> (r: Result<Vec<ArmInstruction>, TranslateError>)
    ensures
        lowered_view(r) == translate_spec(riscv_instr@),
{
    let double = RiscVWidth::Double;
    match riscv_instr {
        RiscVInstruction::Addi { dest, src, imm } => {
            if src == RiscVRegister::X0 {
                Ok(
                    single(
                        ArmInstruction::Mov {
                            width: map_width(&double),
                            dest: map_register(dest, &double),
                            src: ArmVal::Imm(imm),
                        },
                    ),
                )
            } else if imm >= 0 {
                Ok(
                    single(
                        ArmInstruction::Add {
                            dest: map_register(dest, &double),
                            arg1: map_register(src, &double),
                            arg2: ArmVal::Imm(imm),
                        },
                    ),
                )
            } else if imm == i32::MIN {
                Err(TranslateError::ImmediateOutOfRange)
            } else {
                Ok(
                    single(
                        ArmInstruction::Sub {
                            dest: map_register(dest, &double),
                            arg1: map_register(src, &double),
                            arg2: ArmVal::Imm(-imm),
                        },
                    ),
                )
            }
        },
        RiscVInstruction::Ble { arg1, arg2, target } => Ok(
            single(
                ArmInstruction::Ble {
                    arg1: map_register(arg1, &double),
                    arg2: map_register(arg2, &double),
                    target: map_val(target, &double),
                },
            ),
        ),
        RiscVInstruction::Bge { arg1, arg2, target } => Ok(
            single(
                ArmInstruction::Bge {
                    arg1: map_register(arg1, &double),
                    arg2: map_register(arg2, &double),
                    target: map_val(target, &double),
                },
            ),
        ),
        RiscVInstruction::Blt { arg1, arg2, target } => Ok(
            single(
                ArmInstruction::Blt {
                    arg1: map_register(arg1, &double),
                    arg2: map_register(arg2, &double),
                    target: map_val(target, &double),
                },
            ),
        ),
        RiscVInstruction::Bgt { arg1, arg2, target } => Ok(
            single(
                ArmInstruction::Bgt {
                    arg1: map_register(arg1, &double),
                    arg2: map_register(arg2, &double),
                    target: map_val(target, &double),
                },
            ),
        ),
        RiscVInstruction::Bne { arg1, arg2, target } => Ok(
            single(
                ArmInstruction::Bne {
                    arg1: map_register(arg1, &double),
                    arg2: map_register(arg2, &double),
                    target: map_val(target, &double),
                },
            ),
        ),
        RiscVInstruction::J { target } => Ok(
            single(ArmInstruction::B { target: map_val(target, &double) }),
        ),
        RiscVInstruction::S { width, src, dest } => Ok(
            single(
                ArmInstruction::Str {
                    width: map_width(&width),
                    src: map_register(src, &width),
                    dest: map_val(dest, &width),
                },
            ),
        ),
        RiscVInstruction::L { width, dest, src } => Ok(
            single(
                ArmInstruction::Ldr {
                    width: map_width(&width),
                    dest: map_register(dest, &width),
                    src: map_val(src, &width),
                },
            ),
        ),
        RiscVInstruction::Directive { name, operands } => {
            let arm_operands = replace_in(operands.as_str(), '@', '%');
            Ok(single(ArmInstruction::Directive { name, operands: arm_operands }))
        },
        RiscVInstruction::Label { name } => Ok(single(ArmInstruction::Label { name })),
        RiscVInstruction::Mv { dest, src } => Ok(
            single(
                ArmInstruction::Add {
                    dest: map_register(dest, &double),
                    arg1: map_register(src, &double),
                    arg2: ArmVal::Imm(0),
                },
            ),
        ),
        RiscVInstruction::Mvi { dest, imm } => Ok(
            single(
                ArmInstruction::Mov {
                    width: map_width(&double),
                    dest: map_register(dest, &double),
                    src: ArmVal::Imm(imm),
                },
            ),
        ),
        RiscVInstruction::Add { width, dest, arg1, arg2 } => match width {
            RiscVWidth::Word => Ok(
                single(
                    ArmInstruction::Add {
                        dest: map_register(dest, &width),
                        arg1: map_register(arg1, &width),
                        arg2: ArmVal::Reg(map_register(arg2, &width)),
                    },
                ),
            ),
            RiscVWidth::Double => Err(TranslateError::UnsupportedWidth),
        },
        RiscVInstruction::Sub { width, dest, arg1, arg2 } => match width {
            RiscVWidth::Word => Ok(
                single(
                    ArmInstruction::Sub {
                        dest: map_register(dest, &width),
                        arg1: map_register(arg1, &width),
                        arg2: ArmVal::Reg(map_register(arg2, &width)),
                    },
                ),
            ),
            RiscVWidth::Double => Err(TranslateError::UnsupportedWidth),
        },
        RiscVInstruction::SextW { dest, src } => Ok(
            single(
                ArmInstruction::Sxtw {
                    dest: map_register(dest, &RiscVWidth::Double),
                    src: map_register(src, &RiscVWidth::Word),
                },
            ),
        ),
        RiscVInstruction::Jr { target } => Ok(
            single(ArmInstruction::Blr { target: map_register_name(target) }),
        ),
        RiscVInstruction::Li { dest, imm } => {
            if imm > LI_IMM_MAX || imm < -LI_IMM_MAX {
                Err(TranslateError::ImmediateOutOfRange)
            } else {
                Ok(
                    single(
                        ArmInstruction::Mov {
                            width: map_width(&double),
                            dest: map_register(dest, &double),
                            src: ArmVal::Imm(imm),
                        },
                    ),
                )
            }
        },
        RiscVInstruction::Addl { dest, src, label } => Ok(
            single(
                ArmInstruction::Add {
                    dest: map_register(dest, &double),
                    arg1: map_register(src, &double),
                    arg2: map_val(label, &double),
                },
            ),
        ),
        RiscVInstruction::Lui { dest, src } => Ok(
            single(
                ArmInstruction::Adrp {
                    dest: map_register(dest, &double),
                    label: map_val(src, &double),
                },
            ),
        ),
        RiscVInstruction::Call { label } => Ok(
            single(ArmInstruction::Bl { target: map_val(label, &double) }),
        ),
        RiscVInstruction::ECall => Ok(single(ArmInstruction::Svc { id: 0 })),
        RiscVInstruction::Verbatim { text } => Ok(single(ArmInstruction::Verbatim { text })),
        RiscVInstruction::Slli { dest, src, imm } => Err(TranslateError::UnsupportedInstruction),
    }
}

/// Lowers a program, instruction by instruction and in order. Where one
/// instruction has no lowering, neither has the program.
pub fn translate_instrs(riscv_instrs: Vec<RiscVInstruction>) -> (r: Result<
    Vec<ArmInstruction>,
    TranslateError,
>)
    ensures
        lowered_view(r) == translate_instrs_spec(riscv_instrs.deep_view()),
{
    let ghost all = riscv_instrs.deep_view();
    let mut out: Vec<ArmInstruction> = Vec::new();
    assert(all.take(0) =~= Seq::empty());
    assert(out.deep_view() =~= Seq::empty());
    for instr in it: riscv_instrs
        invariant
            all == riscv_instrs.deep_view(),
            it.seq().len() == all.len(),
            forall|k: int| 0 <= k < all.len() ==> (#[trigger] it.seq()[k])@ == all[k],
            translate_instrs_spec(all.take(it.index() as int)) == Ok::<
                Seq<ArmInstructionView>,
                TranslateError,
            >(out.deep_view()),
    {
        let ghost before = out.deep_view();
        let ghost k = it.index() as int;
        proof {
            assert(all.take(k + 1).drop_last() =~= all.take(k));
            assert(all.take(k + 1).last() == instr@);
        }
        match translate(instr) {
            Err(e) => {
                proof {
                    lemma_translate_failure_persists(all, k + 1);
                }
                return Err(e);
            },
            Ok(mut arm) => {
                let ghost lowered = arm.deep_view();
                out.append(&mut arm);
                assert(out.deep_view() =~= before + lowered);
            },
        }
    }
    proof {
        assert(all.take(all.len() as int) =~= all);
    }
    Ok(out)
}

/// Once a prefix of a program has no lowering, the program has none, and
/// for the same reason.
pub proof fn lemma_translate_failure_persists(instrs: Seq<RiscVInstructionView>, n: int)
    requires
        0 <= n <= instrs.len(),
        translate_instrs_spec(instrs.take(n)) is Err,
    ensures
        translate_instrs_spec(instrs) == translate_instrs_spec(instrs.take(n)),
    decreases instrs.len() - n,
{
    if n == instrs.len() {
        assert(instrs.take(n) =~= instrs);
    } else {
        assert(instrs.take(n + 1).drop_last() =~= instrs.take(n));
        lemma_translate_failure_persists(instrs, n + 1);
    }
}

/// Lowering keeps program order: the lowering of two programs one after the
/// other is the lowering of the first followed by the lowering of the
/// second.
pub proof fn lemma_translate_in_order(a: Seq<RiscVInstructionView>, b: Seq<RiscVInstructionView>)
    ensures
        translate_instrs_spec(a + b) == (match translate_instrs_spec(a) {
            Err(e) => Err(e),
            Ok(first) => match translate_instrs_spec(b) {
                Err(e) => Err(e),
                Ok(second) => Ok(first + second),
            },
        }),
    decreases b.len(),
{
    if b.len() == 0 {
        assert(a + b =~= a);
        if let Ok(first) = translate_instrs_spec(a) {
            assert(first + Seq::<ArmInstructionView>::empty() =~= first);
        }
    } else {
        assert((a + b).drop_last() =~= a + b.drop_last());
        assert((a + b).last() == b.last());
        lemma_translate_in_order(a, b.drop_last());
        if let Ok(first) = translate_instrs_spec(a) {
            if let Ok(mid) = translate_instrs_spec(b.drop_last()) {
                if let Ok(last) = translate_spec(b.last()) {
                    assert((first + mid) + last =~= first + (mid + last));
                }
            }
        }
    }
}

/// The lowering of a program of one instruction is the lowering of that
/// instruction.
pub proof fn lemma_translate_one(instr: RiscVInstructionView)
    ensures
        translate_instrs_spec(seq![instr]) == translate_spec(instr),
{
    let s = seq![instr];
    reveal_with_fuel(translate_instrs_spec, 2);
    assert(s.drop_last() =~= Seq::<RiscVInstructionView>::empty());
    assert(s.last() == instr);
    if let Ok(last) = translate_spec(instr) {
        assert(Seq::<ArmInstructionView>::empty() + last =~= last);
    }
}

/// The argument registers `a0` to `a6` lower to `x0` to `x6`, and `a7`,
/// which carries the system call number, lowers to `x8`, which carries it on
/// AArch64, at either width.
pub proof fn lemma_argument_registers(width: RiscVWidth)
    ensures
        arm_register_of(RiscVRegister::A0, width).name == ArmRegisterName::X0,
        arm_register_of(RiscVRegister::A1, width).name == ArmRegisterName::X1,
        arm_register_of(RiscVRegister::A2, width).name == ArmRegisterName::X2,
        arm_register_of(RiscVRegister::A3, width).name == ArmRegisterName::X3,
        arm_register_of(RiscVRegister::A4, width).name == ArmRegisterName::X4,
        arm_register_of(RiscVRegister::A5, width).name == ArmRegisterName::X5,
        arm_register_of(RiscVRegister::A6, width).name == ArmRegisterName::X6,
        arm_register_of(RiscVRegister::A7, width).name == ArmRegisterName::X8,
{
}

/// No two RISC-V registers share an AArch64 register.
pub proof fn lemma_register_table_injective(a: RiscVRegister, b: RiscVRegister)
    requires
        arm_register_name_of(a) == arm_register_name_of(b),
    ensures
        a == b,
{
}

/// The registers that an instruction names, in operand order. The zero
/// source of an `addi` is left out: such an `addi` only loads its immediate.
pub open spec fn riscv_registers(instr: RiscVInstructionView) -> Seq<RiscVRegister> {
    match instr {
        RiscVInstructionView::Addi { dest, src, imm } => if src == RiscVRegister::X0 {
            seq![dest]
        } else {
            seq![dest, src]
        },
        RiscVInstructionView::Addl { dest, src, label } => seq![dest, src] + riscv_val_registers(
            label,
        ),
        RiscVInstructionView::Add { width, dest, arg1, arg2 } => seq![dest, arg1, arg2],
        RiscVInstructionView::Sub { width, dest, arg1, arg2 } => seq![dest, arg1, arg2],
        RiscVInstructionView::Call { label } => riscv_val_registers(label),
        RiscVInstructionView::S { width, src, dest } => seq![src] + riscv_val_registers(dest),
        RiscVInstructionView::L { width, dest, src } => seq![dest] + riscv_val_registers(src),
        RiscVInstructionView::Directive { .. } => seq![],
        RiscVInstructionView::Label { .. } => seq![],
        RiscVInstructionView::Lui { dest, src } => seq![dest] + riscv_val_registers(src),
        RiscVInstructionView::Mv { dest, src } => seq![dest, src],
        RiscVInstructionView::Mvi { dest, imm } => seq![dest],
        RiscVInstructionView::SextW { dest, src } => seq![dest, src],
        RiscVInstructionView::Jr { target } => seq![target],
        RiscVInstructionView::Li { dest, imm } => seq![dest],
        RiscVInstructionView::Ble { arg1, arg2, target } => seq![arg1, arg2] + riscv_val_registers(
            target,
        ),
        RiscVInstructionView::Bge { arg1, arg2, target } => seq![arg1, arg2] + riscv_val_registers(
            target,
        ),
        RiscVInstructionView::Blt { arg1, arg2, target } => seq![arg1, arg2] + riscv_val_registers(
            target,
        ),
        RiscVInstructionView::Bgt { arg1, arg2, target } => seq![arg1, arg2] + riscv_val_registers(
            target,
        ),
        RiscVInstructionView::Bne { arg1, arg2, target } => seq![arg1, arg2] + riscv_val_registers(
            target,
        ),
        RiscVInstructionView::J { target } => riscv_val_registers(target),
        RiscVInstructionView::ECall => seq![],
        RiscVInstructionView::Verbatim { .. } => seq![],
        RiscVInstructionView::Slli { dest, src, imm } => seq![dest, src],
    }
}

/// The registers that an operand names.
pub open spec fn riscv_val_registers(val: RiscVValView) -> Seq<RiscVRegister> {
    match val {
        RiscVValView::RiscVRegister(reg) => seq![reg],
        RiscVValView::Immediate(_) => seq![],
        RiscVValView::Offset { register, offset } => seq![register],
        RiscVValView::LabelOffset { .. } => seq![],
    }
}

/// The registers that an AArch64 operand names.
pub open spec fn arm_val_registers(val: ArmValView) -> Seq<ArmRegisterName> {
    match val {
        ArmValView::Reg(reg) => seq![reg.name],
        ArmValView::Imm(_) => seq![],
        ArmValView::RegOffset(reg, _) => seq![reg.name],
        ArmValView::LabelOffset(_, _) => seq![],
    }
}

/// The registers that an AArch64 instruction names, in operand order.
pub open spec fn arm_registers(instr: ArmInstructionView) -> Seq<ArmRegisterName> {
    match instr {
        ArmInstructionView::Adc => seq![],
        ArmInstructionView::Add { dest, arg1, arg2 } => seq![dest.name, arg1.name]
            + arm_val_registers(arg2),
        ArmInstructionView::And => seq![],
        ArmInstructionView::Adrp { dest, label } => seq![dest.name] + arm_val_registers(label),
        ArmInstructionView::B { target } => arm_val_registers(target),
        ArmInstructionView::Ble { arg1, arg2, target } => seq![arg1.name, arg2.name]
            + arm_val_registers(target),
        ArmInstructionView::Bge { arg1, arg2, target } => seq![arg1.name, arg2.name]
            + arm_val_registers(target),
        ArmInstructionView::Blt { arg1, arg2, target } => seq![arg1.name, arg2.name]
            + arm_val_registers(target),
        ArmInstructionView::Bgt { arg1, arg2, target } => seq![arg1.name, arg2.name]
            + arm_val_registers(target),
        ArmInstructionView::Bne { arg1, arg2, target } => seq![arg1.name, arg2.name]
            + arm_val_registers(target),
        ArmInstructionView::Blr { target } => seq![target],
        ArmInstructionView::Bl { target } => arm_val_registers(target),
        ArmInstructionView::Label { .. } => seq![],
        ArmInstructionView::Directive { .. } => seq![],
        ArmInstructionView::Ldr { width, dest, src } => seq![dest.name] + arm_val_registers(src),
        ArmInstructionView::Mov { width, dest, src } => seq![dest.name] + arm_val_registers(src),
        ArmInstructionView::Ret => seq![],
        ArmInstructionView::Str { width, src, dest } => seq![src.name] + arm_val_registers(dest),
        ArmInstructionView::Sub { dest, arg1, arg2 } => seq![dest.name, arg1.name]
            + arm_val_registers(arg2),
        ArmInstructionView::Sxtw { dest, src } => seq![dest.name, src.name],
        ArmInstructionView::Svc { .. } => seq![],
        ArmInstructionView::Verbatim { .. } => seq![],
    }
}

/// The AArch64 registers that the register table gives for `regs`, in the
/// same order.
pub open spec fn table_names(regs: Seq<RiscVRegister>) -> Seq<ArmRegisterName> {
    Seq::new(regs.len(), |i: int| arm_register_name_of(regs[i]))
}

proof fn lemma_table_names_concat(a: Seq<RiscVRegister>, b: Seq<RiscVRegister>)
    ensures
        table_names(a + b) == table_names(a) + table_names(b),
{
    assert(table_names(a + b) =~= table_names(a) + table_names(b));
}

/// An operand lowers to an operand that names, in the same order, the
/// registers that the register table gives for the registers of the RISC-V
/// operand.
pub proof fn lemma_val_registers_follow_table(val: RiscVValView, width: RiscVWidth)
    ensures
        arm_val_registers(arm_val_of(val, width)) == table_names(riscv_val_registers(val)),
{
    assert(arm_val_registers(arm_val_of(val, width)) =~= table_names(riscv_val_registers(val)));
}

proof fn lemma_head_and_val(
    head: Seq<RiscVRegister>,
    arm_head: Seq<ArmRegisterName>,
    val: RiscVValView,
    width: RiscVWidth,
)
    requires
        arm_head =~= table_names(head),
    ensures
        arm_head + arm_val_registers(arm_val_of(val, width)) == table_names(
            head + riscv_val_registers(val),
        ),
{
    lemma_val_registers_follow_table(val, width);
    lemma_table_names_concat(head, riscv_val_registers(val));
}

/// What [`lemma_registers_follow_table`] states, of one instruction.
pub open spec fn registers_follow_table(instr: RiscVInstructionView) -> bool {
    translate_spec(instr) is Ok ==> {
        &&& translate_spec(instr)->Ok_0.len() == 1
        &&& arm_registers(translate_spec(instr)->Ok_0[0]) == table_names(riscv_registers(instr))
    }
}

proof fn lemma_registers_of_branches(
    arg1: RiscVRegister,
    arg2: RiscVRegister,
    target: RiscVValView,
)
    ensures
        registers_follow_table(RiscVInstructionView::Ble { arg1, arg2, target }),
        registers_follow_table(RiscVInstructionView::Bge { arg1, arg2, target }),
        registers_follow_table(RiscVInstructionView::Blt { arg1, arg2, target }),
        registers_follow_table(RiscVInstructionView::Bgt { arg1, arg2, target }),
        registers_follow_table(RiscVInstructionView::Bne { arg1, arg2, target }),
        registers_follow_table(RiscVInstructionView::Addl { dest: arg1, src: arg2, label: target }),
{
    lemma_head_and_val(
        seq![arg1, arg2],
        seq![arm_register_name_of(arg1), arm_register_name_of(arg2)],
        target,
        RiscVWidth::Double,
    );
}

proof fn lemma_registers_of_memory_access(
    width: RiscVWidth,
    reg: RiscVRegister,
    val: RiscVValView,
)
    ensures
        registers_follow_table(RiscVInstructionView::S { width, src: reg, dest: val }),
        registers_follow_table(RiscVInstructionView::L { width, dest: reg, src: val }),
        registers_follow_table(RiscVInstructionView::Lui { dest: reg, src: val }),
        registers_follow_table(RiscVInstructionView::Call { label: val }),
        registers_follow_table(RiscVInstructionView::J { target: val }),
{
    lemma_head_and_val(seq![reg], seq![arm_register_name_of(reg)], val, width);
    lemma_head_and_val(seq![reg], seq![arm_register_name_of(reg)], val, RiscVWidth::Double);
    lemma_val_registers_follow_table(val, RiscVWidth::Double);
}

proof fn lemma_registers_of_arithmetic(
    width: RiscVWidth,
    dest: RiscVRegister,
    arg1: RiscVRegister,
    arg2: RiscVRegister,
    imm: i32,
)
    ensures
        registers_follow_table(RiscVInstructionView::Add { width, dest, arg1, arg2 }),
        registers_follow_table(RiscVInstructionView::Sub { width, dest, arg1, arg2 }),
        registers_follow_table(RiscVInstructionView::Addi { dest, src: arg1, imm }),
        registers_follow_table(RiscVInstructionView::Mv { dest, src: arg1 }),
        registers_follow_table(RiscVInstructionView::SextW { dest, src: arg1 }),
{
    let d = arm_register_name_of(dest);
    let a = arm_register_name_of(arg1);
    let b = arm_register_name_of(arg2);
    assert(seq![d, a] + seq![b] =~= table_names(seq![dest, arg1, arg2]));
    assert(seq![d, a] + Seq::<ArmRegisterName>::empty() =~= table_names(seq![dest, arg1]));
    assert(seq![d, a] =~= table_names(seq![dest, arg1]));
    assert(seq![d] + Seq::<ArmRegisterName>::empty() =~= table_names(seq![dest]));
}

proof fn lemma_registers_of_the_rest(dest: RiscVRegister, imm: i32, text: Seq<char>)
    ensures
        registers_follow_table(RiscVInstructionView::Mvi { dest, imm }),
        registers_follow_table(RiscVInstructionView::Li { dest, imm }),
        registers_follow_table(RiscVInstructionView::Jr { target: dest }),
        registers_follow_table(RiscVInstructionView::Label { name: text }),
        registers_follow_table(RiscVInstructionView::Verbatim { text }),
        registers_follow_table(RiscVInstructionView::ECall),
        forall|name: Seq<char>| #[trigger]
            registers_follow_table(RiscVInstructionView::Directive { name, operands: text }),
{
    let d = arm_register_name_of(dest);
    assert(seq![d] + Seq::<ArmRegisterName>::empty() =~= table_names(seq![dest]));
    assert(seq![d] =~= table_names(seq![dest]));
    assert(Seq::<ArmRegisterName>::empty() =~= table_names(Seq::<RiscVRegister>::empty()));
}

/// Every instruction that has a lowering lowers to one instruction, and
/// that instruction names, operand for operand, the registers that the
/// register table gives for the registers of the RISC-V instruction. So a
/// register is mapped the same way wherever it occurs.
pub proof fn lemma_registers_follow_table(instr: RiscVInstructionView)
    requires
        translate_spec(instr) is Ok,
    ensures
        translate_spec(instr)->Ok_0.len() == 1,
        arm_registers(translate_spec(instr)->Ok_0[0]) == table_names(riscv_registers(instr)),
{
    assert(registers_follow_table(instr)) by {
        match instr {
            RiscVInstructionView::Addl { dest, src, label } => {
                lemma_registers_of_branches(dest, src, label);
            },
            RiscVInstructionView::Ble { arg1, arg2, target } => {
                lemma_registers_of_branches(arg1, arg2, target);
            },
            RiscVInstructionView::Bge { arg1, arg2, target } => {
                lemma_registers_of_branches(arg1, arg2, target);
            },
            RiscVInstructionView::Blt { arg1, arg2, target } => {
                lemma_registers_of_branches(arg1, arg2, target);
            },
            RiscVInstructionView::Bgt { arg1, arg2, target } => {
                lemma_registers_of_branches(arg1, arg2, target);
            },
            RiscVInstructionView::Bne { arg1, arg2, target } => {
                lemma_registers_of_branches(arg1, arg2, target);
            },
            RiscVInstructionView::Call { label } => {
                lemma_registers_of_memory_access(RiscVWidth::Double, RiscVRegister::X0, label);
            },
            RiscVInstructionView::J { target } => {
                lemma_registers_of_memory_access(RiscVWidth::Double, RiscVRegister::X0, target);
            },
            RiscVInstructionView::S { width, src, dest } => {
                lemma_registers_of_memory_access(width, src, dest);
            },
            RiscVInstructionView::L { width, dest, src } => {
                lemma_registers_of_memory_access(width, dest, src);
            },
            RiscVInstructionView::Lui { dest, src } => {
                lemma_registers_of_memory_access(RiscVWidth::Double, dest, src);
            },
            RiscVInstructionView::Add { width, dest, arg1, arg2 } => {
                lemma_registers_of_arithmetic(width, dest, arg1, arg2, 0);
            },
            RiscVInstructionView::Sub { width, dest, arg1, arg2 } => {
                lemma_registers_of_arithmetic(width, dest, arg1, arg2, 0);
            },
            RiscVInstructionView::Addi { dest, src, imm } => {
                lemma_registers_of_arithmetic(RiscVWidth::Double, dest, src, src, imm);
            },
            RiscVInstructionView::Mv { dest, src } => {
                lemma_registers_of_arithmetic(RiscVWidth::Double, dest, src, src, 0);
            },
            RiscVInstructionView::SextW { dest, src } => {
                lemma_registers_of_arithmetic(RiscVWidth::Double, dest, src, src, 0);
            },
            RiscVInstructionView::Mvi { dest, imm } => {
                lemma_registers_of_the_rest(dest, imm, Seq::empty());
            },
            RiscVInstructionView::Li { dest, imm } => {
                lemma_registers_of_the_rest(dest, imm, Seq::empty());
            },
            RiscVInstructionView::Jr { target } => {
                lemma_registers_of_the_rest(target, 0, Seq::empty());
            },
            RiscVInstructionView::Label { name } => {
                lemma_registers_of_the_rest(RiscVRegister::X0, 0, name);
            },
            RiscVInstructionView::Verbatim { text } => {
                lemma_registers_of_the_rest(RiscVRegister::X0, 0, text);
            },
            RiscVInstructionView::Directive { name, operands } => {
                lemma_registers_of_the_rest(RiscVRegister::X0, 0, operands);
            },
            RiscVInstructionView::ECall => {
                lemma_registers_of_the_rest(RiscVRegister::X0, 0, Seq::empty());
            },
            RiscVInstructionView::Slli { .. } => {},
        }
    }
}

/// The register that carries the system call number lowers to the register
/// that carries it on AArch64, in whatever instruction and at whatever
/// place among its operands it occurs.
pub proof fn lemma_syscall_number_register(instr: RiscVInstructionView, k: int)
    requires
        translate_spec(instr) is Ok,
        0 <= k < riscv_registers(instr).len(),
        riscv_registers(instr)[k] == RiscVRegister::A7,
    ensures
        translate_spec(instr)->Ok_0.len() == 1,
        arm_registers(translate_spec(instr)->Ok_0[0]).len() == riscv_registers(instr).len(),
        arm_registers(translate_spec(instr)->Ok_0[0])[k] == ArmRegisterName::X8,
{
    lemma_registers_follow_table(instr);
}

/// A program lowers to as many instructions as it has.
pub proof fn lemma_translate_keeps_count(instrs: Seq<RiscVInstructionView>)
    requires
        translate_instrs_spec(instrs) is Ok,
    ensures
        translate_instrs_spec(instrs)->Ok_0.len() == instrs.len(),
    decreases instrs.len(),
{
    if instrs.len() > 0 {
        lemma_translate_keeps_count(instrs.drop_last());
        lemma_registers_follow_table(instrs.last());
    }
}

/// An `addi` from a register other than the zero register lowers to an
/// `add` of its immediate where that is not negative, and to a `sub` of the
/// immediate's magnitude where it is negative. The magnitude of the least
/// `i32` is no `i32`, and that immediate has no lowering.
pub proof fn lemma_addi_by_sign(dest: RiscVRegister, src: RiscVRegister, imm: i32)
    requires
        src != RiscVRegister::X0,
        imm != i32::MIN,
    ensures
        imm >= 0 ==> translate_spec(RiscVInstructionView::Addi { dest, src, imm }) == Ok::<
            Seq<ArmInstructionView>,
            TranslateError,
        >(
            seq![
                ArmInstructionView::Add {
                    dest: arm_register_of(dest, RiscVWidth::Double),
                    arg1: arm_register_of(src, RiscVWidth::Double),
                    arg2: ArmValView::Imm(imm),
                },
            ],
        ),
        imm < 0 ==> translate_spec(RiscVInstructionView::Addi { dest, src, imm }) == Ok::<
            Seq<ArmInstructionView>,
            TranslateError,
        >(
            seq![
                ArmInstructionView::Sub {
                    dest: arm_register_of(dest, RiscVWidth::Double),
                    arg1: arm_register_of(src, RiscVWidth::Double),
                    arg2: ArmValView::Imm((-imm) as i32),
                },
            ],
        ),
        imm < 0 ==> (-imm) as i32 > 0 && (-imm) as i32 == -(imm as int),
{
}

/// An `addi` from the zero register lowers as the `li` of the same
/// immediate does, for every immediate that `li` can hold: to one `mov`.
pub proof fn lemma_addi_from_zero_is_li(dest: RiscVRegister, imm: i32)
    requires
        li_imm_in_range(imm),
    ensures
        translate_spec(RiscVInstructionView::Addi { dest, src: RiscVRegister::X0, imm })
            == translate_spec(RiscVInstructionView::Li { dest, imm }),
        translate_spec(RiscVInstructionView::Li { dest, imm }) == Ok::<
            Seq<ArmInstructionView>,
            TranslateError,
        >(
            seq![
                ArmInstructionView::Mov {
                    width: ArmWidth::Double,
                    dest: arm_register_of(dest, RiscVWidth::Double),
                    src: ArmValView::Imm(imm),
                },
            ],
        ),
{
}

/// A load lowers to one `ldr` and a store to one `str`, of the width and on
/// the operands of the RISC-V instruction: a 32-bit access stays 32-bit, a
/// 64-bit access stays 64-bit.
pub proof fn lemma_load_store_keep_width(
    width: RiscVWidth,
    reg: RiscVRegister,
    mem: RiscVValView,
)
    ensures
        translate_spec(RiscVInstructionView::L { width, dest: reg, src: mem }) == Ok::<
            Seq<ArmInstructionView>,
            TranslateError,
        >(
            seq![
                ArmInstructionView::Ldr {
                    width: arm_width_of(width),
                    dest: arm_register_of(reg, width),
                    src: arm_val_of(mem, width),
                },
            ],
        ),
        translate_spec(RiscVInstructionView::S { width, src: reg, dest: mem }) == Ok::<
            Seq<ArmInstructionView>,
            TranslateError,
        >(
            seq![
                ArmInstructionView::Str {
                    width: arm_width_of(width),
                    src: arm_register_of(reg, width),
                    dest: arm_val_of(mem, width),
                },
            ],
        ),
        arm_width_of(RiscVWidth::Word) == ArmWidth::Word,
        arm_width_of(RiscVWidth::Double) == ArmWidth::Double,
        arm_register_of(reg, width).width == arm_width_of(width),
{
}

/// A `lui` of the high part of a label followed by the addition of its low
/// part lowers to an `adrp` followed by an `add`, which name the same label
/// with the same two markers.
pub proof fn lemma_relocation_pair(
    hi_dest: RiscVRegister,
    lo_dest: RiscVRegister,
    lo_src: RiscVRegister,
    label: Seq<char>,
)
    ensures
        translate_instrs_spec(
            seq![
                RiscVInstructionView::Lui {
                    dest: hi_dest,
                    src: RiscVValView::LabelOffset { label, offset: RELOC_HI },
                },
                RiscVInstructionView::Addl {
                    dest: lo_dest,
                    src: lo_src,
                    label: RiscVValView::LabelOffset { label, offset: RELOC_LO },
                },
            ],
        ) == Ok::<Seq<ArmInstructionView>, TranslateError>(
            seq![
                ArmInstructionView::Adrp {
                    dest: arm_register_of(hi_dest, RiscVWidth::Double),
                    label: ArmValView::LabelOffset(label, RELOC_HI),
                },
                ArmInstructionView::Add {
                    dest: arm_register_of(lo_dest, RiscVWidth::Double),
                    arg1: arm_register_of(lo_src, RiscVWidth::Double),
                    arg2: ArmValView::LabelOffset(label, RELOC_LO),
                },
            ],
        ),
{
    let lui = RiscVInstructionView::Lui {
        dest: hi_dest,
        src: RiscVValView::LabelOffset { label, offset: RELOC_HI },
    };
    let addl = RiscVInstructionView::Addl {
        dest: lo_dest,
        src: lo_src,
        label: RiscVValView::LabelOffset { label, offset: RELOC_LO },
    };
    lemma_translate_one(lui);
    lemma_translate_one(addl);
    lemma_translate_in_order(seq![lui], seq![addl]);
    assert(seq![lui] + seq![addl] =~= seq![lui, addl]);
    let adrp = translate_spec(lui)->Ok_0;
    let add = translate_spec(addl)->Ok_0;
    assert(adrp + add =~= seq![adrp[0], add[0]]);
}

/// A reference to a label lowers to a reference to the same label with the
/// same offset, at either width: branch targets and relocation markers
/// are carried over unchanged.
pub proof fn lemma_label_operand_is_kept(label: Seq<char>, offset: i32, width: RiscVWidth)
    ensures
        arm_val_of(RiscVValView::LabelOffset { label, offset }, width) == ArmValView::LabelOffset(
            label,
            offset,
        ),
{
}

/// Verbatim text lowers to itself: one verbatim instruction with the same
/// text.
pub proof fn lemma_verbatim_passes_through(text: Seq<char>)
    ensures
        translate_spec(RiscVInstructionView::Verbatim { text }) == Ok::<
            Seq<ArmInstructionView>,
            TranslateError,
        >(seq![ArmInstructionView::Verbatim { text }]),
{
}

/// Labels lower to themselves, so that branch targets still resolve.
pub proof fn lemma_label_passes_through(name: Seq<char>)
    ensures
        translate_spec(RiscVInstructionView::Label { name }) == Ok::<
            Seq<ArmInstructionView>,
            TranslateError,
        >(seq![ArmInstructionView::Label { name }]),
{
}

/// Every register that lowering produces has a name at its width and at
/// 64 bits.
pub proof fn lemma_lowered_register_renders(reg: RiscVRegister, width: RiscVWidth)
    ensures
        render_register_spec(arm_register_of(reg, width)) is Some,
        render_register_spec(
            ArmRegister { width: ArmWidth::Double, name: arm_register_name_of(reg) },
        ) is Some,
{
}

/// Every register and every operand that lowering produces has a text.
pub proof fn lemma_lowered_operands_render(
    reg: RiscVRegister,
    val: RiscVValView,
    width: RiscVWidth,
)
    ensures
        render_register_spec(arm_register_of(reg, width)) is Some,
        render_register_spec(
            ArmRegister { width: ArmWidth::Double, name: arm_register_name_of(reg) },
        ) is Some,
        render_val_spec(arm_val_of(val, width)) is Some,
{
    lemma_lowered_register_renders(reg, width);
    match val {
        RiscVValView::RiscVRegister(r) => {
            lemma_lowered_register_renders(r, width);
        },
        RiscVValView::Offset { register, offset } => {
            lemma_lowered_register_renders(register, width);
        },
        _ => {},
    }
}

/// Every instruction that lowering produces has a text.
pub proof fn lemma_lowered_instruction_renders(instr: RiscVInstructionView)
    requires
        translate_spec(instr) is Ok,
    ensures
        translate_spec(instr)->Ok_0.len() == 1,
        render_instruction_spec(translate_spec(instr)->Ok_0[0]) is Ok,
{
    let none = RiscVValView::Immediate(0);
    let double = RiscVWidth::Double;
    match instr {
        RiscVInstructionView::Addi { dest, src, imm } => {
            lemma_lowered_operands_render(dest, none, double);
            lemma_lowered_operands_render(src, none, double);
        },
        RiscVInstructionView::Addl { dest, src, label } => {
            lemma_lowered_operands_render(dest, label, double);
            lemma_lowered_operands_render(src, label, double);
        },
        RiscVInstructionView::Add { width, dest, arg1, arg2 } => {
            lemma_lowered_operands_render(dest, none, width);
            lemma_lowered_operands_render(arg1, none, width);
            lemma_lowered_operands_render(arg2, none, width);
        },
        RiscVInstructionView::Sub { width, dest, arg1, arg2 } => {
            lemma_lowered_operands_render(dest, none, width);
            lemma_lowered_operands_render(arg1, none, width);
            lemma_lowered_operands_render(arg2, none, width);
        },
        RiscVInstructionView::Call { label } => {
            lemma_lowered_operands_render(RiscVRegister::X0, label, double);
        },
        RiscVInstructionView::S { width, src, dest } => {
            lemma_lowered_operands_render(src, dest, width);
        },
        RiscVInstructionView::L { width, dest, src } => {
            lemma_lowered_operands_render(dest, src, width);
        },
        RiscVInstructionView::Lui { dest, src } => {
            lemma_lowered_operands_render(dest, src, double);
        },
        RiscVInstructionView::Mv { dest, src } => {
            lemma_lowered_operands_render(dest, none, double);
            lemma_lowered_operands_render(src, none, double);
        },
        RiscVInstructionView::Mvi { dest, imm } => {
            lemma_lowered_operands_render(dest, none, double);
        },
        RiscVInstructionView::SextW { dest, src } => {
            lemma_lowered_operands_render(dest, none, double);
            lemma_lowered_operands_render(src, none, RiscVWidth::Word);
        },
        RiscVInstructionView::Jr { target } => {
            lemma_lowered_operands_render(target, none, double);
        },
        RiscVInstructionView::Li { dest, imm } => {
            lemma_lowered_operands_render(dest, none, double);
        },
        RiscVInstructionView::Ble { arg1, arg2, target } => {
            lemma_lowered_operands_render(arg1, target, double);
            lemma_lowered_operands_render(arg2, target, double);
        },
        RiscVInstructionView::Bge { arg1, arg2, target } => {
            lemma_lowered_operands_render(arg1, target, double);
            lemma_lowered_operands_render(arg2, target, double);
        },
        RiscVInstructionView::Blt { arg1, arg2, target } => {
            lemma_lowered_operands_render(arg1, target, double);
            lemma_lowered_operands_render(arg2, target, double);
        },
        RiscVInstructionView::Bgt { arg1, arg2, target } => {
            lemma_lowered_operands_render(arg1, target, double);
            lemma_lowered_operands_render(arg2, target, double);
        },
        RiscVInstructionView::Bne { arg1, arg2, target } => {
            lemma_lowered_operands_render(arg1, target, double);
            lemma_lowered_operands_render(arg2, target, double);
        },
        RiscVInstructionView::J { target } => {
            lemma_lowered_operands_render(RiscVRegister::X0, target, double);
        },
        _ => {},
    }
}

/// Every program that lowering produces has a text: rendering what was
/// lowered does not fail.
pub proof fn lemma_lowered_program_renders(instrs: Seq<RiscVInstructionView>)
    requires
        translate_instrs_spec(instrs) is Ok,
    ensures
        render_program_spec(translate_instrs_spec(instrs)->Ok_0) is Ok,
    decreases instrs.len(),
{
    if instrs.len() > 0 {
        let before = translate_instrs_spec(instrs.drop_last())->Ok_0;
        let last = translate_spec(instrs.last())->Ok_0;
        lemma_lowered_program_renders(instrs.drop_last());
        lemma_lowered_instruction_renders(instrs.last());
        assert(last =~= seq![last[0]]);
        assert((before + last).drop_last() =~= before);
        assert((before + last).last() == last[0]);
    }
}

/// Lowers a program and renders what it lowers to. The only failure is
/// that of lowering.
pub fn translate_to_string(riscv_instrs: Vec<RiscVInstruction>) -> (r: Result<
    String,
    TranslateError,
>)
    ensures
        match translate_instrs_spec(riscv_instrs.deep_view()) {
            Ok(arm) => r is Ok && render_program_spec(arm) == Ok::<Seq<char>, RenderError>(
                r->Ok_0@,
            ),
            Err(e) => r == Err::<String, TranslateError>(e),
        },
{
    proof {
        if translate_instrs_spec(riscv_instrs.deep_view()) is Ok {
            lemma_lowered_program_renders(riscv_instrs.deep_view());
        }
    }
    match translate_instrs(riscv_instrs) {
        Err(e) => Err(e),
        Ok(arm) => match render_program(&arm) {
            Ok(text) => Ok(text),
            Err(_) => unreached(),
        },
    }
}

/// Translates RISC-V assembly text to AArch64 assembly text: parses it,
/// lowers the program and renders the result. Lines that the parser leaves
/// out are left out of the result; where an instruction has no lowering,
/// there is no result.
pub fn binary_translate(riscv_asm: &str) -> (r: Result<String, TranslateError>)
    ensures
        match translate_instrs_spec(parse_asm_spec(riscv_asm@)) {
            Ok(arm) => r is Ok && render_program_spec(arm) == Ok::<Seq<char>, RenderError>(
                r->Ok_0@,
            ),
            Err(e) => r == Err::<String, TranslateError>(e),
        },
{
    let instructions = parse_asm(riscv_asm);
    translate_to_string(instructions)
}

} // verus!
