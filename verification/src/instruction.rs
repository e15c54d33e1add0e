//! The instruction model: RISC-V and AArch64 registers, operands and
//! instructions as closed enumerations, each with its mathematical view.
//!
//! Values that carry text (`String`) are viewed as the same shape over
//! `Seq<char>`; contracts elsewhere in the crate are stated over those views.
use vstd::prelude::*;

verus! {

/// Relocation marker in the offset of a label reference: the high part of the
/// label's address (`%hi` on RISC-V, the page address of `adrp` on AArch64).
pub const RELOC_HI: i32 = 9998;

/// Relocation marker in the offset of a label reference: the low twelve bits
/// of the label's address (`%lo` on RISC-V, `:lo12:` on AArch64).
pub const RELOC_LO: i32 = 9999;

/// Operand width of a RISC-V instruction: the `w`-suffixed 32-bit form or the
/// plain 64-bit form.
#[derive(Debug, Clone, Copy, PartialEq, Eq, Structural)]
pub enum RiscVWidth {
    Word,
    Double,
}

impl Default for RiscVWidth {
    fn default() -> (w: Self)
        ensures
            w == RiscVWidth::Double,
    {
        RiscVWidth::Double
    }
}

/// RISC-V integer registers, under their ABI names.
#[derive(Debug, Clone, Copy, PartialEq, Eq, Structural)]
pub enum RiscVRegister {
    /// Hard-wired zero.
    X0,
    /// Return address.
    RA,
    /// Stack pointer.
    SP,
    /// Global pointer.
    GP,
    /// Thread pointer.
    TP,
    T0,
    T1,
    T2,
    /// Saved register / frame pointer.
    S0FP,
    S1,
    /// Argument / return value.
    A0,
    A1,
    A2,
    A3,
    A4,
    A5,
    A6,
    /// Argument; carries the system call number at an `ecall`.
    A7,
    S2,
    S3,
    S4,
    S5,
    S6,
    S7,
    S8,
    S9,
    S10,
    S11,
    T3,
    T4,
    T5,
    T6,
}

impl Default for RiscVRegister {
    fn default() -> (r: Self)
        ensures
            r == RiscVRegister::X0,
    {
        RiscVRegister::X0
    }
}

/// An operand of a RISC-V instruction.
///
/// The `offset` of a `LabelOffset` doubles as a relocation marker: `0` is the
/// label itself, [`RELOC_HI`] its high part, [`RELOC_LO`] its low part, and any
/// other value a byte offset from the label.
#[derive(Debug, Clone, PartialEq, Eq)]
pub enum RiscVVal {
    RiscVRegister(RiscVRegister),
    Immediate(i32),
    /// A memory reference: register plus signed offset.
    Offset { register: RiscVRegister, offset: i32 },
    LabelOffset { label: String, offset: i32 },
}

/// The view of a [`RiscVVal`].
pub enum RiscVValView {
    RiscVRegister(RiscVRegister),
    Immediate(i32),
    Offset { register: RiscVRegister, offset: i32 },
    LabelOffset { label: Seq<char>, offset: i32 },
}

impl View for RiscVVal {
    type V = RiscVValView;

    open spec fn view(&self) -> RiscVValView {
        match *self {
            RiscVVal::RiscVRegister(r) => RiscVValView::RiscVRegister(r),
            RiscVVal::Immediate(i) => RiscVValView::Immediate(i),
            RiscVVal::Offset { register, offset } => RiscVValView::Offset { register, offset },
            RiscVVal::LabelOffset { label, offset } => RiscVValView::LabelOffset {
                label: label@,
                offset,
            },
        }
    }
}

impl DeepView for RiscVVal {
    type V = RiscVValView;

    open spec fn deep_view(&self) -> RiscVValView {
        self@
    }
}

impl Default for RiscVVal {
    fn default() -> (v: Self)
        ensures
            v@ == RiscVValView::Immediate(0),
    {
        RiscVVal::Immediate(0)
    }
}

/// The supported RISC-V instructions and pseudo-instructions.
#[derive(Debug, Clone, PartialEq, Eq)]
#[allow(inconsistent_fields)]
pub enum RiscVInstruction {
    /// `addi dest, src, imm`
    Addi { dest: RiscVRegister, src: RiscVRegister, imm: i32 },
    /// Adds a part of a label's address to `src`.
    Addl { dest: RiscVRegister, src: RiscVRegister, label: RiscVVal },
    /// `add` / `addw`
    Add { width: RiscVWidth, dest: RiscVRegister, arg1: RiscVRegister, arg2: RiscVRegister },
    /// `sub` / `subw`
    Sub { width: RiscVWidth, dest: RiscVRegister, arg1: RiscVRegister, arg2: RiscVRegister },
    /// `call label`
    Call { label: RiscVVal },
    /// `sd` / `sw`: stores `src` to the memory at `dest`.
    S { width: RiscVWidth, src: RiscVRegister, dest: RiscVVal },
    /// `ld` / `lw`: loads `dest` from the memory at `src`.
    L { width: RiscVWidth, dest: RiscVRegister, src: RiscVVal },
    /// An assembler directive, `.name operands`.
    Directive { name: String, operands: String },
    /// A label definition, `name:`.
    Label { name: String },
    /// `lui dest, src`
    Lui { dest: RiscVRegister, src: RiscVVal },
    /// `mv dest, src`
    Mv { dest: RiscVRegister, src: RiscVRegister },
    /// Copies an immediate into `dest`.
    Mvi { dest: RiscVRegister, imm: i32 },
    /// `sext.w dest, src`
    SextW { dest: RiscVRegister, src: RiscVRegister },
    /// `jr target`
    Jr { target: RiscVRegister },
    /// `li dest, imm`
    Li { dest: RiscVRegister, imm: i32 },
    /// `ble arg1, arg2, target`
    Ble { arg1: RiscVRegister, arg2: RiscVRegister, target: RiscVVal },
    /// `bge arg1, arg2, target`
    Bge { arg1: RiscVRegister, arg2: RiscVRegister, target: RiscVVal },
    /// `blt arg1, arg2, target`
    Blt { arg1: RiscVRegister, arg2: RiscVRegister, target: RiscVVal },
    /// `bgt arg1, arg2, target`
    Bgt { arg1: RiscVRegister, arg2: RiscVRegister, target: RiscVVal },
    /// `bne arg1, arg2, target`
    Bne { arg1: RiscVRegister, arg2: RiscVRegister, target: RiscVVal },
    /// `j target`
    J { target: RiscVVal },
    /// `ecall`
    ECall,
    /// Text that is carried through as it stands.
    Verbatim { text: String },
    /// `slli dest, src, imm`
    Slli { dest: RiscVRegister, src: RiscVRegister, imm: i32 },
}

/// The view of a [`RiscVInstruction`].
#[allow(inconsistent_fields)]
pub enum RiscVInstructionView {
    Addi { dest: RiscVRegister, src: RiscVRegister, imm: i32 },
    Addl { dest: RiscVRegister, src: RiscVRegister, label: RiscVValView },
    Add { width: RiscVWidth, dest: RiscVRegister, arg1: RiscVRegister, arg2: RiscVRegister },
    Sub { width: RiscVWidth, dest: RiscVRegister, arg1: RiscVRegister, arg2: RiscVRegister },
    Call { label: RiscVValView },
    S { width: RiscVWidth, src: RiscVRegister, dest: RiscVValView },
    L { width: RiscVWidth, dest: RiscVRegister, src: RiscVValView },
    Directive { name: Seq<char>, operands: Seq<char> },
    Label { name: Seq<char> },
    Lui { dest: RiscVRegister, src: RiscVValView },
    Mv { dest: RiscVRegister, src: RiscVRegister },
    Mvi { dest: RiscVRegister, imm: i32 },
    SextW { dest: RiscVRegister, src: RiscVRegister },
    Jr { target: RiscVRegister },
    Li { dest: RiscVRegister, imm: i32 },
    Ble { arg1: RiscVRegister, arg2: RiscVRegister, target: RiscVValView },
    Bge { arg1: RiscVRegister, arg2: RiscVRegister, target: RiscVValView },
    Blt { arg1: RiscVRegister, arg2: RiscVRegister, target: RiscVValView },
    Bgt { arg1: RiscVRegister, arg2: RiscVRegister, target: RiscVValView },
    Bne { arg1: RiscVRegister, arg2: RiscVRegister, target: RiscVValView },
    J { target: RiscVValView },
    ECall,
    Verbatim { text: Seq<char> },
    Slli { dest: RiscVRegister, src: RiscVRegister, imm: i32 },
}

impl View for RiscVInstruction {
    type V = RiscVInstructionView;

    open spec fn view(&self) -> RiscVInstructionView {
        match *self {
            RiscVInstruction::Addi { dest, src, imm } => RiscVInstructionView::Addi {
                dest,
                src,
                imm,
            },
            RiscVInstruction::Addl { dest, src, label } => RiscVInstructionView::Addl {
                dest,
                src,
                label: label@,
            },
            RiscVInstruction::Add { width, dest, arg1, arg2 } => RiscVInstructionView::Add {
                width,
                dest,
                arg1,
                arg2,
            },
            RiscVInstruction::Sub { width, dest, arg1, arg2 } => RiscVInstructionView::Sub {
                width,
                dest,
                arg1,
                arg2,
            },
            RiscVInstruction::Call { label } => RiscVInstructionView::Call { label: label@ },
            RiscVInstruction::S { width, src, dest } => RiscVInstructionView::S {
                width,
                src,
                dest: dest@,
            },
            RiscVInstruction::L { width, dest, src } => RiscVInstructionView::L {
                width,
                dest,
                src: src@,
            },
            RiscVInstruction::Directive { name, operands } => RiscVInstructionView::Directive {
                name: name@,
                operands: operands@,
            },
            RiscVInstruction::Label { name } => RiscVInstructionView::Label { name: name@ },
            RiscVInstruction::Lui { dest, src } => RiscVInstructionView::Lui { dest, src: src@ },
            RiscVInstruction::Mv { dest, src } => RiscVInstructionView::Mv { dest, src },
            RiscVInstruction::Mvi { dest, imm } => RiscVInstructionView::Mvi { dest, imm },
            RiscVInstruction::SextW { dest, src } => RiscVInstructionView::SextW { dest, src },
            RiscVInstruction::Jr { target } => RiscVInstructionView::Jr { target },
            RiscVInstruction::Li { dest, imm } => RiscVInstructionView::Li { dest, imm },
            RiscVInstruction::Ble { arg1, arg2, target } => RiscVInstructionView::Ble {
                arg1,
                arg2,
                target: target@,
            },
            RiscVInstruction::Bge { arg1, arg2, target } => RiscVInstructionView::Bge {
                arg1,
                arg2,
                target: target@,
            },
            RiscVInstruction::Blt { arg1, arg2, target } => RiscVInstructionView::Blt {
                arg1,
                arg2,
                target: target@,
            },
            RiscVInstruction::Bgt { arg1, arg2, target } => RiscVInstructionView::Bgt {
                arg1,
                arg2,
                target: target@,
            },
            RiscVInstruction::Bne { arg1, arg2, target } => RiscVInstructionView::Bne {
                arg1,
                arg2,
                target: target@,
            },
            RiscVInstruction::J { target } => RiscVInstructionView::J { target: target@ },
            RiscVInstruction::ECall => RiscVInstructionView::ECall,
            RiscVInstruction::Verbatim { text } => RiscVInstructionView::Verbatim { text: text@ },
            RiscVInstruction::Slli { dest, src, imm } => RiscVInstructionView::Slli {
                dest,
                src,
                imm,
            },
        }
    }
}

impl DeepView for RiscVInstruction {
    type V = RiscVInstructionView;

    open spec fn deep_view(&self) -> RiscVInstructionView {
        self@
    }
}

impl Default for RiscVInstruction {
    fn default() -> (i: Self)
        ensures
            i@ == (RiscVInstructionView::Li { dest: RiscVRegister::X0, imm: 0 }),
    {
        RiscVInstruction::Li { dest: RiscVRegister::X0, imm: 0 }
    }
}

/// Access width of an AArch64 register or memory operation.
#[derive(Debug, Clone, Copy, PartialEq, Eq, Structural)]
pub enum ArmWidth {
    Byte,
    SignedByte,
    Half,
    SignedHalf,
    Word,
    Double,
}

/// AArch64 register names.
#[derive(Debug, Clone, Copy, PartialEq, Eq, Structural)]
pub enum ArmRegisterName {
    /// The zero register.
    Zero,
    /// The program counter.
    Pc,
    /// The stack pointer.
    Sp,
    /// The link register.
    Lr,
    X0,
    X1,
    X2,
    X3,
    X4,
    X5,
    X6,
    X7,
    /// Carries the system call number at an `svc`.
    X8,
    X9,
    X10,
    X11,
    X12,
    X13,
    X14,
    X15,
    X16,
    X17,
    X18,
    X19,
    X20,
    X21,
    X22,
    X23,
    X24,
    X25,
    X26,
    X27,
    X28,
    /// The frame pointer.
    X29,
}

/// An AArch64 register at a given width.
#[derive(Debug, Clone, Copy, PartialEq, Eq, Structural)]
pub struct ArmRegister {
    pub width: ArmWidth,
    pub name: ArmRegisterName,
}

impl ArmRegister {
    /// The zero register and the program counter exist only as 32-bit and
    /// 64-bit registers; every other register admits every width.
    pub open spec fn well_formed(self) -> bool {
        (self.name == ArmRegisterName::Zero || self.name == ArmRegisterName::Pc) ==> (self.width
            == ArmWidth::Word || self.width == ArmWidth::Double)
    }

    /// Whether the register satisfies [`ArmRegister::well_formed`].
    pub fn is_well_formed(&self) -> (b: bool)
        ensures
            b == self.well_formed(),
    {
        match self.name {
            ArmRegisterName::Zero | ArmRegisterName::Pc => match self.width {
                ArmWidth::Word | ArmWidth::Double => true,
                _ => false,
            },
            _ => true,
        }
    }

    /// The register `name` at `width`, unless that pair is not well formed.
    pub fn new(width: ArmWidth, name: ArmRegisterName) -> (r: Option<ArmRegister>)
        ensures
            r == (if (ArmRegister { width, name }).well_formed() {
                Some(ArmRegister { width, name })
            } else {
                None
            }),
    {
        let reg = ArmRegister { width, name };
        if reg.is_well_formed() {
            Some(reg)
        } else {
            None
        }
    }
}

impl From<ArmRegisterName> for ArmRegister {
    /// A register named without a width is meant at 64 bits.
    fn from(name: ArmRegisterName) -> (r: ArmRegister) {
        ArmRegister { width: ArmWidth::Double, name }
    }
}

impl vstd::std_specs::convert::FromSpecImpl<ArmRegisterName> for ArmRegister {
    open spec fn obeys_from_spec() -> bool {
        true
    }

    open spec fn from_spec(name: ArmRegisterName) -> ArmRegister {
        ArmRegister { width: ArmWidth::Double, name }
    }
}

/// An operand of an AArch64 instruction. The offset of a `LabelOffset` is
/// read as in [`RiscVVal`].
#[derive(Debug, Clone, PartialEq, Eq)]
pub enum ArmVal {
    Reg(ArmRegister),
    Imm(i32),
    RegOffset(ArmRegister, i32),
    LabelOffset(String, i32),
}

/// The view of an [`ArmVal`].
pub enum ArmValView {
    Reg(ArmRegister),
    Imm(i32),
    RegOffset(ArmRegister, i32),
    LabelOffset(Seq<char>, i32),
}

impl View for ArmVal {
    type V = ArmValView;

    open spec fn view(&self) -> ArmValView {
        match *self {
            ArmVal::Reg(r) => ArmValView::Reg(r),
            ArmVal::Imm(i) => ArmValView::Imm(i),
            ArmVal::RegOffset(r, o) => ArmValView::RegOffset(r, o),
            ArmVal::LabelOffset(l, o) => ArmValView::LabelOffset(l@, o),
        }
    }
}

impl DeepView for ArmVal {
    type V = ArmValView;

    open spec fn deep_view(&self) -> ArmValView {
        self@
    }
}

/// The AArch64 instructions that lowering produces, and a few more that the
/// model names.
#[derive(Debug, Clone, PartialEq, Eq)]
#[allow(inconsistent_fields)]
pub enum ArmInstruction {
    /// Add with carry.
    Adc,
    /// `add dest, arg1, arg2`
    Add { dest: ArmRegister, arg1: ArmRegister, arg2: ArmVal },
    /// Bitwise and.
    And,
    /// `adrp dest, label`: the page address of `label`.
    Adrp { dest: ArmRegister, label: ArmVal },
    /// `b target`
    B { target: ArmVal },
    /// Compare `arg1` with `arg2` and branch to `target` if less or equal.
    Ble { arg1: ArmRegister, arg2: ArmRegister, target: ArmVal },
    /// Compare and branch if greater or equal.
    Bge { arg1: ArmRegister, arg2: ArmRegister, target: ArmVal },
    /// Compare and branch if less.
    Blt { arg1: ArmRegister, arg2: ArmRegister, target: ArmVal },
    /// Compare and branch if greater.
    Bgt { arg1: ArmRegister, arg2: ArmRegister, target: ArmVal },
    /// Compare and branch if not equal.
    Bne { arg1: ArmRegister, arg2: ArmRegister, target: ArmVal },
    /// `blr target`
    Blr { target: ArmRegisterName },
    /// `bl target`
    Bl { target: ArmVal },
    /// `name:`
    Label { name: String },
    /// `.name operands`
    Directive { name: String, operands: String },
    /// `ldr dest, src`
    Ldr { width: ArmWidth, dest: ArmRegister, src: ArmVal },
    /// `mov dest, src`
    Mov { width: ArmWidth, dest: ArmRegister, src: ArmVal },
    /// `ret`
    Ret,
    /// `str src, dest`
    Str { width: ArmWidth, src: ArmRegister, dest: ArmVal },
    /// `sub dest, arg1, arg2`
    Sub { dest: ArmRegister, arg1: ArmRegister, arg2: ArmVal },
    /// `sxtw dest, src`
    Sxtw { dest: ArmRegister, src: ArmRegister },
    /// `svc #id`
    Svc { id: u32 },
    /// Text that is carried through as it stands.
    Verbatim { text: String },
}

/// The view of an [`ArmInstruction`].
#[allow(inconsistent_fields)]
pub enum ArmInstructionView {
    Adc,
    Add { dest: ArmRegister, arg1: ArmRegister, arg2: ArmValView },
    And,
    Adrp { dest: ArmRegister, label: ArmValView },
    B { target: ArmValView },
    Ble { arg1: ArmRegister, arg2: ArmRegister, target: ArmValView },
    Bge { arg1: ArmRegister, arg2: ArmRegister, target: ArmValView },
    Blt { arg1: ArmRegister, arg2: ArmRegister, target: ArmValView },
    Bgt { arg1: ArmRegister, arg2: ArmRegister, target: ArmValView },
    Bne { arg1: ArmRegister, arg2: ArmRegister, target: ArmValView },
    Blr { target: ArmRegisterName },
    Bl { target: ArmValView },
    Label { name: Seq<char> },
    Directive { name: Seq<char>, operands: Seq<char> },
    Ldr { width: ArmWidth, dest: ArmRegister, src: ArmValView },
    Mov { width: ArmWidth, dest: ArmRegister, src: ArmValView },
    Ret,
    Str { width: ArmWidth, src: ArmRegister, dest: ArmValView },
    Sub { dest: ArmRegister, arg1: ArmRegister, arg2: ArmValView },
    Sxtw { dest: ArmRegister, src: ArmRegister },
    Svc { id: u32 },
    Verbatim { text: Seq<char> },
}

impl View for ArmInstruction {
    type V = ArmInstructionView;

    open spec fn view(&self) -> ArmInstructionView {
        match *self {
            ArmInstruction::Adc => ArmInstructionView::Adc,
            ArmInstruction::Add { dest, arg1, arg2 } => ArmInstructionView::Add {
                dest,
                arg1,
                arg2: arg2@,
            },
            ArmInstruction::And => ArmInstructionView::And,
            ArmInstruction::Adrp { dest, label } => ArmInstructionView::Adrp {
                dest,
                label: label@,
            },
            ArmInstruction::B { target } => ArmInstructionView::B { target: target@ },
            ArmInstruction::Ble { arg1, arg2, target } => ArmInstructionView::Ble {
                arg1,
                arg2,
                target: target@,
            },
            ArmInstruction::Bge { arg1, arg2, target } => ArmInstructionView::Bge {
                arg1,
                arg2,
                target: target@,
            },
            ArmInstruction::Blt { arg1, arg2, target } => ArmInstructionView::Blt {
                arg1,
                arg2,
                target: target@,
            },
            ArmInstruction::Bgt { arg1, arg2, target } => ArmInstructionView::Bgt {
                arg1,
                arg2,
                target: target@,
            },
            ArmInstruction::Bne { arg1, arg2, target } => ArmInstructionView::Bne {
                arg1,
                arg2,
                target: target@,
            },
            ArmInstruction::Blr { target } => ArmInstructionView::Blr { target },
            ArmInstruction::Bl { target } => ArmInstructionView::Bl { target: target@ },
            ArmInstruction::Label { name } => ArmInstructionView::Label { name: name@ },
            ArmInstruction::Directive { name, operands } => ArmInstructionView::Directive {
                name: name@,
                operands: operands@,
            },
            ArmInstruction::Ldr { width, dest, src } => ArmInstructionView::Ldr {
                width,
                dest,
                src: src@,
            },
            ArmInstruction::Mov { width, dest, src } => ArmInstructionView::Mov {
                width,
                dest,
                src: src@,
            },
            ArmInstruction::Ret => ArmInstructionView::Ret,
            ArmInstruction::Str { width, src, dest } => ArmInstructionView::Str {
                width,
                src,
                dest: dest@,
            },
            ArmInstruction::Sub { dest, arg1, arg2 } => ArmInstructionView::Sub {
                dest,
                arg1,
                arg2: arg2@,
            },
            ArmInstruction::Sxtw { dest, src } => ArmInstructionView::Sxtw { dest, src },
            ArmInstruction::Svc { id } => ArmInstructionView::Svc { id },
            ArmInstruction::Verbatim { text } => ArmInstructionView::Verbatim { text: text@ },
        }
    }
}

impl DeepView for ArmInstruction {
    type V = ArmInstructionView;

    open spec fn deep_view(&self) -> ArmInstructionView {
        self@
    }
}

} // verus!
