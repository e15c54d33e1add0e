//! Rendering of AArch64 instructions as assembly text.
//!
//! Rendering keeps the order of the instructions and writes one line for
//! each, two for a conditional branch, which compares before it branches.
//! What has no text is refused, never written as something else: a register
//! at a width at which it has no name, an instruction without its operands.
use crate::instruction::{
    ArmInstruction, ArmInstructionView, ArmRegister, ArmRegisterName, ArmVal, ArmValView,
    ArmWidth, RELOC_HI, RELOC_LO,
};
use crate::number::{decimal, decimal_digits, push_decimal, push_decimal_digits};
use crate::text::{opt_text, push_all, push_str, string_of};
use vstd::prelude::*;

verus! {

/// Why an instruction has no text.
#[derive(Debug, Clone, Copy, PartialEq, Eq, Structural)]
pub enum RenderError {
    /// An operand names a register at a width at which it has no name.
    InvalidRegister,
    /// The instruction has no text: it lacks its operands, or it is a load
    /// or a store of less than 32 bits.
    Unsupported,
}

/// The number of a general register, `x0` to `x29`; the special registers
/// have none.
pub open spec fn register_number(name: ArmRegisterName) -> Option<nat> {
    match name {
        ArmRegisterName::X0 => Some(0nat),
        ArmRegisterName::X1 => Some(1nat),
        ArmRegisterName::X2 => Some(2nat),
        ArmRegisterName::X3 => Some(3nat),
        ArmRegisterName::X4 => Some(4nat),
        ArmRegisterName::X5 => Some(5nat),
        ArmRegisterName::X6 => Some(6nat),
        ArmRegisterName::X7 => Some(7nat),
        ArmRegisterName::X8 => Some(8nat),
        ArmRegisterName::X9 => Some(9nat),
        ArmRegisterName::X10 => Some(10nat),
        ArmRegisterName::X11 => Some(11nat),
        ArmRegisterName::X12 => Some(12nat),
        ArmRegisterName::X13 => Some(13nat),
        ArmRegisterName::X14 => Some(14nat),
        ArmRegisterName::X15 => Some(15nat),
        ArmRegisterName::X16 => Some(16nat),
        ArmRegisterName::X17 => Some(17nat),
        ArmRegisterName::X18 => Some(18nat),
        ArmRegisterName::X19 => Some(19nat),
        ArmRegisterName::X20 => Some(20nat),
        ArmRegisterName::X21 => Some(21nat),
        ArmRegisterName::X22 => Some(22nat),
        ArmRegisterName::X23 => Some(23nat),
        ArmRegisterName::X24 => Some(24nat),
        ArmRegisterName::X25 => Some(25nat),
        ArmRegisterName::X26 => Some(26nat),
        ArmRegisterName::X27 => Some(27nat),
        ArmRegisterName::X28 => Some(28nat),
        ArmRegisterName::X29 => Some(29nat),
        _ => None,
    }
}

fn register_number_of(name: ArmRegisterName) -> (r: Option<u64>)
    ensures
        match r {
            Some(n) => register_number(name) == Some(n as nat),
            None => register_number(name) is None,
        },
{
    match name {
        ArmRegisterName::X0 => Some(0),
        ArmRegisterName::X1 => Some(1),
        ArmRegisterName::X2 => Some(2),
        ArmRegisterName::X3 => Some(3),
        ArmRegisterName::X4 => Some(4),
        ArmRegisterName::X5 => Some(5),
        ArmRegisterName::X6 => Some(6),
        ArmRegisterName::X7 => Some(7),
        ArmRegisterName::X8 => Some(8),
        ArmRegisterName::X9 => Some(9),
        ArmRegisterName::X10 => Some(10),
        ArmRegisterName::X11 => Some(11),
        ArmRegisterName::X12 => Some(12),
        ArmRegisterName::X13 => Some(13),
        ArmRegisterName::X14 => Some(14),
        ArmRegisterName::X15 => Some(15),
        ArmRegisterName::X16 => Some(16),
        ArmRegisterName::X17 => Some(17),
        ArmRegisterName::X18 => Some(18),
        ArmRegisterName::X19 => Some(19),
        ArmRegisterName::X20 => Some(20),
        ArmRegisterName::X21 => Some(21),
        ArmRegisterName::X22 => Some(22),
        ArmRegisterName::X23 => Some(23),
        ArmRegisterName::X24 => Some(24),
        ArmRegisterName::X25 => Some(25),
        ArmRegisterName::X26 => Some(26),
        ArmRegisterName::X27 => Some(27),
        ArmRegisterName::X28 => Some(28),
        ArmRegisterName::X29 => Some(29),
        _ => None,
    }
}

/// The name of a register at its width.
///
/// A general register `n` is `wn` at 32 bits and `xn` at 64. The zero
/// register is `wzr` and `xzr`, the stack pointer `wsp` and `sp`, the link
/// register `w30` and `lr`; the program counter is `pc` at 64 bits. No
/// register has a name at a width below 32 bits.
pub open spec fn render_register_spec(reg: ArmRegister) -> Option<Seq<char>> {
    match reg.width {
        ArmWidth::Word => match reg.name {
            ArmRegisterName::Zero => Some("wzr"@),
            ArmRegisterName::Sp => Some("wsp"@),
            ArmRegisterName::Lr => Some("w30"@),
            ArmRegisterName::Pc => None,
            _ => Some("w"@ + decimal_digits(register_number(reg.name)->Some_0)),
        },
        ArmWidth::Double => match reg.name {
            ArmRegisterName::Zero => Some("xzr"@),
            ArmRegisterName::Sp => Some("sp"@),
            ArmRegisterName::Lr => Some("lr"@),
            ArmRegisterName::Pc => Some("pc"@),
            _ => Some("x"@ + decimal_digits(register_number(reg.name)->Some_0)),
        },
        _ => None,
    }
}

/// The text of an operand.
///
/// An immediate is written in decimal. A register with an offset is
/// written in brackets, and the register at 64 bits, since it holds an
/// address; a register that has no name at its own width has no text here
/// either. A label is written as its name where its offset is zero or
/// marks the high part, after `:lo12:` where the offset marks the low part,
/// and in brackets with the offset otherwise.
pub open spec fn render_val_spec(val: ArmValView) -> Option<Seq<char>> {
    match val {
        ArmValView::Reg(reg) => render_register_spec(reg),
        ArmValView::Imm(imm) => Some(decimal(imm as int)),
        ArmValView::RegOffset(reg, offset) => match render_register_spec(
            ArmRegister { width: ArmWidth::Double, name: reg.name },
        ) {
            Some(base) => if render_register_spec(reg) is Some {
                Some("["@ + base + ", "@ + decimal(offset as int) + "]"@)
            } else {
                None
            },
            None => None,
        },
        ArmValView::LabelOffset(name, offset) => if offset == 0 || offset == RELOC_HI {
            Some(name)
        } else if offset == RELOC_LO {
            Some(":lo12:"@ + name)
        } else {
            Some("["@ + name + ", "@ + decimal(offset as int) + "]"@)
        },
    }
}

/// Two operands with a comma between them.
pub open spec fn operands2(a: Option<Seq<char>>, b: Option<Seq<char>>) -> Option<Seq<char>> {
    if a is Some && b is Some {
        Some(a->Some_0 + ", "@ + b->Some_0)
    } else {
        None
    }
}

/// Three operands with commas between them.
pub open spec fn operands3(
    a: Option<Seq<char>>,
    b: Option<Seq<char>>,
    c: Option<Seq<char>>,
) -> Option<Seq<char>> {
    if a is Some && b is Some && c is Some {
        Some(a->Some_0 + ", "@ + b->Some_0 + ", "@ + c->Some_0)
    } else {
        None
    }
}

/// A mnemonic and its operands on one line.
pub open spec fn line_of(mnemonic: Seq<char>, operands: Option<Seq<char>>) -> Result<
    Seq<char>,
    RenderError,
> {
    match operands {
        Some(text) => Ok(mnemonic + " "@ + text),
        None => Err(RenderError::InvalidRegister),
    }
}

/// A conditional branch: the comparison of its two registers on one line
/// and the branch on the condition `mnemonic` on the next.
pub open spec fn branch_lines(
    mnemonic: Seq<char>,
    arg1: ArmRegister,
    arg2: ArmRegister,
    target: ArmValView,
) -> Result<Seq<char>, RenderError> {
    let compared = operands2(render_register_spec(arg1), render_register_spec(arg2));
    let to = render_val_spec(target);
    if compared is Some && to is Some {
        Ok("cmp "@ + compared->Some_0 + "\n"@ + mnemonic + " "@ + to->Some_0)
    } else {
        Err(RenderError::InvalidRegister)
    }
}

/// Whether a load or a store of `width` has a text: those of 32 and of 64
/// bits have.
pub open spec fn is_full_width(width: ArmWidth) -> bool {
    width == ArmWidth::Word || width == ArmWidth::Double
}

/// The text of an instruction.
pub open spec fn render_instruction_spec(instr: ArmInstructionView) -> Result<
    Seq<char>,
    RenderError,
> {
    match instr {
        ArmInstructionView::Adc => Err(RenderError::Unsupported),
        ArmInstructionView::Add { dest, arg1, arg2 } => line_of(
            "add"@,
            operands3(
                render_register_spec(dest),
                render_register_spec(arg1),
                render_val_spec(arg2),
            ),
        ),
        ArmInstructionView::And => Err(RenderError::Unsupported),
        ArmInstructionView::Adrp { dest, label } => line_of(
            "adrp"@,
            operands2(render_register_spec(dest), render_val_spec(label)),
        ),
        ArmInstructionView::B { target } => line_of("b"@, render_val_spec(target)),
        ArmInstructionView::Ble { arg1, arg2, target } => branch_lines("ble"@, arg1, arg2, target),
        ArmInstructionView::Bge { arg1, arg2, target } => branch_lines("bge"@, arg1, arg2, target),
        ArmInstructionView::Blt { arg1, arg2, target } => branch_lines("blt"@, arg1, arg2, target),
        ArmInstructionView::Bgt { arg1, arg2, target } => branch_lines("bgt"@, arg1, arg2, target),
        ArmInstructionView::Bne { arg1, arg2, target } => branch_lines("bne"@, arg1, arg2, target),
        ArmInstructionView::Blr { target } => line_of(
            "blr"@,
            render_register_spec(ArmRegister { width: ArmWidth::Double, name: target }),
        ),
        ArmInstructionView::Bl { target } => line_of("bl"@, render_val_spec(target)),
        ArmInstructionView::Label { name } => Ok(name + ":"@),
        ArmInstructionView::Directive { name, operands } => Ok("."@ + name + " "@ + operands),
        ArmInstructionView::Ldr { width, dest, src } => if is_full_width(width) {
            line_of("ldr"@, operands2(render_register_spec(dest), render_val_spec(src)))
        } else {
            Err(RenderError::Unsupported)
        },
        ArmInstructionView::Mov { width, dest, src } => line_of(
            "mov"@,
            operands2(render_register_spec(dest), render_val_spec(src)),
        ),
        ArmInstructionView::Ret => Ok("ret"@),
        ArmInstructionView::Str { width, src, dest } => if is_full_width(width) {
            line_of("str"@, operands2(render_register_spec(src), render_val_spec(dest)))
        } else {
            Err(RenderError::Unsupported)
        },
        ArmInstructionView::Sub { dest, arg1, arg2 } => line_of(
            "sub"@,
            operands3(
                render_register_spec(dest),
                render_register_spec(arg1),
                render_val_spec(arg2),
            ),
        ),
        ArmInstructionView::Sxtw { dest, src } => line_of(
            "sxtw"@,
            operands2(render_register_spec(dest), render_register_spec(src)),
        ),
        ArmInstructionView::Svc { id } => Ok("svc #"@ + decimal(id as int)),
        ArmInstructionView::Verbatim { text } => Ok(text),
    }
}

/// The text of a program: the text of each instruction, in order, each
/// followed by a line feed; or the error of the first instruction that has
/// no text.
pub open spec fn render_program_spec(instrs: Seq<ArmInstructionView>) -> Result<
    Seq<char>,
    RenderError,
>
    decreases instrs.len(),
{
    if instrs.len() == 0 {
        Ok(Seq::empty())
    } else {
        match render_program_spec(instrs.drop_last()) {
            Err(e) => Err(e),
            Ok(before) => match render_instruction_spec(instrs.last()) {
                Err(e) => Err(e),
                Ok(text) => Ok(before + text + "\n"@),
            },
        }
    }
}

/// The view of a text that may be absent.
pub open spec fn opt_chars(o: Option<Vec<char>>) -> Option<Seq<char>> {
    match o {
        Some(v) => Some(v@),
        None => None,
    }
}

/// The view of a text or an error.
pub open spec fn chars_or_error(r: Result<Vec<char>, RenderError>) -> Result<
    Seq<char>,
    RenderError,
> {
    match r {
        Ok(v) => Ok(v@),
        Err(e) => Err(e),
    }
}

/// The view of a rendered text or an error.
pub open spec fn rendered_view(r: Result<String, RenderError>) -> Result<Seq<char>, RenderError> {
    match r {
        Ok(s) => Ok(s@),
        Err(e) => Err(e),
    }
}

fn literal(text: &str) -> (r: Vec<char>)
    ensures
        r@ == text@,
{
    let mut out: Vec<char> = Vec::new();
    push_str(&mut out, text);
    assert(Seq::<char>::empty() + text@ =~= text@);
    out
}

fn register_text(reg: &ArmRegister) -> (r: Option<Vec<char>>)
    ensures
        opt_chars(r) == render_register_spec(*reg),
{
    match reg.width {
        ArmWidth::Word => match reg.name {
            ArmRegisterName::Zero => Some(literal("wzr")),
            ArmRegisterName::Sp => Some(literal("wsp")),
            ArmRegisterName::Lr => Some(literal("w30")),
            ArmRegisterName::Pc => None,
            _ => {
                let mut out = literal("w");
                match register_number_of(reg.name) {
                    Some(n) => {
                        push_decimal_digits(&mut out, n);
                        Some(out)
                    },
                    None => None,
                }
            },
        },
        ArmWidth::Double => match reg.name {
            ArmRegisterName::Zero => Some(literal("xzr")),
            ArmRegisterName::Sp => Some(literal("sp")),
            ArmRegisterName::Lr => Some(literal("lr")),
            ArmRegisterName::Pc => Some(literal("pc")),
            _ => {
                let mut out = literal("x");
                match register_number_of(reg.name) {
                    Some(n) => {
                        push_decimal_digits(&mut out, n);
                        Some(out)
                    },
                    None => None,
                }
            },
        },
        _ => None,
    }
}

fn bracketed(inner: &Vec<char>, offset: i32) -> (r: Vec<char>)
    ensures
        r@ == "["@ + inner@ + ", "@ + decimal(offset as int) + "]"@,
{
    let mut out = literal("[");
    push_all(&mut out, inner);
    push_str(&mut out, ", ");
    push_decimal(&mut out, offset as i64);
    push_str(&mut out, "]");
    out
}

fn val_text(val: &ArmVal) -> (r: Option<Vec<char>>)
    ensures
        opt_chars(r) == render_val_spec(val@),
{
    match val {
        ArmVal::Reg(reg) => register_text(reg),
        ArmVal::Imm(imm) => {
            let mut out: Vec<char> = Vec::new();
            push_decimal(&mut out, *imm as i64);
            assert(Seq::<char>::empty() + decimal(*imm as int) =~= decimal(*imm as int));
            Some(out)
        },
        ArmVal::RegOffset(reg, offset) => {
            let base = ArmRegister { width: ArmWidth::Double, name: reg.name };
            match (register_text(&base), register_text(reg)) {
                (Some(text), Some(_)) => Some(bracketed(&text, *offset)),
                _ => None,
            }
        },
        ArmVal::LabelOffset(name, offset) => {
            if *offset == 0 || *offset == RELOC_HI {
                Some(literal(name.as_str()))
            } else if *offset == RELOC_LO {
                let mut out = literal(":lo12:");
                push_str(&mut out, name.as_str());
                Some(out)
            } else {
                let label = literal(name.as_str());
                Some(bracketed(&label, *offset))
            }
        },
    }
}

fn join2(a: Option<Vec<char>>, b: Option<Vec<char>>) -> (r: Option<Vec<char>>)
    ensures
        opt_chars(r) == operands2(opt_chars(a), opt_chars(b)),
{
    match (a, b) {
        (Some(mut out), Some(second)) => {
            push_str(&mut out, ", ");
            push_all(&mut out, &second);
            Some(out)
        },
        _ => None,
    }
}

fn join3(a: Option<Vec<char>>, b: Option<Vec<char>>, c: Option<Vec<char>>) -> (r: Option<
    Vec<char>,
>)
    ensures
        opt_chars(r) == operands3(opt_chars(a), opt_chars(b), opt_chars(c)),
{
    match (a, b, c) {
        (Some(mut out), Some(second), Some(third)) => {
            push_str(&mut out, ", ");
            push_all(&mut out, &second);
            push_str(&mut out, ", ");
            push_all(&mut out, &third);
            Some(out)
        },
        _ => None,
    }
}

fn line(mnemonic: &str, operands: Option<Vec<char>>) -> (r: Result<Vec<char>, RenderError>)
    ensures
        chars_or_error(r) == line_of(mnemonic@, opt_chars(operands)),
{
    match operands {
        Some(text) => {
            let mut out = literal(mnemonic);
            push_str(&mut out, " ");
            push_all(&mut out, &text);
            Ok(out)
        },
        None => Err(RenderError::InvalidRegister),
    }
}

fn branch(mnemonic: &str, arg1: &ArmRegister, arg2: &ArmRegister, target: &ArmVal) -> (r: Result<
    Vec<char>,
    RenderError,
>)
    ensures
        chars_or_error(r) == branch_lines(mnemonic@, *arg1, *arg2, target@),
{
    let compared = join2(register_text(arg1), register_text(arg2));
    let to = val_text(target);
    match (compared, to) {
        (Some(compared), Some(to)) => {
            let mut out = literal("cmp ");
            push_all(&mut out, &compared);
            push_str(&mut out, "\n");
            push_str(&mut out, mnemonic);
            push_str(&mut out, " ");
            push_all(&mut out, &to);
            Ok(out)
        },
        _ => Err(RenderError::InvalidRegister),
    }
}

fn is_full(width: &ArmWidth) -> (b: bool)
    ensures
        b == is_full_width(*width),
{
    match width {
        ArmWidth::Word | ArmWidth::Double => true,
        _ => false,
    }
}

fn instruction_text(instr: &ArmInstruction) -> (r: Result<Vec<char>, RenderError>)
    ensures
        chars_or_error(r) == render_instruction_spec(instr@),
{
    match instr {
        ArmInstruction::Adc => Err(RenderError::Unsupported),
        ArmInstruction::Add { dest, arg1, arg2 } => line(
            "add",
            join3(register_text(dest), register_text(arg1), val_text(arg2)),
        ),
        ArmInstruction::And => Err(RenderError::Unsupported),
        ArmInstruction::Adrp { dest, label } => line(
            "adrp",
            join2(register_text(dest), val_text(label)),
        ),
        ArmInstruction::B { target } => line("b", val_text(target)),
        ArmInstruction::Ble { arg1, arg2, target } => branch("ble", arg1, arg2, target),
        ArmInstruction::Bge { arg1, arg2, target } => branch("bge", arg1, arg2, target),
        ArmInstruction::Blt { arg1, arg2, target } => branch("blt", arg1, arg2, target),
        ArmInstruction::Bgt { arg1, arg2, target } => branch("bgt", arg1, arg2, target),
        ArmInstruction::Bne { arg1, arg2, target } => branch("bne", arg1, arg2, target),
        ArmInstruction::Blr { target } => {
            let reg = ArmRegister::from(*target);
            line("blr", register_text(&reg))
        },
        ArmInstruction::Bl { target } => line("bl", val_text(target)),
        ArmInstruction::Label { name } => {
            let mut out = literal(name.as_str());
            push_str(&mut out, ":");
            Ok(out)
        },
        ArmInstruction::Directive { name, operands } => {
            let mut out = literal(".");
            push_str(&mut out, name.as_str());
            push_str(&mut out, " ");
            push_str(&mut out, operands.as_str());
            Ok(out)
        },
        ArmInstruction::Ldr { width, dest, src } => {
            if is_full(width) {
                line("ldr", join2(register_text(dest), val_text(src)))
            } else {
                Err(RenderError::Unsupported)
            }
        },
        ArmInstruction::Mov { width, dest, src } => line(
            "mov",
            join2(register_text(dest), val_text(src)),
        ),
        ArmInstruction::Ret => Ok(literal("ret")),
        ArmInstruction::Str { width, src, dest } => {
            if is_full(width) {
                line("str", join2(register_text(src), val_text(dest)))
            } else {
                Err(RenderError::Unsupported)
            }
        },
        ArmInstruction::Sub { dest, arg1, arg2 } => line(
            "sub",
            join3(register_text(dest), register_text(arg1), val_text(arg2)),
        ),
        ArmInstruction::Sxtw { dest, src } => line(
            "sxtw",
            join2(register_text(dest), register_text(src)),
        ),
        ArmInstruction::Svc { id } => {
            let mut out = literal("svc #");
            push_decimal(&mut out, *id as i64);
            Ok(out)
        },
        ArmInstruction::Verbatim { text } => Ok(literal(text.as_str())),
    }
}

/// The name of `reg` at its width.
pub fn render_register(reg: &ArmRegister) -> (r: Option<String>)
    ensures
        opt_text(r) == render_register_spec(*reg),
{
    match register_text(reg) {
        Some(text) => Some(string_of(&text)),
        None => None,
    }
}

/// The text of the operand `val`.
pub fn render_val(val: &ArmVal) -> (r: Option<String>)
    ensures
        opt_text(r) == render_val_spec(val@),
{
    match val_text(val) {
        Some(text) => Some(string_of(&text)),
        None => None,
    }
}

/// The text of the instruction `instr`.
pub fn render_instruction(instr: &ArmInstruction) -> (r: Result<String, RenderError>)
    ensures
        rendered_view(r) == render_instruction_spec(instr@),
{
    match instruction_text(instr) {
        Ok(text) => Ok(string_of(&text)),
        Err(e) => Err(e),
    }
}

/// The text of the program `instrs`: one instruction after the other, each
/// followed by a line feed.
pub fn render_program(instrs: &Vec<ArmInstruction>) -> (r: Result<String, RenderError>)
    ensures
        rendered_view(r) == render_program_spec(instrs.deep_view()),
{
    let ghost all = instrs.deep_view();
    let mut out: Vec<char> = Vec::new();
    let mut i: usize = 0;
    assert(all.take(0) =~= Seq::<ArmInstructionView>::empty());
    while i < instrs.len()
        invariant
            i <= instrs.len(),
            all == instrs.deep_view(),
            render_program_spec(all.take(i as int)) == Ok::<Seq<char>, RenderError>(out@),
        decreases instrs.len() - i,
    {
        assert(all.take(i + 1).drop_last() =~= all.take(i as int));
        assert(all.take(i + 1).last() == instrs@[i as int]@);
        match instruction_text(&instrs[i]) {
            Ok(text) => {
                push_all(&mut out, &text);
                push_str(&mut out, "\n");
            },
            Err(e) => {
                proof {
                    lemma_render_failure_persists(all, i + 1);
                }
                return Err(e);
            },
        }
        i += 1;
    }
    assert(all.take(all.len() as int) =~= all);
    Ok(string_of(&out))
}

/// Once a prefix of a program has no text, the program has none, and for
/// the same reason.
pub proof fn lemma_render_failure_persists(instrs: Seq<ArmInstructionView>, n: int)
    requires
        0 <= n <= instrs.len(),
        render_program_spec(instrs.take(n)) is Err,
    ensures
        render_program_spec(instrs) == render_program_spec(instrs.take(n)),
    decreases instrs.len() - n,
{
    if n == instrs.len() {
        assert(instrs.take(n) =~= instrs);
    } else {
        assert(instrs.take(n + 1).drop_last() =~= instrs.take(n));
        lemma_render_failure_persists(instrs, n + 1);
    }
}

/// Rendering keeps program order and leaves nothing out: the text of two
/// programs one after the other is the text of the first followed by the
/// text of the second.
pub proof fn lemma_render_in_order(a: Seq<ArmInstructionView>, b: Seq<ArmInstructionView>)
    ensures
        render_program_spec(a + b) == (match render_program_spec(a) {
            Err(e) => Err(e),
            Ok(first) => match render_program_spec(b) {
                Err(e) => Err(e),
                Ok(second) => Ok(first + second),
            },
        }),
    decreases b.len(),
{
    if b.len() == 0 {
        assert(a + b =~= a);
        if let Ok(first) = render_program_spec(a) {
            assert(first + Seq::<char>::empty() =~= first);
        }
    } else {
        assert((a + b).drop_last() =~= a + b.drop_last());
        assert((a + b).last() == b.last());
        lemma_render_in_order(a, b.drop_last());
        if let Ok(first) = render_program_spec(a) {
            if let Ok(mid) = render_program_spec(b.drop_last()) {
                if let Ok(last) = render_instruction_spec(b.last()) {
                    assert(first + mid + last + "\n"@ =~= first + (mid + last + "\n"@));
                }
            }
        }
    }
}

/// A register has a name only if it is well formed.
pub proof fn lemma_rendered_register_is_well_formed(reg: ArmRegister)
    requires
        render_register_spec(reg) is Some,
    ensures
        reg.well_formed(),
{
}

} // verus!
