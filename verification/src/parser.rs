//! Parsing of RISC-V assembly text into the instruction model.
//!
//! Two forms of text are read: the output of a disassembler, with an address
//! before each instruction and a line for each symbol
//! ([`parse_objdump`]), and plain assembly with one instruction to a line
//! ([`parse_asm`]). Both read operands the same way
//! ([`parse_instruction`]).
use crate::instruction::{
    RiscVInstruction, RiscVInstructionView, RiscVRegister, RiscVVal, RiscVValView, RiscVWidth,
    RELOC_HI, RELOC_LO,
};
use crate::number::{
    bits_of, hex_digits, lemma_leading_zeros, parse_i32, parse_int, parse_u64, parse_unsigned,
    push_hex, zeros,
};
use crate::pattern::{
    group, group_of, group_or_default, group_or_empty, groups_view, regex_captures, regex_groups,
};
use crate::text::{
    after_first_word, chars_of, contains_str, drop_trailing, drop_trailing_of, find_char,
    first_word, has_char, has_infix, index_of, is_str, lines_of, opt_text, push_str,
    slice_of, split_fields, split_first_word, split_lines, split_on, starts_with_str, string_of,
    texts, trim, trim_of, CharClass,
};
use std::collections::HashMap;
use vstd::prelude::*;

verus! {

/// The regular expression for a symbol's definition: the name between `<`
/// and `>:`.
pub open spec fn label_definition_pattern() -> Seq<char> {
    r"<([^>]+)>:"@
}

/// The regular expression for a reference to a symbol: the name between
/// `<` and `>`.
pub open spec fn label_reference_pattern() -> Seq<char> {
    r"<([^>]+)>"@
}

/// The regular expression for a line with an instruction: an address in
/// hexadecimal, a colon, the mnemonic, and what follows it.
pub open spec fn instruction_line_pattern() -> Seq<char> {
    r"^\s*([0-9a-f]+):\s+([a-z.]+)(?:\s+(.*))?$"@
}

/// The regular expression for the target of a branch: an address in
/// hexadecimal and, where the disassembler knew it, the symbol at that
/// address between `<` and `>`.
pub open spec fn branch_target_pattern() -> Seq<char> {
    r"([0-9a-f]+)(?:\s+<([^>]+)>)?"@
}

/// The regular expression for a memory operand: an offset, which may be
/// left out, and a register in parentheses.
pub open spec fn memory_operand_pattern() -> Seq<char> {
    r"(-?\d+)?\(([a-z0-9]+)\)"@
}

/// The label table: the symbol defined at each address. An address is
/// held as the number it denotes, so that it is found again however many
/// zeros were written before it.
pub struct LabelTable {
    names: HashMap<u64, String>,
}

impl View for LabelTable {
    type V = Map<u64, Seq<char>>;

    closed spec fn view(&self) -> Map<u64, Seq<char>> {
        Map::new(|addr: u64| self.names@.contains_key(addr), |addr: u64| self.names@[addr]@)
    }
}

impl LabelTable {
    /// The table without any symbol.
    pub fn new() -> (t: LabelTable)
        ensures
            t@ == Map::<u64, Seq<char>>::empty(),
    {
        let t = LabelTable { names: HashMap::new() };
        assert(t@ =~= Map::<u64, Seq<char>>::empty());
        t
    }

    /// Records that `name` is defined at `addr`, in place of what was
    /// defined there before.
    pub fn insert(&mut self, addr: u64, name: String)
        ensures
            final(self)@ == old(self)@.insert(addr, name@),
    {
        let ghost before = self@;
        self.names.insert(addr, name);
        assert(self@ =~= before.insert(addr, name@));
    }

    /// The symbol defined at `addr`.
    pub fn get(&self, addr: u64) -> (r: Option<String>)
        ensures
            opt_text(r) == (if self@.contains_key(addr) {
                Some(self@[addr])
            } else {
                None
            }),
    {
        match self.names.get(&addr) {
            Some(name) => Some(name.clone()),
            None => None,
        }
    }
}

/// Whether `line` has the marks of a symbol's definition: a `<` and a `>:`.
pub open spec fn is_label_line(line: Seq<char>) -> bool {
    line.contains('<') && has_infix(line, ">:"@)
}

/// The name in a symbol's definition, as the search for
/// [`label_definition_pattern`] gives it.
pub open spec fn label_name_spec(line: Seq<char>) -> Option<Seq<char>> {
    group_of(regex_groups(label_definition_pattern(), line), 1)
}

/// The name in a reference to a symbol, as the search for
/// [`label_reference_pattern`] gives it.
pub open spec fn comment_label_spec(comment: Seq<char>) -> Option<Seq<char>> {
    group_of(regex_groups(label_reference_pattern(), comment), 1)
}

/// The address at the start of a line: its first word without the colons
/// at its end.
pub open spec fn address_spec(line: Seq<char>) -> Seq<char> {
    drop_trailing(first_word(line), CharClass::Is(':'))
}

/// The number that an address denotes: the address is written in
/// hexadecimal, with or without zeros before it. A text that is no such
/// number, or no `u64`, denotes no address.
pub open spec fn address_value(text: Seq<char>) -> Option<u64> {
    parse_unsigned(text, 16)
}

/// Address, mnemonic and operands of a line with an instruction, from the
/// groups of the search for [`instruction_line_pattern`]; a part that the
/// line lacks is empty.
pub open spec fn instruction_line_from_spec(groups: Option<Seq<Option<Seq<char>>>>) -> Option<
    (Seq<char>, Seq<char>, Seq<char>),
> {
    match groups {
        Some(_) => Some(
            (group_or_empty(groups, 1), group_or_empty(groups, 2), group_or_empty(groups, 3)),
        ),
        None => None,
    }
}

/// Address, mnemonic and operands of a line with an instruction.
pub open spec fn instruction_line_spec(line: Seq<char>) -> Option<
    (Seq<char>, Seq<char>, Seq<char>),
> {
    instruction_line_from_spec(regex_groups(instruction_line_pattern(), line))
}

/// The view of the three parts of a line with an instruction.
pub open spec fn parts_view(parts: Option<(String, String, String)>) -> Option<
    (Seq<char>, Seq<char>, Seq<char>),
> {
    match parts {
        Some((a, b, c)) => Some((a@, b@, c@)),
        None => None,
    }
}

/// The name of the symbol that `line` defines, if it has the form of a
/// definition.
pub fn extract_label_name(line: &str) -> (r: Option<String>)
    ensures
        opt_text(r) == label_name_spec(line@),
{
    let groups = regex_captures(r"<([^>]+)>:", line);
    group(&groups, 1)
}

/// The name of the symbol that `comment` refers to, if it refers to one.
pub fn extract_label_from_comment(comment: &str) -> (r: Option<String>)
    ensures
        opt_text(r) == comment_label_spec(comment@),
{
    let groups = regex_captures(r"<([^>]+)>", comment);
    group(&groups, 1)
}

/// The address at the start of `line`.
pub fn extract_address(line: &str) -> (r: String)
    ensures
        r@ == address_spec(line@),
{
    let chars = chars_of(line);
    let (word, _) = split_first_word(&chars);
    let addr = drop_trailing_of(&word, CharClass::Is(':'));
    string_of(&addr)
}

/// The number that the address `text` denotes.
pub fn parse_address(text: &str) -> (r: Option<u64>)
    ensures
        r == address_value(text@),
{
    let digits = chars_of(text);
    parse_u64(&digits, 16)
}

/// Address, mnemonic and operands from the groups of a search for
/// [`instruction_line_pattern`].
pub fn instruction_line_from(groups: &Option<Vec<Option<String>>>) -> (r: Option<
    (String, String, String),
>)
    ensures
        parts_view(r) == instruction_line_from_spec(groups_view(*groups)),
{
    match groups {
        Some(_) => Some(
            (group_or_default(groups, 1), group_or_default(groups, 2), group_or_default(groups, 3)),
        ),
        None => None,
    }
}

/// Address, mnemonic and operands of `line`, if it holds an instruction.
pub fn parse_instruction_line(line: &str) -> (r: Option<(String, String, String)>)
    ensures
        parts_view(r) == instruction_line_spec(line@),
{
    let groups = regex_captures(r"^\s*([0-9a-f]+):\s+([a-z.]+)(?:\s+(.*))?$", line);
    instruction_line_from(&groups)
}

/// The register of the given name: an ABI name (`a0`, `zero`, `fp`) or a
/// numeric name (`x10`).
pub open spec fn register_named(name: Seq<char>) -> Option<RiscVRegister> {
    if name == "x0"@ || name == "zero"@ {
        Some(RiscVRegister::X0)
    } else if name == "ra"@ || name == "x1"@ {
        Some(RiscVRegister::RA)
    } else if name == "sp"@ || name == "x2"@ {
        Some(RiscVRegister::SP)
    } else if name == "gp"@ || name == "x3"@ {
        Some(RiscVRegister::GP)
    } else if name == "tp"@ || name == "x4"@ {
        Some(RiscVRegister::TP)
    } else if name == "t0"@ || name == "x5"@ {
        Some(RiscVRegister::T0)
    } else if name == "t1"@ || name == "x6"@ {
        Some(RiscVRegister::T1)
    } else if name == "t2"@ || name == "x7"@ {
        Some(RiscVRegister::T2)
    } else if name == "s0"@ || name == "fp"@ || name == "x8"@ {
        Some(RiscVRegister::S0FP)
    } else if name == "s1"@ || name == "x9"@ {
        Some(RiscVRegister::S1)
    } else if name == "a0"@ || name == "x10"@ {
        Some(RiscVRegister::A0)
    } else if name == "a1"@ || name == "x11"@ {
        Some(RiscVRegister::A1)
    } else if name == "a2"@ || name == "x12"@ {
        Some(RiscVRegister::A2)
    } else if name == "a3"@ || name == "x13"@ {
        Some(RiscVRegister::A3)
    } else if name == "a4"@ || name == "x14"@ {
        Some(RiscVRegister::A4)
    } else if name == "a5"@ || name == "x15"@ {
        Some(RiscVRegister::A5)
    } else if name == "a6"@ || name == "x16"@ {
        Some(RiscVRegister::A6)
    } else if name == "a7"@ || name == "x17"@ {
        Some(RiscVRegister::A7)
    } else if name == "s2"@ || name == "x18"@ {
        Some(RiscVRegister::S2)
    } else if name == "s3"@ || name == "x19"@ {
        Some(RiscVRegister::S3)
    } else if name == "s4"@ || name == "x20"@ {
        Some(RiscVRegister::S4)
    } else if name == "s5"@ || name == "x21"@ {
        Some(RiscVRegister::S5)
    } else if name == "s6"@ || name == "x22"@ {
        Some(RiscVRegister::S6)
    } else if name == "s7"@ || name == "x23"@ {
        Some(RiscVRegister::S7)
    } else if name == "s8"@ || name == "x24"@ {
        Some(RiscVRegister::S8)
    } else if name == "s9"@ || name == "x25"@ {
        Some(RiscVRegister::S9)
    } else if name == "s10"@ || name == "x26"@ {
        Some(RiscVRegister::S10)
    } else if name == "s11"@ || name == "x27"@ {
        Some(RiscVRegister::S11)
    } else if name == "t3"@ || name == "x28"@ {
        Some(RiscVRegister::T3)
    } else if name == "t4"@ || name == "x29"@ {
        Some(RiscVRegister::T4)
    } else if name == "t5"@ || name == "x30"@ {
        Some(RiscVRegister::T5)
    } else if name == "t6"@ || name == "x31"@ {
        Some(RiscVRegister::T6)
    } else {
        None
    }
}

/// The register that `text` names, white space around the name aside.
pub open spec fn parse_register_spec(text: Seq<char>) -> Option<RiscVRegister> {
    register_named(trim(text))
}

fn register_from(name: &Vec<char>) -> (r: Option<RiscVRegister>)
    ensures
        r == register_named(name@),
{
    if is_str(name, "x0") || is_str(name, "zero") {
        Some(RiscVRegister::X0)
    } else if is_str(name, "ra") || is_str(name, "x1") {
        Some(RiscVRegister::RA)
    } else if is_str(name, "sp") || is_str(name, "x2") {
        Some(RiscVRegister::SP)
    } else if is_str(name, "gp") || is_str(name, "x3") {
        Some(RiscVRegister::GP)
    } else if is_str(name, "tp") || is_str(name, "x4") {
        Some(RiscVRegister::TP)
    } else if is_str(name, "t0") || is_str(name, "x5") {
        Some(RiscVRegister::T0)
    } else if is_str(name, "t1") || is_str(name, "x6") {
        Some(RiscVRegister::T1)
    } else if is_str(name, "t2") || is_str(name, "x7") {
        Some(RiscVRegister::T2)
    } else if is_str(name, "s0") || is_str(name, "fp") || is_str(name, "x8") {
        Some(RiscVRegister::S0FP)
    } else if is_str(name, "s1") || is_str(name, "x9") {
        Some(RiscVRegister::S1)
    } else if is_str(name, "a0") || is_str(name, "x10") {
        Some(RiscVRegister::A0)
    } else if is_str(name, "a1") || is_str(name, "x11") {
        Some(RiscVRegister::A1)
    } else if is_str(name, "a2") || is_str(name, "x12") {
        Some(RiscVRegister::A2)
    } else if is_str(name, "a3") || is_str(name, "x13") {
        Some(RiscVRegister::A3)
    } else if is_str(name, "a4") || is_str(name, "x14") {
        Some(RiscVRegister::A4)
    } else if is_str(name, "a5") || is_str(name, "x15") {
        Some(RiscVRegister::A5)
    } else if is_str(name, "a6") || is_str(name, "x16") {
        Some(RiscVRegister::A6)
    } else if is_str(name, "a7") || is_str(name, "x17") {
        Some(RiscVRegister::A7)
    } else if is_str(name, "s2") || is_str(name, "x18") {
        Some(RiscVRegister::S2)
    } else if is_str(name, "s3") || is_str(name, "x19") {
        Some(RiscVRegister::S3)
    } else if is_str(name, "s4") || is_str(name, "x20") {
        Some(RiscVRegister::S4)
    } else if is_str(name, "s5") || is_str(name, "x21") {
        Some(RiscVRegister::S5)
    } else if is_str(name, "s6") || is_str(name, "x22") {
        Some(RiscVRegister::S6)
    } else if is_str(name, "s7") || is_str(name, "x23") {
        Some(RiscVRegister::S7)
    } else if is_str(name, "s8") || is_str(name, "x24") {
        Some(RiscVRegister::S8)
    } else if is_str(name, "s9") || is_str(name, "x25") {
        Some(RiscVRegister::S9)
    } else if is_str(name, "s10") || is_str(name, "x26") {
        Some(RiscVRegister::S10)
    } else if is_str(name, "s11") || is_str(name, "x27") {
        Some(RiscVRegister::S11)
    } else if is_str(name, "t3") || is_str(name, "x28") {
        Some(RiscVRegister::T3)
    } else if is_str(name, "t4") || is_str(name, "x29") {
        Some(RiscVRegister::T4)
    } else if is_str(name, "t5") || is_str(name, "x30") {
        Some(RiscVRegister::T5)
    } else if is_str(name, "t6") || is_str(name, "x31") {
        Some(RiscVRegister::T6)
    } else {
        None
    }
}

fn register_of(text: &Vec<char>) -> (r: Option<RiscVRegister>)
    ensures
        r == parse_register_spec(text@),
{
    let name = trim_of(text);
    register_from(&name)
}

/// The register that `reg_str` names.
pub fn parse_register(reg_str: &str) -> (r: Option<RiscVRegister>)
    ensures
        r == parse_register_spec(reg_str@),
{
    let text = chars_of(reg_str);
    register_of(&text)
}

/// The view of an operand that may be absent.
pub open spec fn opt_val(o: Option<RiscVVal>) -> Option<RiscVValView> {
    match o {
        Some(v) => Some(v@),
        None => None,
    }
}

/// The view of an instruction that may be absent.
pub open spec fn opt_instruction(o: Option<RiscVInstruction>) -> Option<RiscVInstructionView> {
    match o {
        Some(i) => Some(i@),
        None => None,
    }
}

/// The target of a branch, from the groups of the search for
/// [`branch_target_pattern`] in `target`.
///
/// Where the search found an address, the symbol that the disassembler
/// wrote beside it comes first; then the symbol that `labels` has for the
/// number that the address denotes; then the address as a number, if it
/// is an `i32` in hexadecimal. An address that is none of these is no
/// target: no label is made up from its digits. Where the search found no
/// address, the target is the name of a label and is taken as it stands.
pub open spec fn branch_target_from_spec(
    groups: Option<Seq<Option<Seq<char>>>>,
    target: Seq<char>,
    labels: Map<u64, Seq<char>>,
) -> Option<RiscVValView> {
    let addr = group_or_empty(groups, 1);
    let label = group_or_empty(groups, 2);
    if groups is None {
        Some(RiscVValView::LabelOffset { label: target, offset: 0 })
    } else if label.len() > 0 {
        Some(RiscVValView::LabelOffset { label, offset: 0 })
    } else if address_value(addr) is Some && labels.contains_key(address_value(addr)->Some_0) {
        Some(RiscVValView::LabelOffset { label: labels[address_value(addr)->Some_0], offset: 0 })
    } else {
        match parse_int(addr, 16) {
            Some(imm) => Some(RiscVValView::Immediate(imm)),
            None => None,
        }
    }
}

/// The target of a branch.
pub open spec fn parse_branch_target_spec(
    target: Seq<char>,
    labels: Map<u64, Seq<char>>,
) -> Option<RiscVValView> {
    branch_target_from_spec(regex_groups(branch_target_pattern(), target), target, labels)
}

/// The target of a branch, from the groups of the search for
/// [`branch_target_pattern`] in `target_str`.
pub fn branch_target_from(
    groups: &Option<Vec<Option<String>>>,
    target_str: &str,
    labels: &LabelTable,
) -> (r: Option<RiscVVal>)
    ensures
        opt_val(r) == branch_target_from_spec(groups_view(*groups), target_str@, labels@),
{
    if groups.is_none() {
        return Some(RiscVVal::LabelOffset { label: target_str.to_owned(), offset: 0 });
    }
    let addr = group_or_default(groups, 1);
    let label = group_or_default(groups, 2);
    let label_chars = chars_of(label.as_str());
    if label_chars.len() > 0 {
        return Some(RiscVVal::LabelOffset { label, offset: 0 });
    }
    if let Some(key) = parse_address(addr.as_str()) {
        if let Some(name) = labels.get(key) {
            return Some(RiscVVal::LabelOffset { label: name, offset: 0 });
        }
    }
    let addr_chars = chars_of(addr.as_str());
    match parse_i32(&addr_chars, 16) {
        Some(imm) => Some(RiscVVal::Immediate(imm)),
        None => None,
    }
}

/// The target of a branch, a jump or a call in a disassembly.
pub fn parse_branch_target(target_str: &str, labels: &LabelTable) -> (r: Option<RiscVVal>)
    ensures
        opt_val(r) == parse_branch_target_spec(target_str@, labels@),
{
    let groups = regex_captures(r"([0-9a-f]+)(?:\s+<([^>]+)>)?", target_str);
    branch_target_from(&groups, target_str, labels)
}

/// A memory operand, from the groups of the search for
/// [`memory_operand_pattern`] in `operand`.
///
/// Where the search found `offset(register)`, the operand is that register
/// and that offset, zero where the offset is left out, and nothing where
/// the offset is no `i32` in decimal or the register has no such name.
/// Where it found nothing, the operand is taken for a label as it stands.
pub open spec fn memory_operand_from_spec(
    groups: Option<Seq<Option<Seq<char>>>>,
    operand: Seq<char>,
) -> Option<RiscVValView> {
    if groups is Some {
        let offset = match group_of(groups, 1) {
            Some(text) => parse_int(text, 10),
            None => Some(0i32),
        };
        let register = parse_register_spec(group_or_empty(groups, 2));
        if offset is Some && register is Some {
            Some(RiscVValView::Offset { register: register->Some_0, offset: offset->Some_0 })
        } else {
            None
        }
    } else {
        Some(RiscVValView::LabelOffset { label: operand, offset: 0 })
    }
}

/// A memory operand.
pub open spec fn parse_memory_operand_spec(operand: Seq<char>) -> Option<RiscVValView> {
    memory_operand_from_spec(regex_groups(memory_operand_pattern(), operand), operand)
}

/// A memory operand, from the groups of the search for
/// [`memory_operand_pattern`] in `operand`.
pub fn memory_operand_from(groups: &Option<Vec<Option<String>>>, operand: &str) -> (r: Option<
    RiscVVal,
>)
    ensures
        opt_val(r) == memory_operand_from_spec(groups_view(*groups), operand@),
{
    if groups.is_some() {
        let offset = match group(groups, 1) {
            Some(text) => {
                let digits = chars_of(text.as_str());
                parse_i32(&digits, 10)
            },
            None => Some(0i32),
        };
        let register = parse_register(group_or_default(groups, 2).as_str());
        match (offset, register) {
            (Some(offset), Some(register)) => Some(RiscVVal::Offset { register, offset }),
            _ => None,
        }
    } else {
        Some(RiscVVal::LabelOffset { label: operand.to_owned(), offset: 0 })
    }
}

/// A memory operand, as in `16(sp)`.
pub fn parse_memory_operand(operand: &str) -> (r: Option<RiscVVal>)
    ensures
        opt_val(r) == parse_memory_operand_spec(operand@),
{
    let groups = regex_captures(r"(-?\d+)?\(([a-z0-9]+)\)", operand);
    memory_operand_from(&groups, operand)
}

/// The mnemonics that the parser knows.
#[derive(Debug, Clone, Copy, PartialEq, Eq, Structural)]
pub enum Mnemonic {
    /// `li`
    Li,
    /// `addi`
    Addi,
    /// `addw`
    Addw,
    /// `add`
    Add,
    /// `subw`
    Subw,
    /// `sub`
    Sub,
    /// `ble`
    Ble,
    /// `blez`
    Blez,
    /// `bge`
    Bge,
    /// `blt`
    Blt,
    /// `bgt`
    Bgt,
    /// `bne`
    Bne,
    /// `call`
    Call,
    /// `lui`
    Lui,
    /// `sd`
    Sd,
    /// `sw`
    Sw,
    /// `slli`
    Slli,
    /// `ld`
    Ld,
    /// `lw`
    Lw,
    /// `mv`
    Mv,
    /// `sext.w`
    SextW,
    /// `j`
    J,
    /// `jr`
    Jr,
    /// `ecall`
    Ecall,
}

/// The mnemonic that `text` spells.
pub open spec fn mnemonic_named(text: Seq<char>) -> Option<Mnemonic> {
    if text == "li"@ {
        Some(Mnemonic::Li)
    } else if text == "addi"@ {
        Some(Mnemonic::Addi)
    } else if text == "addw"@ {
        Some(Mnemonic::Addw)
    } else if text == "add"@ {
        Some(Mnemonic::Add)
    } else if text == "subw"@ {
        Some(Mnemonic::Subw)
    } else if text == "sub"@ {
        Some(Mnemonic::Sub)
    } else if text == "ble"@ {
        Some(Mnemonic::Ble)
    } else if text == "blez"@ {
        Some(Mnemonic::Blez)
    } else if text == "bge"@ {
        Some(Mnemonic::Bge)
    } else if text == "blt"@ {
        Some(Mnemonic::Blt)
    } else if text == "bgt"@ {
        Some(Mnemonic::Bgt)
    } else if text == "bne"@ {
        Some(Mnemonic::Bne)
    } else if text == "call"@ {
        Some(Mnemonic::Call)
    } else if text == "lui"@ {
        Some(Mnemonic::Lui)
    } else if text == "sd"@ {
        Some(Mnemonic::Sd)
    } else if text == "sw"@ {
        Some(Mnemonic::Sw)
    } else if text == "slli"@ {
        Some(Mnemonic::Slli)
    } else if text == "ld"@ {
        Some(Mnemonic::Ld)
    } else if text == "lw"@ {
        Some(Mnemonic::Lw)
    } else if text == "mv"@ {
        Some(Mnemonic::Mv)
    } else if text == "sext.w"@ {
        Some(Mnemonic::SextW)
    } else if text == "j"@ {
        Some(Mnemonic::J)
    } else if text == "jr"@ {
        Some(Mnemonic::Jr)
    } else if text == "ecall"@ {
        Some(Mnemonic::Ecall)
    } else {
        None
    }
}

/// The mnemonic that `text` spells.
pub fn mnemonic_of(text: &Vec<char>) -> (r: Option<Mnemonic>)
    ensures
        r == mnemonic_named(text@),
{
    if is_str(text, "li") {
        Some(Mnemonic::Li)
    } else if is_str(text, "addi") {
        Some(Mnemonic::Addi)
    } else if is_str(text, "addw") {
        Some(Mnemonic::Addw)
    } else if is_str(text, "add") {
        Some(Mnemonic::Add)
    } else if is_str(text, "subw") {
        Some(Mnemonic::Subw)
    } else if is_str(text, "sub") {
        Some(Mnemonic::Sub)
    } else if is_str(text, "ble") {
        Some(Mnemonic::Ble)
    } else if is_str(text, "blez") {
        Some(Mnemonic::Blez)
    } else if is_str(text, "bge") {
        Some(Mnemonic::Bge)
    } else if is_str(text, "blt") {
        Some(Mnemonic::Blt)
    } else if is_str(text, "bgt") {
        Some(Mnemonic::Bgt)
    } else if is_str(text, "bne") {
        Some(Mnemonic::Bne)
    } else if is_str(text, "call") {
        Some(Mnemonic::Call)
    } else if is_str(text, "lui") {
        Some(Mnemonic::Lui)
    } else if is_str(text, "sd") {
        Some(Mnemonic::Sd)
    } else if is_str(text, "sw") {
        Some(Mnemonic::Sw)
    } else if is_str(text, "slli") {
        Some(Mnemonic::Slli)
    } else if is_str(text, "ld") {
        Some(Mnemonic::Ld)
    } else if is_str(text, "lw") {
        Some(Mnemonic::Lw)
    } else if is_str(text, "mv") {
        Some(Mnemonic::Mv)
    } else if is_str(text, "sext.w") {
        Some(Mnemonic::SextW)
    } else if is_str(text, "j") {
        Some(Mnemonic::J)
    } else if is_str(text, "jr") {
        Some(Mnemonic::Jr)
    } else if is_str(text, "ecall") {
        Some(Mnemonic::Ecall)
    } else {
        None
    }
}

/// Two registers, from exactly two fields.
pub open spec fn two_registers_spec(fields: Seq<Seq<char>>) -> Option<
    (RiscVRegister, RiscVRegister),
> {
    if fields.len() == 2 && parse_register_spec(fields[0]) is Some && parse_register_spec(
        fields[1],
    ) is Some {
        Some((parse_register_spec(fields[0])->Some_0, parse_register_spec(fields[1])->Some_0))
    } else {
        None
    }
}

/// Three registers, from exactly three fields.
pub open spec fn three_registers_spec(fields: Seq<Seq<char>>) -> Option<
    (RiscVRegister, RiscVRegister, RiscVRegister),
> {
    if fields.len() == 3 && parse_register_spec(fields[0]) is Some && parse_register_spec(
        fields[1],
    ) is Some && parse_register_spec(fields[2]) is Some {
        Some(
            (
                parse_register_spec(fields[0])->Some_0,
                parse_register_spec(fields[1])->Some_0,
                parse_register_spec(fields[2])->Some_0,
            ),
        )
    } else {
        None
    }
}

/// A register and an immediate in decimal, from exactly two fields.
pub open spec fn register_immediate_spec(fields: Seq<Seq<char>>) -> Option<(RiscVRegister, i32)> {
    if fields.len() == 2 && parse_register_spec(fields[0]) is Some && parse_int(
        trim(fields[1]),
        10,
    ) is Some {
        Some((parse_register_spec(fields[0])->Some_0, parse_int(trim(fields[1]), 10)->Some_0))
    } else {
        None
    }
}

/// Two registers and an immediate in decimal, from exactly three fields.
pub open spec fn two_registers_immediate_spec(fields: Seq<Seq<char>>) -> Option<
    (RiscVRegister, RiscVRegister, i32),
> {
    if fields.len() == 3 && parse_register_spec(fields[0]) is Some && parse_register_spec(
        fields[1],
    ) is Some && parse_int(trim(fields[2]), 10) is Some {
        Some(
            (
                parse_register_spec(fields[0])->Some_0,
                parse_register_spec(fields[1])->Some_0,
                parse_int(trim(fields[2]), 10)->Some_0,
            ),
        )
    } else {
        None
    }
}

/// A register and a memory operand, from exactly two fields.
pub open spec fn register_memory_spec(fields: Seq<Seq<char>>) -> Option<
    (RiscVRegister, RiscVValView),
> {
    if fields.len() == 2 && parse_register_spec(fields[0]) is Some && parse_memory_operand_spec(
        trim(fields[1]),
    ) is Some {
        Some(
            (
                parse_register_spec(fields[0])->Some_0,
                parse_memory_operand_spec(trim(fields[1]))->Some_0,
            ),
        )
    } else {
        None
    }
}

/// The target of a branch, a jump or a call, white space around it aside.
/// A target that is left out is no target.
///
/// In a disassembly, where there is a label table, the target is an
/// address and is read as [`parse_branch_target_spec`] says. In assembly
/// text, where there is none, the target is the name of a label and is
/// taken as it stands.
pub open spec fn target_spec(text: Seq<char>, labels: Option<Map<u64, Seq<char>>>) -> Option<
    RiscVValView,
> {
    if trim(text).len() == 0 {
        None
    } else {
        match labels {
            Some(table) => parse_branch_target_spec(trim(text), table),
            None => Some(RiscVValView::LabelOffset { label: trim(text), offset: 0 }),
        }
    }
}

/// A register and a branch target, from exactly two fields.
pub open spec fn register_target_spec(
    fields: Seq<Seq<char>>,
    labels: Option<Map<u64, Seq<char>>>,
) -> Option<(RiscVRegister, RiscVValView)> {
    if fields.len() == 2 && parse_register_spec(fields[0]) is Some && target_spec(
        fields[1],
        labels,
    ) is Some {
        Some((parse_register_spec(fields[0])->Some_0, target_spec(fields[1], labels)->Some_0))
    } else {
        None
    }
}

/// Two registers and a branch target, from exactly three fields.
pub open spec fn two_registers_target_spec(
    fields: Seq<Seq<char>>,
    labels: Option<Map<u64, Seq<char>>>,
) -> Option<(RiscVRegister, RiscVRegister, RiscVValView)> {
    if fields.len() == 3 && parse_register_spec(fields[0]) is Some && parse_register_spec(
        fields[1],
    ) is Some && target_spec(fields[2], labels) is Some {
        Some(
            (
                parse_register_spec(fields[0])->Some_0,
                parse_register_spec(fields[1])->Some_0,
                target_spec(fields[2], labels)->Some_0,
            ),
        )
    } else {
        None
    }
}

/// The operands of `addi`: two registers and, in the third field, an
/// immediate in decimal, which a comment after `#` may follow.
///
/// Where the third field holds `#`, `<` and `>` and its comment, from the
/// `#` on, refers to a symbol, the instruction adds the low part of that
/// symbol's address. Otherwise it adds the immediate, read without the
/// comment.
pub open spec fn addi_spec(fields: Seq<Seq<char>>) -> Option<RiscVInstructionView> {
    if fields.len() == 3 && parse_register_spec(fields[0]) is Some && parse_register_spec(
        fields[1],
    ) is Some {
        let dest = parse_register_spec(fields[0])->Some_0;
        let src = parse_register_spec(fields[1])->Some_0;
        let last = trim(fields[2]);
        let at = index_of(last, '#') as int;
        let commented = last.contains('#') && last.contains('<') && last.contains('>');
        if commented && comment_label_spec(last.skip(at)) is Some {
            Some(
                RiscVInstructionView::Addl {
                    dest,
                    src,
                    label: RiscVValView::LabelOffset {
                        label: comment_label_spec(last.skip(at))->Some_0,
                        offset: RELOC_LO,
                    },
                },
            )
        } else {
            let number = if commented {
                trim(last.take(at))
            } else {
                last
            };
            match parse_int(number, 10) {
                Some(imm) => Some(RiscVInstructionView::Addi { dest, src, imm }),
                None => None,
            }
        }
    } else {
        None
    }
}

/// The name under which `lui` refers to the page with the number `page`:
/// `buf` for the page 16, where the data of that name lies, and for every
/// other page the 32 bits of its number in hexadecimal after `0x`.
pub open spec fn page_label(page: i32) -> Seq<char> {
    if page == 16 {
        "buf"@
    } else {
        "0x"@ + hex_digits(bits_of(page))
    }
}

/// The operands of `lui`: a register and, in the second field, a page
/// number, which a comment after `#` may follow.
///
/// Where the comment refers to a symbol, the instruction loads the high
/// part of that symbol's address. Otherwise the page number is read without
/// the comment, in hexadecimal after `0x` and in decimal without it, and the
/// instruction loads the high part of the address of [`page_label`].
pub open spec fn lui_spec(fields: Seq<Seq<char>>) -> Option<RiscVInstructionView> {
    if fields.len() == 2 && parse_register_spec(fields[0]) is Some {
        let dest = parse_register_spec(fields[0])->Some_0;
        let last = trim(fields[1]);
        let at = index_of(last, '#') as int;
        let commented = last.contains('#');
        if commented && comment_label_spec(last.skip(at)) is Some {
            Some(
                RiscVInstructionView::Lui {
                    dest,
                    src: RiscVValView::LabelOffset {
                        label: comment_label_spec(last.skip(at))->Some_0,
                        offset: RELOC_HI,
                    },
                },
            )
        } else {
            let number = if commented {
                trim(last.take(at))
            } else {
                last
            };
            let page = if "0x"@.is_prefix_of(number) {
                parse_int(number.skip(2), 16)
            } else {
                parse_int(number, 10)
            };
            match page {
                Some(page) => Some(
                    RiscVInstructionView::Lui {
                        dest,
                        src: RiscVValView::LabelOffset {
                            label: page_label(page),
                            offset: RELOC_HI,
                        },
                    },
                ),
                None => None,
            }
        }
    } else {
        None
    }
}

/// The instruction that a mnemonic and its operands denote, or nothing
/// where the operands are not what the mnemonic takes: too few or too many
/// fields between commas, a register that has no such name, a number that
/// is no `i32`. Branch targets are read against `labels`, as
/// [`target_spec`] says.
pub open spec fn parse_operands_spec(
    mnemonic: Mnemonic,
    operands: Seq<char>,
    labels: Option<Map<u64, Seq<char>>>,
) -> Option<RiscVInstructionView> {
    let fields = split_on(operands, ',');
    match mnemonic {
        Mnemonic::Li => match register_immediate_spec(fields) {
            Some((dest, imm)) => Some(RiscVInstructionView::Li { dest, imm }),
            None => None,
        },
        Mnemonic::Addi => addi_spec(fields),
        Mnemonic::Addw => match three_registers_spec(fields) {
            Some((dest, arg1, arg2)) => Some(
                RiscVInstructionView::Add { width: RiscVWidth::Word, dest, arg1, arg2 },
            ),
            None => None,
        },
        Mnemonic::Add => match three_registers_spec(fields) {
            Some((dest, arg1, arg2)) => Some(
                RiscVInstructionView::Add { width: RiscVWidth::Double, dest, arg1, arg2 },
            ),
            None => None,
        },
        Mnemonic::Subw => match three_registers_spec(fields) {
            Some((dest, arg1, arg2)) => Some(
                RiscVInstructionView::Sub { width: RiscVWidth::Word, dest, arg1, arg2 },
            ),
            None => None,
        },
        Mnemonic::Sub => match three_registers_spec(fields) {
            Some((dest, arg1, arg2)) => Some(
                RiscVInstructionView::Sub { width: RiscVWidth::Double, dest, arg1, arg2 },
            ),
            None => None,
        },
        Mnemonic::Ble => match two_registers_target_spec(fields, labels) {
            Some((arg1, arg2, target)) => Some(RiscVInstructionView::Ble { arg1, arg2, target }),
            None => None,
        },
        Mnemonic::Blez => if fields.len() == 2 {
            match register_target_spec(fields, labels) {
                Some((arg1, target)) => Some(
                    RiscVInstructionView::Ble { arg1, arg2: RiscVRegister::X0, target },
                ),
                None => None,
            }
        } else {
            match two_registers_target_spec(fields, labels) {
                Some((arg1, arg2, target)) => Some(
                    RiscVInstructionView::Ble { arg1, arg2, target },
                ),
                None => None,
            }
        },
        Mnemonic::Bge => match two_registers_target_spec(fields, labels) {
            Some((arg1, arg2, target)) => Some(RiscVInstructionView::Bge { arg1, arg2, target }),
            None => None,
        },
        Mnemonic::Blt => match two_registers_target_spec(fields, labels) {
            Some((arg1, arg2, target)) => Some(RiscVInstructionView::Blt { arg1, arg2, target }),
            None => None,
        },
        Mnemonic::Bgt => match two_registers_target_spec(fields, labels) {
            Some((arg1, arg2, target)) => Some(RiscVInstructionView::Bgt { arg1, arg2, target }),
            None => None,
        },
        Mnemonic::Bne => match two_registers_target_spec(fields, labels) {
            Some((arg1, arg2, target)) => Some(RiscVInstructionView::Bne { arg1, arg2, target }),
            None => None,
        },
        Mnemonic::Call => match target_spec(operands, labels) {
            Some(label) => Some(RiscVInstructionView::Call { label }),
            None => None,
        },
        Mnemonic::Lui => lui_spec(fields),
        Mnemonic::Sd => match register_memory_spec(fields) {
            Some((src, dest)) => Some(
                RiscVInstructionView::S { width: RiscVWidth::Double, src, dest },
            ),
            None => None,
        },
        Mnemonic::Sw => match register_memory_spec(fields) {
            Some((src, dest)) => Some(
                RiscVInstructionView::S { width: RiscVWidth::Word, src, dest },
            ),
            None => None,
        },
        Mnemonic::Slli => match two_registers_immediate_spec(fields) {
            Some((dest, src, imm)) => Some(RiscVInstructionView::Slli { dest, src, imm }),
            None => None,
        },
        Mnemonic::Ld => match register_memory_spec(fields) {
            Some((dest, src)) => Some(
                RiscVInstructionView::L { width: RiscVWidth::Double, dest, src },
            ),
            None => None,
        },
        Mnemonic::Lw => match register_memory_spec(fields) {
            Some((dest, src)) => Some(
                RiscVInstructionView::L { width: RiscVWidth::Word, dest, src },
            ),
            None => None,
        },
        Mnemonic::Mv => match two_registers_spec(fields) {
            Some((dest, src)) => Some(RiscVInstructionView::Mv { dest, src }),
            None => None,
        },
        Mnemonic::SextW => match two_registers_spec(fields) {
            Some((dest, src)) => Some(RiscVInstructionView::SextW { dest, src }),
            None => None,
        },
        Mnemonic::J => match target_spec(operands, labels) {
            Some(target) => Some(RiscVInstructionView::J { target }),
            None => None,
        },
        Mnemonic::Jr => match parse_register_spec(operands) {
            Some(target) => Some(RiscVInstructionView::Jr { target }),
            None => None,
        },
        Mnemonic::Ecall => Some(RiscVInstructionView::ECall),
    }
}

/// The text under which an instruction that the parser does not know is
/// carried along: four blanks, the mnemonic, a blank and the operands.
pub open spec fn verbatim_text(instr: Seq<char>, operands: Seq<char>) -> Seq<char> {
    "    "@ + instr + " "@ + operands
}

/// The instruction on a line of disassembly with the mnemonic `instr` and
/// the operands `operands`: what [`parse_operands_spec`] gives for a known
/// mnemonic, and the line as verbatim text for any other.
pub open spec fn parse_instruction_spec(
    instr: Seq<char>,
    operands: Seq<char>,
    labels: Map<u64, Seq<char>>,
) -> Option<RiscVInstructionView> {
    match mnemonic_named(instr) {
        Some(mnemonic) => parse_operands_spec(mnemonic, operands, Some(labels)),
        None => Some(RiscVInstructionView::Verbatim { text: verbatim_text(instr, operands) }),
    }
}

fn two_registers(fields: &Vec<Vec<char>>) -> (r: Option<(RiscVRegister, RiscVRegister)>)
    ensures
        r == two_registers_spec(texts(fields@)),
{
    if fields.len() != 2 {
        return None;
    }
    match (register_of(&fields[0]), register_of(&fields[1])) {
        (Some(a), Some(b)) => Some((a, b)),
        _ => None,
    }
}

fn three_registers(fields: &Vec<Vec<char>>) -> (r: Option<
    (RiscVRegister, RiscVRegister, RiscVRegister),
>)
    ensures
        r == three_registers_spec(texts(fields@)),
{
    if fields.len() != 3 {
        return None;
    }
    match (register_of(&fields[0]), register_of(&fields[1]), register_of(&fields[2])) {
        (Some(a), Some(b), Some(c)) => Some((a, b, c)),
        _ => None,
    }
}

fn decimal_of(text: &Vec<char>) -> (r: Option<i32>)
    ensures
        r == parse_int(trim(text@), 10),
{
    let number = trim_of(text);
    parse_i32(&number, 10)
}

fn register_immediate(fields: &Vec<Vec<char>>) -> (r: Option<(RiscVRegister, i32)>)
    ensures
        r == register_immediate_spec(texts(fields@)),
{
    if fields.len() != 2 {
        return None;
    }
    match (register_of(&fields[0]), decimal_of(&fields[1])) {
        (Some(a), Some(imm)) => Some((a, imm)),
        _ => None,
    }
}

fn two_registers_immediate(fields: &Vec<Vec<char>>) -> (r: Option<
    (RiscVRegister, RiscVRegister, i32),
>)
    ensures
        r == two_registers_immediate_spec(texts(fields@)),
{
    if fields.len() != 3 {
        return None;
    }
    match (register_of(&fields[0]), register_of(&fields[1]), decimal_of(&fields[2])) {
        (Some(a), Some(b), Some(imm)) => Some((a, b, imm)),
        _ => None,
    }
}

fn memory_operand_of(text: &Vec<char>) -> (r: Option<RiscVVal>)
    ensures
        opt_val(r) == parse_memory_operand_spec(trim(text@)),
{
    let operand = string_of(&trim_of(text));
    parse_memory_operand(operand.as_str())
}

/// The view of a label table that may be absent.
pub open spec fn opt_table(labels: Option<&LabelTable>) -> Option<Map<u64, Seq<char>>> {
    match labels {
        Some(table) => Some(table@),
        None => None,
    }
}

fn target_of(text: &Vec<char>, labels: Option<&LabelTable>) -> (r: Option<RiscVVal>)
    ensures
        opt_val(r) == target_spec(text@, opt_table(labels)),
{
    let name = trim_of(text);
    if name.len() == 0 {
        return None;
    }
    let target = string_of(&name);
    match labels {
        Some(table) => parse_branch_target(target.as_str(), table),
        None => Some(RiscVVal::LabelOffset { label: target, offset: 0 }),
    }
}

fn register_memory(fields: &Vec<Vec<char>>) -> (r: Option<(RiscVRegister, RiscVVal)>)
    ensures
        (match r {
            Some((reg, val)) => Some((reg, val@)),
            None => None,
        }) == register_memory_spec(texts(fields@)),
{
    if fields.len() != 2 {
        return None;
    }
    match (register_of(&fields[0]), memory_operand_of(&fields[1])) {
        (Some(a), Some(mem)) => Some((a, mem)),
        _ => None,
    }
}

fn register_target(fields: &Vec<Vec<char>>, labels: Option<&LabelTable>) -> (r: Option<
    (RiscVRegister, RiscVVal),
>)
    ensures
        (match r {
            Some((reg, val)) => Some((reg, val@)),
            None => None,
        }) == register_target_spec(texts(fields@), opt_table(labels)),
{
    if fields.len() != 2 {
        return None;
    }
    match (register_of(&fields[0]), target_of(&fields[1], labels)) {
        (Some(a), Some(target)) => Some((a, target)),
        _ => None,
    }
}

fn two_registers_target(fields: &Vec<Vec<char>>, labels: Option<&LabelTable>) -> (r: Option<
    (RiscVRegister, RiscVRegister, RiscVVal),
>)
    ensures
        (match r {
            Some((a, b, val)) => Some((a, b, val@)),
            None => None,
        }) == two_registers_target_spec(texts(fields@), opt_table(labels)),
{
    if fields.len() != 3 {
        return None;
    }
    match (register_of(&fields[0]), register_of(&fields[1]), target_of(&fields[2], labels)) {
        (Some(a), Some(b), Some(target)) => Some((a, b, target)),
        _ => None,
    }
}

fn comment_label_of(text: &Vec<char>, at: usize) -> (r: Option<String>)
    requires
        at <= text.len(),
    ensures
        opt_text(r) == comment_label_spec(text@.skip(at as int)),
{
    let comment = string_of(&slice_of(text, at, text.len()));
    extract_label_from_comment(comment.as_str())
}

fn parse_addi(fields: &Vec<Vec<char>>) -> (r: Option<RiscVInstruction>)
    ensures
        opt_instruction(r) == addi_spec(texts(fields@)),
{
    if fields.len() != 3 {
        return None;
    }
    let (dest, src) = match (register_of(&fields[0]), register_of(&fields[1])) {
        (Some(a), Some(b)) => (a, b),
        _ => {
            return None;
        },
    };
    let last = trim_of(&fields[2]);
    let at = find_char(&last, '#');
    let commented = has_char(&last, '#') && has_char(&last, '<') && has_char(&last, '>');
    if commented {
        if let Some(label) = comment_label_of(&last, at) {
            return Some(
                RiscVInstruction::Addl {
                    dest,
                    src,
                    label: RiscVVal::LabelOffset { label, offset: RELOC_LO },
                },
            );
        }
    }
    let number = if commented {
        assert(last@.take(at as int) =~= last@.subrange(0, at as int));
        trim_of(&slice_of(&last, 0, at))
    } else {
        last
    };
    match parse_i32(&number, 10) {
        Some(imm) => Some(RiscVInstruction::Addi { dest, src, imm }),
        None => None,
    }
}

/// The name under which `lui` refers to the page with the number `page`.
pub fn page_label_of(page: i32) -> (r: String)
    ensures
        r@ == page_label(page),
{
    let mut name: Vec<char> = Vec::new();
    if page == 16 {
        push_str(&mut name, "buf");
    } else {
        push_str(&mut name, "0x");
        push_hex(&mut name, page);
    }
    assert(Seq::<char>::empty() + "buf"@ =~= "buf"@);
    assert(Seq::<char>::empty() + "0x"@ + hex_digits(bits_of(page)) =~= "0x"@ + hex_digits(
        bits_of(page),
    ));
    string_of(&name)
}

fn parse_lui(fields: &Vec<Vec<char>>) -> (r: Option<RiscVInstruction>)
    ensures
        opt_instruction(r) == lui_spec(texts(fields@)),
{
    if fields.len() != 2 {
        return None;
    }
    let dest = match register_of(&fields[0]) {
        Some(a) => a,
        None => {
            return None;
        },
    };
    let last = trim_of(&fields[1]);
    let at = find_char(&last, '#');
    let commented = has_char(&last, '#');
    if commented {
        if let Some(label) = comment_label_of(&last, at) {
            return Some(
                RiscVInstruction::Lui {
                    dest,
                    src: RiscVVal::LabelOffset { label, offset: RELOC_HI },
                },
            );
        }
    }
    let number = if commented {
        assert(last@.take(at as int) =~= last@.subrange(0, at as int));
        trim_of(&slice_of(&last, 0, at))
    } else {
        last
    };
    let page = if starts_with_str(&number, "0x") {
        proof {
            reveal_strlit("0x");
        }
        assert(number@.skip(2) =~= number@.subrange(2, number@.len() as int));
        parse_i32(&slice_of(&number, 2, number.len()), 16)
    } else {
        parse_i32(&number, 10)
    };
    match page {
        Some(page) => Some(
            RiscVInstruction::Lui {
                dest,
                src: RiscVVal::LabelOffset { label: page_label_of(page), offset: RELOC_HI },
            },
        ),
        None => None,
    }
}

/// Reads the operands of `mnemonic`. With a label table, branch targets
/// are read as addresses, as they stand in a disassembly; without one, as
/// the names of labels.
pub fn parse_operands(
    mnemonic: Mnemonic,
    operands: &str,
    labels: Option<&LabelTable>,
) -> (r: Option<RiscVInstruction>)
    ensures
        opt_instruction(r) == parse_operands_spec(mnemonic, operands@, opt_table(labels)),
{
    let text = chars_of(operands);
    let fields = split_fields(&text, ',');
    match mnemonic {
        Mnemonic::Li => match register_immediate(&fields) {
            Some((dest, imm)) => Some(RiscVInstruction::Li { dest, imm }),
            None => None,
        },
        Mnemonic::Addi => parse_addi(&fields),
        Mnemonic::Addw => match three_registers(&fields) {
            Some((dest, arg1, arg2)) => Some(
                RiscVInstruction::Add { width: RiscVWidth::Word, dest, arg1, arg2 },
            ),
            None => None,
        },
        Mnemonic::Add => match three_registers(&fields) {
            Some((dest, arg1, arg2)) => Some(
                RiscVInstruction::Add { width: RiscVWidth::Double, dest, arg1, arg2 },
            ),
            None => None,
        },
        Mnemonic::Subw => match three_registers(&fields) {
            Some((dest, arg1, arg2)) => Some(
                RiscVInstruction::Sub { width: RiscVWidth::Word, dest, arg1, arg2 },
            ),
            None => None,
        },
        Mnemonic::Sub => match three_registers(&fields) {
            Some((dest, arg1, arg2)) => Some(
                RiscVInstruction::Sub { width: RiscVWidth::Double, dest, arg1, arg2 },
            ),
            None => None,
        },
        Mnemonic::Ble => match two_registers_target(&fields, labels) {
            Some((arg1, arg2, target)) => Some(RiscVInstruction::Ble { arg1, arg2, target }),
            None => None,
        },
        Mnemonic::Blez => if fields.len() == 2 {
            match register_target(&fields, labels) {
                Some((arg1, target)) => Some(
                    RiscVInstruction::Ble { arg1, arg2: RiscVRegister::X0, target },
                ),
                None => None,
            }
        } else {
            match two_registers_target(&fields, labels) {
                Some((arg1, arg2, target)) => Some(RiscVInstruction::Ble { arg1, arg2, target }),
                None => None,
            }
        },
        Mnemonic::Bge => match two_registers_target(&fields, labels) {
            Some((arg1, arg2, target)) => Some(RiscVInstruction::Bge { arg1, arg2, target }),
            None => None,
        },
        Mnemonic::Blt => match two_registers_target(&fields, labels) {
            Some((arg1, arg2, target)) => Some(RiscVInstruction::Blt { arg1, arg2, target }),
            None => None,
        },
        Mnemonic::Bgt => match two_registers_target(&fields, labels) {
            Some((arg1, arg2, target)) => Some(RiscVInstruction::Bgt { arg1, arg2, target }),
            None => None,
        },
        Mnemonic::Bne => match two_registers_target(&fields, labels) {
            Some((arg1, arg2, target)) => Some(RiscVInstruction::Bne { arg1, arg2, target }),
            None => None,
        },
        Mnemonic::Call => match target_of(&text, labels) {
            Some(label) => Some(RiscVInstruction::Call { label }),
            None => None,
        },
        Mnemonic::Lui => parse_lui(&fields),
        Mnemonic::Sd => match register_memory(&fields) {
            Some((src, dest)) => Some(RiscVInstruction::S { width: RiscVWidth::Double, src, dest }),
            None => None,
        },
        Mnemonic::Sw => match register_memory(&fields) {
            Some((src, dest)) => Some(RiscVInstruction::S { width: RiscVWidth::Word, src, dest }),
            None => None,
        },
        Mnemonic::Slli => match two_registers_immediate(&fields) {
            Some((dest, src, imm)) => Some(RiscVInstruction::Slli { dest, src, imm }),
            None => None,
        },
        Mnemonic::Ld => match register_memory(&fields) {
            Some((dest, src)) => Some(RiscVInstruction::L { width: RiscVWidth::Double, dest, src }),
            None => None,
        },
        Mnemonic::Lw => match register_memory(&fields) {
            Some((dest, src)) => Some(RiscVInstruction::L { width: RiscVWidth::Word, dest, src }),
            None => None,
        },
        Mnemonic::Mv => match two_registers(&fields) {
            Some((dest, src)) => Some(RiscVInstruction::Mv { dest, src }),
            None => None,
        },
        Mnemonic::SextW => match two_registers(&fields) {
            Some((dest, src)) => Some(RiscVInstruction::SextW { dest, src }),
            None => None,
        },
        Mnemonic::J => match target_of(&text, labels) {
            Some(target) => Some(RiscVInstruction::J { target }),
            None => None,
        },
        Mnemonic::Jr => match register_of(&text) {
            Some(target) => Some(RiscVInstruction::Jr { target }),
            None => None,
        },
        Mnemonic::Ecall => Some(RiscVInstruction::ECall),
    }
}

/// Reads the instruction with the mnemonic `instr` and the operands
/// `operands` from a line of disassembly. A mnemonic that the parser does not
/// know gives the line as verbatim text.
pub fn parse_instruction(instr: &str, operands: &str, labels: &LabelTable) -> (r: Option<
    RiscVInstruction,
>)
    ensures
        opt_instruction(r) == parse_instruction_spec(instr@, operands@, labels@),
{
    let name = chars_of(instr);
    match mnemonic_of(&name) {
        Some(mnemonic) => parse_operands(mnemonic, operands, Some(labels)),
        None => {
            let mut text: Vec<char> = Vec::new();
            push_str(&mut text, "    ");
            push_str(&mut text, instr);
            push_str(&mut text, " ");
            push_str(&mut text, operands);
            assert(text@ =~= verbatim_text(instr@, operands@));
            Some(RiscVInstruction::Verbatim { text: string_of(&text) })
        },
    }
}

/// The symbol that a line of disassembly defines: the line has the marks of
/// a definition and a name between them.
pub open spec fn defined_label(line: Seq<char>) -> Option<Seq<char>> {
    if is_label_line(line) {
        label_name_spec(line)
    } else {
        None
    }
}

/// The label table of a disassembly: for each line that defines a symbol,
/// in order, the symbol at the address that starts the line. A later
/// definition of an address replaces an earlier one; a definition whose
/// line does not start with an address defines nothing to branch to.
pub open spec fn label_table_spec(lines: Seq<Seq<char>>) -> Map<u64, Seq<char>>
    decreases lines.len(),
{
    if lines.len() == 0 {
        Map::empty()
    } else {
        let before = label_table_spec(lines.drop_last());
        let addr = address_value(address_spec(lines.last()));
        match defined_label(lines.last()) {
            Some(name) => if addr is Some {
                before.insert(addr->Some_0, name)
            } else {
                before
            },
            None => before,
        }
    }
}

/// What one line of disassembly contributes to the program.
///
/// * A blank line: nothing.
/// * The definition of a symbol: a label.
/// * A line with `.word` or `.short`: itself as verbatim text, without the
///   white space around it.
/// * A line with an address, a mnemonic and operands: the instruction that
///   [`parse_instruction_spec`] reads, if it reads one.
/// * Any other line: nothing.
pub open spec fn objdump_line_spec(line: Seq<char>, labels: Map<u64, Seq<char>>) -> Option<
    RiscVInstructionView,
> {
    if trim(line).len() == 0 {
        None
    } else if defined_label(line) is Some {
        Some(RiscVInstructionView::Label { name: defined_label(line)->Some_0 })
    } else if has_infix(line, ".word"@) || has_infix(line, ".short"@) {
        Some(RiscVInstructionView::Verbatim { text: trim(line) })
    } else {
        match instruction_line_spec(line) {
            Some((addr, instr, operands)) => parse_instruction_spec(instr, operands, labels),
            None => None,
        }
    }
}

/// The program that the lines of a disassembly give, in the order of the
/// lines.
pub open spec fn objdump_lines_spec(
    lines: Seq<Seq<char>>,
    labels: Map<u64, Seq<char>>,
) -> Seq<RiscVInstructionView>
    decreases lines.len(),
{
    if lines.len() == 0 {
        Seq::empty()
    } else {
        let before = objdump_lines_spec(lines.drop_last(), labels);
        match objdump_line_spec(lines.last(), labels) {
            Some(instr) => before.push(instr),
            None => before,
        }
    }
}

/// The program that a disassembly gives: its lines are read against the
/// label table of the whole text, so that a branch may refer to a symbol
/// that is defined further down.
pub open spec fn parse_objdump_spec(output: Seq<char>) -> Seq<RiscVInstructionView> {
    let lines = lines_of(output);
    objdump_lines_spec(lines, label_table_spec(lines))
}

fn defined_label_of(line: &Vec<char>, line_str: &str) -> (r: Option<String>)
    requires
        line@ == line_str@,
    ensures
        opt_text(r) == defined_label(line@),
{
    if has_char(line, '<') && contains_str(line, ">:") {
        extract_label_name(line_str)
    } else {
        None
    }
}

/// The label table of the lines of a disassembly.
pub fn collect_labels(lines: &Vec<Vec<char>>) -> (labels: LabelTable)
    ensures
        labels@ == label_table_spec(texts(lines@)),
{
    let mut labels = LabelTable::new();
    let mut i: usize = 0;
    assert(texts(lines@).take(0) =~= Seq::<Seq<char>>::empty());
    while i < lines.len()
        invariant
            i <= lines.len(),
            labels@ == label_table_spec(texts(lines@).take(i as int)),
        decreases lines.len() - i,
    {
        let ghost upto = texts(lines@).take(i + 1);
        assert(upto.drop_last() =~= texts(lines@).take(i as int));
        assert(upto.last() == lines@[i as int]@);
        let line_str = string_of(&lines[i]);
        if let Some(name) = defined_label_of(&lines[i], line_str.as_str()) {
            let addr = extract_address(line_str.as_str());
            if let Some(key) = parse_address(addr.as_str()) {
                labels.insert(key, name);
            }
        }
        i += 1;
    }
    assert(texts(lines@).take(lines@.len() as int) =~= texts(lines@));
    labels
}

/// Reads one line of disassembly against the label table `labels`.
pub fn parse_objdump_line(line: &str, labels: &LabelTable) -> (r: Option<RiscVInstruction>)
    ensures
        opt_instruction(r) == objdump_line_spec(line@, labels@),
{
    let chars = chars_of(line);
    let trimmed = trim_of(&chars);
    if trimmed.len() == 0 {
        return None;
    }
    if let Some(name) = defined_label_of(&chars, line) {
        return Some(RiscVInstruction::Label { name });
    }
    if contains_str(&chars, ".word") || contains_str(&chars, ".short") {
        return Some(RiscVInstruction::Verbatim { text: string_of(&trimmed) });
    }
    match parse_instruction_line(line) {
        Some((addr, instr, operands)) => parse_instruction(
            instr.as_str(),
            operands.as_str(),
            labels,
        ),
        None => None,
    }
}

/// Parses the output of a disassembler.
///
/// Parsing does not fail: a line that is no instruction is passed over, an
/// instruction that the parser does not know is kept as verbatim text, and
/// an instruction whose operands cannot be read is left out.
pub fn parse_objdump(output: &str) -> (instructions: Vec<RiscVInstruction>)
    ensures
        instructions.deep_view() == parse_objdump_spec(output@),
{
    let text = chars_of(output);
    let lines = split_lines(&text);
    let labels = collect_labels(&lines);
    let mut instructions: Vec<RiscVInstruction> = Vec::new();
    let mut i: usize = 0;
    assert(texts(lines@).take(0) =~= Seq::<Seq<char>>::empty());
    assert(instructions.deep_view() =~= Seq::<RiscVInstructionView>::empty());
    while i < lines.len()
        invariant
            i <= lines.len(),
            instructions.deep_view() == objdump_lines_spec(texts(lines@).take(i as int), labels@),
        decreases lines.len() - i,
    {
        let ghost upto = texts(lines@).take(i + 1);
        let ghost before = instructions.deep_view();
        assert(upto.drop_last() =~= texts(lines@).take(i as int));
        assert(upto.last() == lines@[i as int]@);
        let line = string_of(&lines[i]);
        if let Some(instruction) = parse_objdump_line(line.as_str(), &labels) {
            instructions.push(instruction);
            assert(instructions.deep_view() =~= before.push(instruction@));
        }
        i += 1;
    }
    assert(texts(lines@).take(lines@.len() as int) =~= texts(lines@));
    instructions
}

/// What one line of assembly contributes to the program: the instruction
/// that its first word, as a mnemonic, and the rest of the line, as
/// operands, denote. A blank line, a line that starts with anything but a
/// known mnemonic, and a line whose operands cannot be read contribute
/// nothing. There is no label table: a branch target is the name of a
/// label.
pub open spec fn asm_line_spec(line: Seq<char>) -> Option<RiscVInstructionView> {
    match mnemonic_named(first_word(line)) {
        Some(mnemonic) => parse_operands_spec(mnemonic, after_first_word(line), None),
        None => None,
    }
}

/// The program that lines of assembly give, in the order of the lines.
pub open spec fn asm_lines_spec(lines: Seq<Seq<char>>) -> Seq<RiscVInstructionView>
    decreases lines.len(),
{
    if lines.len() == 0 {
        Seq::empty()
    } else {
        let before = asm_lines_spec(lines.drop_last());
        match asm_line_spec(lines.last()) {
            Some(instr) => before.push(instr),
            None => before,
        }
    }
}

/// The program that an assembly text gives.
pub open spec fn parse_asm_spec(source: Seq<char>) -> Seq<RiscVInstructionView> {
    asm_lines_spec(lines_of(source))
}

/// Reads one line of assembly.
pub fn parse_asm_line(line: &str) -> (r: Option<RiscVInstruction>)
    ensures
        opt_instruction(r) == asm_line_spec(line@),
{
    let chars = chars_of(line);
    let (word, rest) = split_first_word(&chars);
    match mnemonic_of(&word) {
        Some(mnemonic) => {
            let operands = string_of(&rest);
            parse_operands(mnemonic, operands.as_str(), None)
        },
        None => None,
    }
}

/// Parses assembly text with one instruction to a line: a mnemonic, then
/// its operands with commas between them.
pub fn parse_asm(source: &str) -> (instructions: Vec<RiscVInstruction>)
    ensures
        instructions.deep_view() == parse_asm_spec(source@),
{
    let text = chars_of(source);
    let lines = split_lines(&text);
    let mut instructions: Vec<RiscVInstruction> = Vec::new();
    let mut i: usize = 0;
    assert(texts(lines@).take(0) =~= Seq::<Seq<char>>::empty());
    assert(instructions.deep_view() =~= Seq::<RiscVInstructionView>::empty());
    while i < lines.len()
        invariant
            i <= lines.len(),
            instructions.deep_view() == asm_lines_spec(texts(lines@).take(i as int)),
        decreases lines.len() - i,
    {
        let ghost upto = texts(lines@).take(i + 1);
        let ghost before = instructions.deep_view();
        assert(upto.drop_last() =~= texts(lines@).take(i as int));
        assert(upto.last() == lines@[i as int]@);
        let line = string_of(&lines[i]);
        if let Some(instruction) = parse_asm_line(line.as_str()) {
            instructions.push(instruction);
            assert(instructions.deep_view() =~= before.push(instruction@));
        }
        i += 1;
    }
    assert(texts(lines@).take(lines@.len() as int) =~= texts(lines@));
    instructions
}

/// A mnemonic that the parser does not know gives verbatim text, whatever
/// the operands; so no instruction line of a disassembly is lost for its
/// mnemonic.
pub proof fn lemma_unknown_mnemonic_is_kept(
    instr: Seq<char>,
    operands: Seq<char>,
    labels: Map<u64, Seq<char>>,
)
    requires
        mnemonic_named(instr) is None,
    ensures
        parse_instruction_spec(instr, operands, labels) == Some(
            RiscVInstructionView::Verbatim { text: verbatim_text(instr, operands) },
        ),
{
}

/// A branch target that has an address but no symbol beside it and none in
/// the label table is the address as a number where the address is an
/// `i32` in hexadecimal, and no target where it is not. It is never a
/// label.
pub proof fn lemma_unresolved_target_is_a_number(
    groups: Option<Seq<Option<Seq<char>>>>,
    target: Seq<char>,
    labels: Map<u64, Seq<char>>,
)
    requires
        groups is Some,
        group_or_empty(groups, 2).len() == 0,
        address_value(group_or_empty(groups, 1)) is Some ==> !labels.contains_key(
            address_value(group_or_empty(groups, 1))->Some_0,
        ),
    ensures
        branch_target_from_spec(groups, target, labels) == (match parse_int(
            group_or_empty(groups, 1),
            16,
        ) {
            Some(imm) => Some(RiscVValView::Immediate(imm)),
            None => None,
        }),
        !(branch_target_from_spec(groups, target, labels) matches Some(
            RiscVValView::LabelOffset { .. },
        )),
{
}

/// A branch target whose address denotes the number of a definition is the
/// symbol defined there, however the two addresses are written.
pub proof fn lemma_target_resolves_by_number(
    groups: Option<Seq<Option<Seq<char>>>>,
    target: Seq<char>,
    labels: Map<u64, Seq<char>>,
    definition: Seq<char>,
    name: Seq<char>,
)
    requires
        groups is Some,
        group_or_empty(groups, 2).len() == 0,
        address_value(definition) is Some,
        address_value(group_or_empty(groups, 1)) == address_value(definition),
    ensures
        branch_target_from_spec(
            groups,
            target,
            labels.insert(address_value(definition)->Some_0, name),
        ) == Some(RiscVValView::LabelOffset { label: name, offset: 0 }),
{
}

/// The label table of a disassembly holds every address at which a line
/// defines a symbol, wherever in the text the line stands: before the
/// branches to it or after them.
pub proof fn lemma_definitions_are_in_the_table(lines: Seq<Seq<char>>, i: int)
    requires
        0 <= i < lines.len(),
        defined_label(lines[i]) is Some,
        address_value(address_spec(lines[i])) is Some,
    ensures
        label_table_spec(lines).contains_key(address_value(address_spec(lines[i]))->Some_0),
        (forall|j: int|
            i < j < lines.len() ==> !(defined_label(#[trigger] lines[j]) is Some && address_value(
                address_spec(lines[j]),
            ) == address_value(address_spec(lines[i])))) ==> label_table_spec(
            lines,
        )[address_value(address_spec(lines[i]))->Some_0] == defined_label(lines[i])->Some_0,
    decreases lines.len(),
{
    if i < lines.len() - 1 {
        let before = lines.drop_last();
        assert(before[i] == lines[i]);
        lemma_definitions_are_in_the_table(before, i);
        assert forall|j: int| i < j < before.len() implies before[j] == lines[j] by {}
        if forall|j: int|
            i < j < lines.len() ==> !(defined_label(#[trigger] lines[j]) is Some && address_value(
                address_spec(lines[j]),
            ) == address_value(address_spec(lines[i]))) {
            assert(lines.last() == lines[lines.len() - 1]);
            assert forall|j: int| i < j < before.len() implies !(defined_label(
                #[trigger] before[j],
            ) is Some && address_value(address_spec(before[j])) == address_value(
                address_spec(before[i]),
            )) by {
                assert(before[j] == lines[j]);
            }
        }
    } else {
        assert(lines.last() == lines[i]);
    }
}

/// An address denotes the same number however many zeros are written
/// before it: `00000000000100e6` is the address `100e6`.
pub proof fn lemma_padded_address(n: nat, text: Seq<char>)
    requires
        text.len() > 0,
    ensures
        address_value(zeros(n) + text) == address_value(text),
{
    lemma_leading_zeros(n, text, 16);
}

/// A disassembly gives at most one instruction for each of its lines.
pub proof fn lemma_objdump_at_most_one_per_line(
    lines: Seq<Seq<char>>,
    labels: Map<u64, Seq<char>>,
)
    ensures
        objdump_lines_spec(lines, labels).len() <= lines.len(),
    decreases lines.len(),
{
    if lines.len() > 0 {
        lemma_objdump_at_most_one_per_line(lines.drop_last(), labels);
    }
}

/// An assembly text gives at most one instruction for each of its lines.
pub proof fn lemma_asm_at_most_one_per_line(lines: Seq<Seq<char>>)
    ensures
        asm_lines_spec(lines).len() <= lines.len(),
    decreases lines.len(),
{
    if lines.len() > 0 {
        lemma_asm_at_most_one_per_line(lines.drop_last());
    }
}

} // verus!
