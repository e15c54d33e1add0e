//! A static translator from RISC-V assembly to AArch64 assembly.
//!
//! Text is parsed into a typed instruction model ([`parser`],
//! [`instruction`]), each RISC-V instruction is lowered to AArch64
//! instructions ([`translate`]), and those are rendered as assembly text
//! ([`render`]). The modules [`text`], [`number`] and [`pattern`] hold what
//! the parser and the renderer need to take text apart and to put it
//! together.
//!
//! Every function is specified over the views of its arguments: strings as
//! `Seq<char>`, instructions as the view types of [`instruction`]. Two things
//! are taken on trust: what a regular expression matches, which is not
//! specified here but named ([`pattern::regex_groups`]), and that
//! `String::push` appends a character ([`text`]). Everything else is proved.
pub mod instruction;
pub mod number;
pub mod parser;
pub mod pattern;
pub mod render;
pub mod text;
pub mod translate;
