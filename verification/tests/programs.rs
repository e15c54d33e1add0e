use binary_room::instruction::{RiscVInstruction, RiscVRegister, RiscVVal, RiscVWidth};
use binary_room::translate::{translate_instrs, translate_to_string, TranslateError};

/// Calls `main` ten thousand times, then exits.
const ARM_LOOP_START: &str = r#"
.text

.global _start
.global _main

.balign 4
_start:
# i = 10,000
mov x3, #10000
# while i > 0
.loop:
sub x3, x3, 1

cmp x3, xzr
ble .end

# main()
bl main

b .loop
.end:
mov x8, #93
svc #0

.balign 4
_main:
main:
"#;

const ARM_START: &str = r#"
.text

.global _start
.global _main

.balign 4
_start:
bl main
mov x8, #93
svc #0

.balign 4
_main:
main:
"#;

/// The prologue of a program that runs `main` once.
const START: &str = ARM_START;

const START_NO_MAIN: &str = r#"
.text

.global _start
.global _main

.balign 4
_start:
bl main
mov x8, #93
svc #0
"#;

const START_MAIN: &str = r#"
.balign 4
_main:
main:
"#;

const BUF: &str = r#"
buf:
    .string "hello world\n"
"#;

const N: i32 = 4093;

fn add_program() -> Vec<RiscVInstruction> {
    vec![
    RiscVInstruction::Verbatim {
        text: ARM_LOOP_START.to_string(),
    },
    RiscVInstruction::Addi {
        dest: RiscVRegister::SP,
        src: RiscVRegister::SP,
        imm: -32,
    },
    RiscVInstruction::S {
        width: RiscVWidth::Double,
        src: RiscVRegister::RA,
        dest: RiscVVal::Offset {
            register: RiscVRegister::SP,
            offset: 24,
        },
    },
    RiscVInstruction::S {
        width: RiscVWidth::Double,
        src: RiscVRegister::S0FP,
        dest: RiscVVal::Offset {
            register: RiscVRegister::SP,
            offset: 16,
        },
    },
    RiscVInstruction::Addi {
        dest: RiscVRegister::S0FP,
        src: RiscVRegister::SP,
        imm: 32,
    },
    RiscVInstruction::Li {
        dest: RiscVRegister::A5,
        imm: 3,
    },
    RiscVInstruction::S {
        width: RiscVWidth::Word,
        src: RiscVRegister::A5,
        dest: RiscVVal::Offset {
            register: RiscVRegister::S0FP,
            offset: -20,
        },
    },
    RiscVInstruction::Li {
        dest: RiscVRegister::A5,
        imm: 4,
    },
    RiscVInstruction::S {
        width: RiscVWidth::Word,
        src: RiscVRegister::A5,
        dest: RiscVVal::Offset {
            register: RiscVRegister::S0FP,
            offset: -24,
        },
    },
    RiscVInstruction::L {
        width: RiscVWidth::Word,
        dest: RiscVRegister::A5,
        src: RiscVVal::Offset {
            register: RiscVRegister::S0FP,
            offset: -20,
        },
    },
    RiscVInstruction::Mv {
        dest: RiscVRegister::A4,
        src: RiscVRegister::A5,
    },
    RiscVInstruction::L {
        width: RiscVWidth::Word,
        dest: RiscVRegister::A5,
        src: RiscVVal::Offset {
            register: RiscVRegister::S0FP,
            offset: -24,
        },
    },
    RiscVInstruction::Add {
        width: RiscVWidth::Word,
        dest: RiscVRegister::A5,
        arg1: RiscVRegister::A4,
        arg2: RiscVRegister::A5,
    },
    RiscVInstruction::SextW {
        dest: RiscVRegister::A5,
        src: RiscVRegister::A5,
    },
    RiscVInstruction::Mv {
        dest: RiscVRegister::A0,
        src: RiscVRegister::A5,
    },
    RiscVInstruction::L {
        width: RiscVWidth::Double,
        dest: RiscVRegister::RA,
        src: RiscVVal::Offset {
            register: RiscVRegister::SP,
            offset: 24,
        },
    },
    RiscVInstruction::L {
        width: RiscVWidth::Double,
        dest: RiscVRegister::S0FP,
        src: RiscVVal::Offset {
            register: RiscVRegister::SP,
            offset: 16,
        },
    },
    RiscVInstruction::Addi {
        dest: RiscVRegister::SP,
        src: RiscVRegister::SP,
        imm: 32,
    },
    RiscVInstruction::Jr {
        target: RiscVRegister::RA,
    },
    ]
}

fn echo_program() -> Vec<RiscVInstruction> {
    vec![
    // RiscVInstruction::Verbatim { text: BUF.to_string() },
    RiscVInstruction::Verbatim {
        text: ARM_START.to_string(),
    },
    // read syscall
    RiscVInstruction::Addi {
        dest: RiscVRegister::SP,
        src: RiscVRegister::SP,
        imm: -32,
    }, // sub stack pointer
    RiscVInstruction::Li {
        dest: RiscVRegister::A7,
        imm: 63,
    }, // read syscall #
    RiscVInstruction::Li {
        dest: RiscVRegister::A2,
        imm: 32,
    }, // read 5 bytes
    RiscVInstruction::Mv {
        dest: RiscVRegister::A1,
        src: RiscVRegister::SP,
    },
    RiscVInstruction::Li {
        dest: RiscVRegister::A0,
        imm: 0,
    },
    RiscVInstruction::ECall,
    // write syscall
    RiscVInstruction::Li {
        dest: RiscVRegister::A7,
        imm: 64,
    },
    RiscVInstruction::Li {
        dest: RiscVRegister::A2,
        imm: 14,
    },
    RiscVInstruction::Mv {
        dest: RiscVRegister::A1,
        src: RiscVRegister::SP,
    },
    RiscVInstruction::Li {
        dest: RiscVRegister::A0,
        imm: 1,
    },
    RiscVInstruction::ECall,
    // exit syscall
    RiscVInstruction::Li {
        dest: RiscVRegister::A7,
        imm: 93,
    },
    // RiscVInstruction::Li { dest: RiscVRegister::A0, imm: 0 },
    RiscVInstruction::ECall,
    ]
}

fn fib_program() -> Vec<RiscVInstruction> {
    vec![
    RiscVInstruction::Verbatim {
        text: ARM_START.to_string(),
    },
    RiscVInstruction::Addi {
        dest: RiscVRegister::SP,
        src: RiscVRegister::SP,
        imm: -64,
    },
    RiscVInstruction::S {
        width: RiscVWidth::Double,
        src: RiscVRegister::S0FP,
        dest: RiscVVal::Offset {
            register: RiscVRegister::SP,
            offset: 56,
        },
    },
    RiscVInstruction::Addi {
        dest: RiscVRegister::S0FP,
        src: RiscVRegister::SP,
        imm: 64,
    },
    RiscVInstruction::S {
        width: RiscVWidth::Double,
        src: RiscVRegister::X0,
        dest: RiscVVal::Offset {
            register: RiscVRegister::S0FP,
            offset: -64,
        },
    },
    RiscVInstruction::S {
        width: RiscVWidth::Double,
        src: RiscVRegister::X0,
        dest: RiscVVal::Offset {
            register: RiscVRegister::S0FP,
            offset: -56,
        },
    },
    RiscVInstruction::S {
        width: RiscVWidth::Double,
        src: RiscVRegister::X0,
        dest: RiscVVal::Offset {
            register: RiscVRegister::S0FP,
            offset: -48,
        },
    },
    RiscVInstruction::S {
        width: RiscVWidth::Double,
        src: RiscVRegister::X0,
        dest: RiscVVal::Offset {
            register: RiscVRegister::S0FP,
            offset: -40,
        },
    },
    RiscVInstruction::S {
        width: RiscVWidth::Double,
        src: RiscVRegister::X0,
        dest: RiscVVal::Offset {
            register: RiscVRegister::S0FP,
            offset: -32,
        },
    },
    RiscVInstruction::Li {
        dest: RiscVRegister::A5,
        imm: 1,
    },
    RiscVInstruction::S {
        width: RiscVWidth::Word,
        src: RiscVRegister::A5,
        dest: RiscVVal::Offset {
            register: RiscVRegister::S0FP,
            offset: -60,
        },
    },
    RiscVInstruction::Li {
        dest: RiscVRegister::A5,
        imm: 2,
    },
    RiscVInstruction::S {
        width: RiscVWidth::Word,
        src: RiscVRegister::A5,
        dest: RiscVVal::Offset {
            register: RiscVRegister::S0FP,
            offset: -20,
        },
    },
    RiscVInstruction::J {
        target: RiscVVal::LabelOffset {
            label: ".L2".to_string(),
            offset: 0,
        },
    },
    RiscVInstruction::Label {
        name: ".L3".to_string(),
    },
    RiscVInstruction::L {
        width: RiscVWidth::Word,
        dest: RiscVRegister::A5,
        src: RiscVVal::Offset {
            register: RiscVRegister::S0FP,
            offset: -20,
        },
    },
    RiscVInstruction::Addi {
        dest: RiscVRegister::A5,
        src: RiscVRegister::A5,
        imm: -1,
    },
    RiscVInstruction::SextW {
        dest: RiscVRegister::A5,
        src: RiscVRegister::A5,
    },
    RiscVInstruction::Slli {
        dest: RiscVRegister::A5,
        src: RiscVRegister::A5,
        imm: 2,
    },
    RiscVInstruction::Addi {
        dest: RiscVRegister::A5,
        src: RiscVRegister::A5,
        imm: -16,
    },
    RiscVInstruction::Add {
        width: RiscVWidth::Double,
        dest: RiscVRegister::A5,
        arg1: RiscVRegister::A5,
        arg2: RiscVRegister::S0FP,
    },
    RiscVInstruction::L {
        width: RiscVWidth::Double,
        dest: RiscVRegister::A4,
        src: RiscVVal::Offset {
            register: RiscVRegister::A5,
            offset: -48,
        },
    },
    RiscVInstruction::L {
        width: RiscVWidth::Double,
        dest: RiscVRegister::A5,
        src: RiscVVal::Offset {
            register: RiscVRegister::S0FP,
            offset: -20,
        },
    },
    RiscVInstruction::Addi {
        dest: RiscVRegister::A5,
        src: RiscVRegister::A5,
        imm: -2,
    },
    RiscVInstruction::SextW {
        dest: RiscVRegister::A5,
        src: RiscVRegister::A5,
    },
    RiscVInstruction::Slli {
        dest: RiscVRegister::A5,
        src: RiscVRegister::A5,
        imm: 2,
    },
    RiscVInstruction::Addi {
        dest: RiscVRegister::A5,
        src: RiscVRegister::A5,
        imm: -16,
    },
    RiscVInstruction::Add {
        width: RiscVWidth::Double,
        dest: RiscVRegister::A5,
        arg1: RiscVRegister::A5,
        arg2: RiscVRegister::S0FP,
    },
    RiscVInstruction::L {
        width: RiscVWidth::Double,
        dest: RiscVRegister::A5,
        src: RiscVVal::Offset {
            register: RiscVRegister::A5,
            offset: -48,
        },
    },
    RiscVInstruction::Add {
        width: RiscVWidth::Double,
        dest: RiscVRegister::A5,
        arg1: RiscVRegister::A4,
        arg2: RiscVRegister::A5,
    },
    RiscVInstruction::SextW {
        dest: RiscVRegister::A4,
        src: RiscVRegister::A5,
    },
    RiscVInstruction::L {
        width: RiscVWidth::Double,
        dest: RiscVRegister::A5,
        src: RiscVVal::Offset {
            register: RiscVRegister::S0FP,
            offset: -20,
        },
    },
    RiscVInstruction::Slli {
        dest: RiscVRegister::A5,
        src: RiscVRegister::A5,
        imm: 2,
    },
    RiscVInstruction::Addi {
        dest: RiscVRegister::A5,
        src: RiscVRegister::A5,
        imm: -16,
    },
    RiscVInstruction::Add {
        width: RiscVWidth::Double,
        dest: RiscVRegister::A5,
        arg1: RiscVRegister::A5,
        arg2: RiscVRegister::S0FP,
    },
    RiscVInstruction::S {
        width: RiscVWidth::Double,
        src: RiscVRegister::A4,
        dest: RiscVVal::Offset {
            register: RiscVRegister::A5,
            offset: -48,
        },
    },
    RiscVInstruction::L {
        width: RiscVWidth::Double,
        dest: RiscVRegister::A5,
        src: RiscVVal::Offset {
            register: RiscVRegister::S0FP,
            offset: -20,
        },
    },
    RiscVInstruction::Addi {
        dest: RiscVRegister::A5,
        src: RiscVRegister::A5,
        imm: 1,
    },
    RiscVInstruction::S {
        width: RiscVWidth::Word,
        src: RiscVRegister::A5,
        dest: RiscVVal::Offset {
            register: RiscVRegister::S0FP,
            offset: -20,
        },
    },
    RiscVInstruction::Label {
        name: ".L2".to_string(),
    },
    RiscVInstruction::L {
        width: RiscVWidth::Double,
        dest: RiscVRegister::A5,
        src: RiscVVal::Offset {
            register: RiscVRegister::S0FP,
            offset: -20,
        },
    },
    RiscVInstruction::SextW {
        dest: RiscVRegister::A4,
        src: RiscVRegister::A5,
    },
    RiscVInstruction::Li {
        dest: RiscVRegister::A5,
        imm: 9,
    },
    RiscVInstruction::Ble {
        arg1: RiscVRegister::A4,
        arg2: RiscVRegister::A5,
        target: RiscVVal::LabelOffset {
            label: ".L3".to_string(),
            offset: 0,
        },
    },
    RiscVInstruction::L {
        width: RiscVWidth::Word,
        dest: RiscVRegister::A5,
        src: RiscVVal::Offset {
            register: RiscVRegister::S0FP,
            offset: -28,
        },
    },
    RiscVInstruction::Mv {
        dest: RiscVRegister::A0,
        src: RiscVRegister::A5,
    },
    RiscVInstruction::L {
        width: RiscVWidth::Double,
        dest: RiscVRegister::S0FP,
        src: RiscVVal::Offset {
            register: RiscVRegister::SP,
            offset: 56,
        },
    },
    RiscVInstruction::Addi {
        dest: RiscVRegister::SP,
        src: RiscVRegister::SP,
        imm: 64,
    },
    RiscVInstruction::Jr {
        target: RiscVRegister::RA,
    },
    ]
}

fn prime_program() -> Vec<RiscVInstruction> {
    vec![
    RiscVInstruction::Verbatim {
        text: START_NO_MAIN.to_string(),
    },
    RiscVInstruction::Label {
        name: "is_prime".to_string(),
    },
    RiscVInstruction::Addi {
        dest: RiscVRegister::SP,
        src: RiscVRegister::SP,
        imm: -48,
    },
    RiscVInstruction::S {
        width: RiscVWidth::Double,
        src: RiscVRegister::S0FP,
        dest: RiscVVal::Offset {
            register: RiscVRegister::SP,
            offset: 40,
        },
    },
    RiscVInstruction::Addi {
        dest: RiscVRegister::S0FP,
        src: RiscVRegister::SP,
        imm: 48,
    },
    RiscVInstruction::Mv {
        dest: RiscVRegister::A5,
        src: RiscVRegister::A0,
    },
    RiscVInstruction::S {
        width: RiscVWidth::Word,
        src: RiscVRegister::A5,
        dest: RiscVVal::Offset {
            register: RiscVRegister::S0FP,
            offset: -36,
        },
    },
    RiscVInstruction::L {
        width: RiscVWidth::Word,
        dest: RiscVRegister::A5,
        src: RiscVVal::Offset {
            register: RiscVRegister::S0FP,
            offset: -36,
        },
    },
    RiscVInstruction::SextW {
        dest: RiscVRegister::A4,
        src: RiscVRegister::A5,
    },
    RiscVInstruction::Li {
        dest: RiscVRegister::A5,
        imm: 1,
    },
    RiscVInstruction::Bgt {
        arg1: RiscVRegister::A4,
        arg2: RiscVRegister::A5,
        target: RiscVVal::LabelOffset {
            label: ".L2".to_string(),
            offset: 0,
        },
    },
    RiscVInstruction::Li {
        dest: RiscVRegister::A5,
        imm: 0,
    },
    RiscVInstruction::J {
        target: RiscVVal::LabelOffset {
            label: ".L3".to_string(),
            offset: 0,
        },
    },
    RiscVInstruction::Label {
        name: ".L2".to_string(),
    },
    RiscVInstruction::Li {
        dest: RiscVRegister::A5,
        imm: 2,
    },
    RiscVInstruction::S {
        width: RiscVWidth::Word,
        src: RiscVRegister::A5,
        dest: RiscVVal::Offset {
            register: RiscVRegister::S0FP,
            offset: -20,
        },
    },
    RiscVInstruction::J {
        target: RiscVVal::LabelOffset {
            label: ".L4".to_string(),
            offset: 0,
        },
    },
    RiscVInstruction::Label {
        name: ".L8".to_string(),
    },
    RiscVInstruction::L {
        width: RiscVWidth::Word,
        dest: RiscVRegister::A5,
        src: RiscVVal::Offset {
            register: RiscVRegister::S0FP,
            offset: -36,
        },
    },
    RiscVInstruction::Mv {
        dest: RiscVRegister::A4,
        src: RiscVRegister::A5,
    },
    RiscVInstruction::L {
        width: RiscVWidth::Word,
        dest: RiscVRegister::A5,
        src: RiscVVal::Offset {
            register: RiscVRegister::S0FP,
            offset: -20,
        },
    },
    RiscVInstruction::Sub {
        width: RiscVWidth::Word,
        dest: RiscVRegister::A5,
        arg1: RiscVRegister::A4,
        arg2: RiscVRegister::A5,
    },
    RiscVInstruction::S {
        width: RiscVWidth::Word,
        src: RiscVRegister::A5,
        dest: RiscVVal::Offset {
            register: RiscVRegister::S0FP,
            offset: -24,
        },
    },
    RiscVInstruction::J {
        target: RiscVVal::LabelOffset {
            label: ".L5".to_string(),
            offset: 0,
        },
    },
    RiscVInstruction::Label {
        name: ".L6".to_string(),
    },
    RiscVInstruction::L {
        width: RiscVWidth::Word,
        dest: RiscVRegister::A5,
        src: RiscVVal::Offset {
            register: RiscVRegister::S0FP,
            offset: -24,
        },
    },
    RiscVInstruction::Mv {
        dest: RiscVRegister::A4,
        src: RiscVRegister::A5,
    },
    RiscVInstruction::L {
        width: RiscVWidth::Word,
        dest: RiscVRegister::A5,
        src: RiscVVal::Offset {
            register: RiscVRegister::S0FP,
            offset: -20,
        },
    },
    RiscVInstruction::Sub {
        width: RiscVWidth::Word,
        dest: RiscVRegister::A5,
        arg1: RiscVRegister::A4,
        arg2: RiscVRegister::A5,
    },
    RiscVInstruction::S {
        width: RiscVWidth::Word,
        src: RiscVRegister::A5,
        dest: RiscVVal::Offset {
            register: RiscVRegister::S0FP,
            offset: -24,
        },
    },
    RiscVInstruction::Label {
        name: ".L5".to_string(),
    },
    RiscVInstruction::L {
        width: RiscVWidth::Word,
        dest: RiscVRegister::A5,
        src: RiscVVal::Offset {
            register: RiscVRegister::S0FP,
            offset: -24,
        },
    },
    RiscVInstruction::Mv {
        dest: RiscVRegister::A4,
        src: RiscVRegister::A5,
    },
    RiscVInstruction::L {
        width: RiscVWidth::Word,
        dest: RiscVRegister::A5,
        src: RiscVVal::Offset {
            register: RiscVRegister::S0FP,
            offset: -20,
        },
    },
    RiscVInstruction::SextW {
        dest: RiscVRegister::A4,
        src: RiscVRegister::A4,
    },
    RiscVInstruction::SextW {
        dest: RiscVRegister::A5,
        src: RiscVRegister::A5,
    },
    RiscVInstruction::Bge {
        arg1: RiscVRegister::A4,
        arg2: RiscVRegister::A5,
        target: RiscVVal::LabelOffset {
            label: ".L6".to_string(),
            offset: 0,
        },
    },
    RiscVInstruction::L {
        width: RiscVWidth::Word,
        dest: RiscVRegister::A5,
        src: RiscVVal::Offset {
            register: RiscVRegister::S0FP,
            offset: -24,
        },
    },
    RiscVInstruction::SextW {
        dest: RiscVRegister::A5,
        src: RiscVRegister::A5,
    },
    RiscVInstruction::Bne {
        arg1: RiscVRegister::A5,
        arg2: RiscVRegister::X0,
        target: RiscVVal::LabelOffset {
            label: ".L7".to_string(),
            offset: 0,
        },
    },
    RiscVInstruction::Li {
        dest: RiscVRegister::A5,
        imm: 0,
    },
    RiscVInstruction::J {
        target: RiscVVal::LabelOffset {
            label: ".L3".to_string(),
            offset: 0,
        },
    },
    RiscVInstruction::Label {
        name: ".L7".to_string(),
    },
    RiscVInstruction::L {
        width: RiscVWidth::Word,
        dest: RiscVRegister::A5,
        src: RiscVVal::Offset {
            register: RiscVRegister::S0FP,
            offset: -20,
        },
    },
    RiscVInstruction::Addi {
        dest: RiscVRegister::A5,
        src: RiscVRegister::A5,
        imm: 1,
    },
    RiscVInstruction::S {
        width: RiscVWidth::Double,
        src: RiscVRegister::A5,
        dest: RiscVVal::Offset {
            register: RiscVRegister::S0FP,
            offset: -20,
        },
    },
    RiscVInstruction::Label {
        name: ".L4".to_string(),
    },
    RiscVInstruction::L {
        width: RiscVWidth::Word,
        dest: RiscVRegister::A5,
        src: RiscVVal::Offset {
            register: RiscVRegister::S0FP,
            offset: -20,
        },
    },
    RiscVInstruction::Mv {
        dest: RiscVRegister::A4,
        src: RiscVRegister::A5,
    },
    RiscVInstruction::L {
        width: RiscVWidth::Word,
        dest: RiscVRegister::A5,
        src: RiscVVal::Offset {
            register: RiscVRegister::S0FP,
            offset: -36,
        },
    },
    RiscVInstruction::SextW {
        dest: RiscVRegister::A4,
        src: RiscVRegister::A4,
    },
    RiscVInstruction::SextW {
        dest: RiscVRegister::A5,
        src: RiscVRegister::A5,
    },
    RiscVInstruction::Blt {
        arg1: RiscVRegister::A4,
        arg2: RiscVRegister::A5,
        target: RiscVVal::LabelOffset {
            label: ".L8".to_string(),
            offset: 0,
        },
    },
    RiscVInstruction::Li {
        dest: RiscVRegister::A5,
        imm: 1,
    },
    RiscVInstruction::Label {
        name: ".L3".to_string(),
    },
    RiscVInstruction::Mv {
        dest: RiscVRegister::A0,
        src: RiscVRegister::A5,
    },
    RiscVInstruction::L {
        width: RiscVWidth::Double,
        dest: RiscVRegister::S0FP,
        src: RiscVVal::Offset {
            register: RiscVRegister::SP,
            offset: 40,
        },
    },
    RiscVInstruction::Addi {
        dest: RiscVRegister::SP,
        src: RiscVRegister::SP,
        imm: 48,
    },
    RiscVInstruction::Jr {
        target: RiscVRegister::RA,
    },
    RiscVInstruction::Verbatim {
        text: START_MAIN.to_string(),
    },
    RiscVInstruction::Addi {
        dest: RiscVRegister::SP,
        src: RiscVRegister::SP,
        imm: -16,
    },
    RiscVInstruction::S {
        width: RiscVWidth::Double,
        src: RiscVRegister::RA,
        dest: RiscVVal::Offset {
            register: RiscVRegister::SP,
            offset: 8,
        },
    },
    RiscVInstruction::S {
        width: RiscVWidth::Double,
        src: RiscVRegister::S0FP,
        dest: RiscVVal::Offset {
            register: RiscVRegister::SP,
            offset: 0,
        },
    },
    RiscVInstruction::Addi {
        dest: RiscVRegister::S0FP,
        src: RiscVRegister::SP,
        imm: 16,
    },
    RiscVInstruction::Li {
        dest: RiscVRegister::A0,
        imm: N,
    },
    RiscVInstruction::Call {
        label: RiscVVal::LabelOffset {
            label: "is_prime".to_string(),
            offset: 0,
        },
    },
    RiscVInstruction::Mv {
        dest: RiscVRegister::A5,
        src: RiscVRegister::A0,
    },
    RiscVInstruction::Mv {
        dest: RiscVRegister::A0,
        src: RiscVRegister::A5,
    },
    RiscVInstruction::L {
        width: RiscVWidth::Double,
        dest: RiscVRegister::RA,
        src: RiscVVal::Offset {
            register: RiscVRegister::SP,
            offset: 8,
        },
    },
    RiscVInstruction::L {
        width: RiscVWidth::Double,
        dest: RiscVRegister::S0FP,
        src: RiscVVal::Offset {
            register: RiscVRegister::SP,
            offset: 16,
        },
    },
    RiscVInstruction::Addi {
        dest: RiscVRegister::SP,
        src: RiscVRegister::SP,
        imm: 16,
    },
    RiscVInstruction::Jr {
        target: RiscVRegister::RA,
    },
    ]
}

fn print_program() -> Vec<RiscVInstruction> {
    vec![
    RiscVInstruction::Verbatim {
        text: BUF.to_string(),
    },
    RiscVInstruction::Verbatim {
        text: ARM_START.to_string(),
    },
    // While i < 1000
    RiscVInstruction::Li {
        dest: RiscVRegister::A3,
        imm: 1000,
    },
    RiscVInstruction::Label {
        name: ".loop".to_string(),
    },
    RiscVInstruction::Addi {
        dest: RiscVRegister::A3,
        src: RiscVRegister::A3,
        imm: -1,
    },
    RiscVInstruction::Ble {
        arg1: RiscVRegister::A3,
        arg2: RiscVRegister::X0,
        target: RiscVVal::LabelOffset {
            label: ".end".to_string(),
            offset: 0,
        },
    },
    // write syscall
    RiscVInstruction::Li {
        dest: RiscVRegister::A7,
        imm: 64,
    },
    RiscVInstruction::Li {
        dest: RiscVRegister::A2,
        imm: 14,
    },
    RiscVInstruction::Lui {
        dest: RiscVRegister::A0,
        src: RiscVVal::LabelOffset {
            label: "buf".to_string(),
            offset: 9998,
        },
    },
    RiscVInstruction::Addl {
        dest: RiscVRegister::A1,
        src: RiscVRegister::A0,
        label: RiscVVal::LabelOffset {
            label: "buf".to_string(),
            offset: 9999,
        },
    },
    RiscVInstruction::Li {
        dest: RiscVRegister::A0,
        imm: 1,
    },
    RiscVInstruction::ECall,
    RiscVInstruction::J {
        target: RiscVVal::LabelOffset {
            label: ".loop".to_string(),
            offset: 0,
        },
    },
    RiscVInstruction::Label {
        name: ".end".to_string(),
    },
    // exit syscall
    RiscVInstruction::Li {
        dest: RiscVRegister::A7,
        imm: 93,
    },
    RiscVInstruction::Li {
        dest: RiscVRegister::A0,
        imm: 0,
    },
    RiscVInstruction::ECall,
    ]
}

fn syscall_program() -> Vec<RiscVInstruction> {
    vec![
    RiscVInstruction::Label { name: ".LC0".to_string() },
    RiscVInstruction::Directive {
        name: "string".to_string(),
        operands: "\"hello, world!\\n\"" .to_string()
    },
    RiscVInstruction::Directive {
        name: "align".to_string(),
        operands: "2".to_string()
    },
    RiscVInstruction::Directive {
        name: "global".to_string(),
        operands: "main".to_string()
    },
    RiscVInstruction::Directive {
        name: "type".to_string(),
        operands: "main, @function".to_string()
    },
    RiscVInstruction::Label { name: "main".to_string() },
    RiscVInstruction::Addi {
        dest: RiscVRegister::SP,
        src: RiscVRegister::SP,
        imm: -16,
    },
    RiscVInstruction::S {
        width: RiscVWidth::Double,
        src: RiscVRegister::RA,
        dest: RiscVVal::Offset {
            register: RiscVRegister::SP,
            offset: 8,
        },
    },
    RiscVInstruction::S {
        width: RiscVWidth::Double,
        src: RiscVRegister::S0FP,
        dest: RiscVVal::Offset {
            register: RiscVRegister::SP,
            offset: 0
        },
    },
    RiscVInstruction::Addi {
        dest: RiscVRegister::S0FP,
        src: RiscVRegister::SP,
        imm: 16,
    },
    RiscVInstruction::Li {
        dest: RiscVRegister::A3,
        imm: 14,
    },
    RiscVInstruction::Lui {
        dest: RiscVRegister::A5,
        src: RiscVVal::LabelOffset {
            label: ".buf".to_string(),
            offset: 9998, // %hi riscv
        },
    },
    RiscVInstruction::Addl {
        dest: RiscVRegister::A2,
        src: RiscVRegister::A5,
        label: RiscVVal::LabelOffset {
            label: ".buf".to_string(),
            offset: 9999, // %lo riscv, :lo12: arm
        },
    },
    RiscVInstruction::Li {
        dest: RiscVRegister::A1,
        imm: 1,
    },
    RiscVInstruction::Li {
        dest: RiscVRegister::A0,
        imm: 64,
    },
    RiscVInstruction::Call {
        label: RiscVVal::LabelOffset {
            label: "syscall".to_string(),
            offset: 0,
        },
    },
    RiscVInstruction::L {
        width: RiscVWidth::Double,
        dest: RiscVRegister::RA,
        src: RiscVVal::Offset {
            register: RiscVRegister::SP,
            offset: 8,
        },
    },
    RiscVInstruction::L {
        width: RiscVWidth::Double,
        dest: RiscVRegister::S0FP,
        src: RiscVVal::Offset {
            register: RiscVRegister::SP,
            offset: 0,
        },
    },
    RiscVInstruction::Addi {
        dest: RiscVRegister::SP,
        src: RiscVRegister::SP,
        imm: 16,
    },
    RiscVInstruction::Jr {
        target: RiscVRegister::RA,
    },
    ]
}

fn rendered(program: Vec<RiscVInstruction>) -> String {
    translate_to_string(program).unwrap()
}

#[test]
fn test_add_test_binary_translate() {
    let riscv_asm = add_program();
    assert_eq!(riscv_asm.len(), 19);
    let expected = [
        ARM_LOOP_START,
        "sub sp, sp, 32",
        "str lr, [sp, 24]",
        "str x29, [sp, 16]",
        "add x29, sp, 32",
        "mov x5, 3",
        "str w5, [x29, -20]",
        "mov x5, 4",
        "str w5, [x29, -24]",
        "ldr w5, [x29, -20]",
        "add x4, x5, 0",
        "ldr w5, [x29, -24]",
        "add w5, w4, w5",
        "sxtw x5, w5",
        "add x0, x5, 0",
        "ldr lr, [sp, 24]",
        "ldr x29, [sp, 16]",
        "add sp, sp, 32",
        "blr lr",
        "",
    ]
    .join("\n");
    assert_eq!(rendered(riscv_asm), expected);
}

#[test]
fn test_translation_test_binary_translate() {
    let mut riscv_asm = add_program();
    riscv_asm[0] = RiscVInstruction::Verbatim { text: START.to_string() };
    let expected = [
        START,
        "sub sp, sp, 32",
        "str lr, [sp, 24]",
        "str x29, [sp, 16]",
        "add x29, sp, 32",
        "mov x5, 3",
        "str w5, [x29, -20]",
        "mov x5, 4",
        "str w5, [x29, -24]",
        "ldr w5, [x29, -20]",
        "add x4, x5, 0",
        "ldr w5, [x29, -24]",
        "add w5, w4, w5",
        "sxtw x5, w5",
        "add x0, x5, 0",
        "ldr lr, [sp, 24]",
        "ldr x29, [sp, 16]",
        "add sp, sp, 32",
        "blr lr",
        "",
    ]
    .join("\n");
    assert_eq!(rendered(riscv_asm), expected);
}

#[test]
fn test_echo_test_print_translate() {
    let riscv_asm = echo_program();
    let expected = [
        ARM_START,
        "sub sp, sp, 32",
        "mov x8, 63",
        "mov x2, 32",
        "add x1, sp, 0",
        "mov x0, 0",
        "svc #0",
        "mov x8, 64",
        "mov x2, 14",
        "add x1, sp, 0",
        "mov x0, 1",
        "svc #0",
        "mov x8, 93",
        "svc #0",
        "",
    ]
    .join("\n");
    assert_eq!(rendered(riscv_asm), expected);
}

#[test]
fn test_print_translate_manual() {
    let riscv_asm = print_program();
    let expected = [
        BUF,
        ARM_START,
        "mov x3, 1000",
        ".loop:",
        "sub x3, x3, 1",
        "cmp x3, xzr",
        "ble .end",
        "mov x8, 64",
        "mov x2, 14",
        "adrp x0, buf",
        "add x1, x0, :lo12:buf",
        "mov x0, 1",
        "svc #0",
        "b .loop",
        ".end:",
        "mov x8, 93",
        "mov x0, 0",
        "svc #0",
        "",
    ]
    .join("\n");
    assert_eq!(rendered(riscv_asm), expected);
}

#[test]
fn test_syscall_translate() {
    let riscv_asm = syscall_program();
    let expected = [
        ".LC0:",
        ".string \"hello, world!\\n\"",
        ".align 2",
        ".global main",
        ".type main, %function",
        "main:",
        "sub sp, sp, 16",
        "str lr, [sp, 8]",
        "str x29, [sp, 0]",
        "add x29, sp, 16",
        "mov x3, 14",
        "adrp x5, .buf",
        "add x2, x5, :lo12:.buf",
        "mov x1, 1",
        "mov x0, 64",
        "bl syscall",
        "ldr lr, [sp, 8]",
        "ldr x29, [sp, 0]",
        "add sp, sp, 16",
        "blr lr",
        "",
    ]
    .join("\n");
    assert_eq!(rendered(riscv_asm), expected);
}

#[test]
fn test_prime_test_binary_translate() {
    let riscv_asm = prime_program();
    let count = riscv_asm.len();
    // One instruction for each, in the same order.
    let lowered = translate_instrs(riscv_asm.clone()).unwrap();
    assert_eq!(lowered.len(), count);
    let text = rendered(riscv_asm);
    assert!(text.starts_with(&format!("{}\nis_prime:\nsub sp, sp, 48\nstr x29, [sp, 40]\n", START_NO_MAIN)));
    assert!(text.ends_with("ldr lr, [sp, 8]\nldr x29, [sp, 16]\nadd sp, sp, 16\nblr lr\n"));
    assert!(text.contains(&format!("blr lr\n{}\nsub sp, sp, 16\n", START_MAIN)));
    assert!(text.contains("sxtw x4, w5\nmov x5, 1\ncmp x4, x5\nbgt .L2\n"));
    assert!(text.contains("sub w5, w4, w5\n"));
    assert!(text.contains("sxtw x4, w4\nsxtw x5, w5\ncmp x4, x5\nbge .L6\n"));
    assert!(text.contains("cmp x5, xzr\nbne .L7\nmov x5, 0\nb .L3\n.L7:\n"));
    assert!(text.contains("cmp x4, x5\nblt .L8\nmov x5, 1\n.L3:\nadd x0, x5, 0\n"));
    assert!(text.contains("mov x0, 4093\nbl is_prime\nadd x5, x0, 0\n"));
    let labels: Vec<&str> = text.lines().filter(|line| line.starts_with(".L")).collect();
    assert_eq!(labels, vec![".L2:", ".L8:", ".L6:", ".L5:", ".L7:", ".L4:", ".L3:"]);
}

#[test]
fn test_fib_test_binary_translate() {
    let riscv_asm = fib_program();
    let shift = riscv_asm
        .iter()
        .position(|instr| matches!(instr, RiscVInstruction::Slli { .. }))
        .unwrap();
    // There is no rule for the shift, so there is no lowering of the program.
    assert_eq!(translate_to_string(riscv_asm.clone()), Err(TranslateError::UnsupportedInstruction));
    // What comes before the shift lowers, one instruction for each.
    let before = riscv_asm[..shift].to_vec();
    let lowered = translate_instrs(before.clone()).unwrap();
    assert_eq!(lowered.len(), shift);
    let text = rendered(before);
    assert!(text.starts_with(&format!("{}\nsub sp, sp, 64\nstr x29, [sp, 56]\nadd x29, sp, 64\nstr xzr, [x29, -64]\n", ARM_START)));
    // Without its shifts the program stops at its first 64-bit addition of registers.
    let unshifted: Vec<RiscVInstruction> = riscv_asm
        .into_iter()
        .filter(|instr| !matches!(instr, RiscVInstruction::Slli { .. }))
        .collect();
    assert_eq!(translate_instrs(unshifted.clone()), Err(TranslateError::UnsupportedWidth));
    // Without those too it lowers as a whole.
    let rest: Vec<RiscVInstruction> = unshifted
        .into_iter()
        .filter(|instr| !matches!(instr, RiscVInstruction::Add { width: RiscVWidth::Double, .. }))
        .collect();
    let count = rest.len();
    assert_eq!(translate_instrs(rest).unwrap().len(), count);
}
