use binary_room::instruction::{
    ArmInstruction, ArmRegister, ArmRegisterName, ArmVal, ArmWidth, RiscVInstruction,
    RiscVRegister, RiscVVal, RiscVWidth,
};
use binary_room::render::{
    render_instruction, render_program, render_register, render_val, RenderError,
};
use binary_room::translate::{map_register, translate};

fn x(name: ArmRegisterName) -> ArmRegister {
    ArmRegister { width: ArmWidth::Double, name }
}

fn w(name: ArmRegisterName) -> ArmRegister {
    ArmRegister { width: ArmWidth::Word, name }
}

fn text(s: &str) -> Option<String> {
    Some(s.to_string())
}

fn ok(s: &str) -> Result<String, RenderError> {
    Ok(s.to_string())
}

const GENERAL: [ArmRegisterName; 30] = [
    ArmRegisterName::X0,
    ArmRegisterName::X1,
    ArmRegisterName::X2,
    ArmRegisterName::X3,
    ArmRegisterName::X4,
    ArmRegisterName::X5,
    ArmRegisterName::X6,
    ArmRegisterName::X7,
    ArmRegisterName::X8,
    ArmRegisterName::X9,
    ArmRegisterName::X10,
    ArmRegisterName::X11,
    ArmRegisterName::X12,
    ArmRegisterName::X13,
    ArmRegisterName::X14,
    ArmRegisterName::X15,
    ArmRegisterName::X16,
    ArmRegisterName::X17,
    ArmRegisterName::X18,
    ArmRegisterName::X19,
    ArmRegisterName::X20,
    ArmRegisterName::X21,
    ArmRegisterName::X22,
    ArmRegisterName::X23,
    ArmRegisterName::X24,
    ArmRegisterName::X25,
    ArmRegisterName::X26,
    ArmRegisterName::X27,
    ArmRegisterName::X28,
    ArmRegisterName::X29,
];

const NARROW: [ArmWidth; 4] =
    [ArmWidth::Byte, ArmWidth::SignedByte, ArmWidth::Half, ArmWidth::SignedHalf];

#[test]
fn general_registers_are_numbered() {
    for (n, name) in GENERAL.iter().enumerate() {
        assert_eq!(render_register(&x(*name)), Some(format!("x{}", n)));
        assert_eq!(render_register(&w(*name)), Some(format!("w{}", n)));
        for width in NARROW {
            assert_eq!(render_register(&ArmRegister { width, name: *name }), None);
        }
    }
    assert_eq!(render_register(&x(ArmRegisterName::X0)), text("x0"));
    assert_eq!(render_register(&w(ArmRegisterName::X7)), text("w7"));
    assert_eq!(render_register(&x(ArmRegisterName::X8)), text("x8"));
    assert_eq!(render_register(&w(ArmRegisterName::X10)), text("w10"));
    assert_eq!(render_register(&x(ArmRegisterName::X29)), text("x29"));
}

#[test]
fn special_registers_have_their_names() {
    assert_eq!(render_register(&w(ArmRegisterName::Zero)), text("wzr"));
    assert_eq!(render_register(&x(ArmRegisterName::Zero)), text("xzr"));
    assert_eq!(render_register(&w(ArmRegisterName::Sp)), text("wsp"));
    assert_eq!(render_register(&x(ArmRegisterName::Sp)), text("sp"));
    assert_eq!(render_register(&w(ArmRegisterName::Lr)), text("w30"));
    assert_eq!(render_register(&x(ArmRegisterName::Lr)), text("lr"));
    assert_eq!(render_register(&x(ArmRegisterName::Pc)), text("pc"));
    assert_eq!(render_register(&w(ArmRegisterName::Pc)), None);
    for width in NARROW {
        for name in [ArmRegisterName::Zero, ArmRegisterName::Pc, ArmRegisterName::Sp, ArmRegisterName::Lr] {
            assert_eq!(render_register(&ArmRegister { width, name }), None);
        }
    }
}

#[test]
fn well_formed_registers() {
    for width in NARROW {
        assert!(!ArmRegister { width, name: ArmRegisterName::Zero }.is_well_formed());
        assert!(!ArmRegister { width, name: ArmRegisterName::Pc }.is_well_formed());
        assert!(ArmRegister { width, name: ArmRegisterName::X3 }.is_well_formed());
        assert_eq!(ArmRegister::new(width, ArmRegisterName::Zero), None);
        assert_eq!(
            ArmRegister::new(width, ArmRegisterName::Sp),
            Some(ArmRegister { width, name: ArmRegisterName::Sp })
        );
    }
    assert!(w(ArmRegisterName::Zero).is_well_formed());
    assert!(x(ArmRegisterName::Pc).is_well_formed());
    assert_eq!(ArmRegister::new(ArmWidth::Word, ArmRegisterName::Pc), Some(w(ArmRegisterName::Pc)));
    assert_eq!(ArmRegister::from(ArmRegisterName::Lr), x(ArmRegisterName::Lr));
    let link: ArmRegister = ArmRegisterName::Lr.into();
    assert_eq!(link, x(ArmRegisterName::Lr));
}

#[test]
fn operands_have_their_text() {
    assert_eq!(render_val(&ArmVal::Reg(w(ArmRegisterName::X5))), text("w5"));
    assert_eq!(render_val(&ArmVal::Reg(ArmRegister { width: ArmWidth::Byte, name: ArmRegisterName::X5 })), None);
    assert_eq!(render_val(&ArmVal::Imm(0)), text("0"));
    assert_eq!(render_val(&ArmVal::Imm(7)), text("7"));
    assert_eq!(render_val(&ArmVal::Imm(10)), text("10"));
    assert_eq!(render_val(&ArmVal::Imm(1000)), text("1000"));
    assert_eq!(render_val(&ArmVal::Imm(-20)), text("-20"));
    assert_eq!(render_val(&ArmVal::Imm(i32::MAX)), text("2147483647"));
    assert_eq!(render_val(&ArmVal::Imm(i32::MIN)), text("-2147483648"));
    assert_eq!(render_val(&ArmVal::RegOffset(x(ArmRegisterName::Sp), 24)), text("[sp, 24]"));
    // The base of an address is a 64-bit register, whatever the access.
    assert_eq!(render_val(&ArmVal::RegOffset(w(ArmRegisterName::X29), -20)), text("[x29, -20]"));
    assert_eq!(render_val(&ArmVal::RegOffset(w(ArmRegisterName::Zero), 0)), text("[xzr, 0]"));
    // A register that has no name at its own width is refused here too.
    for width in NARROW {
        for name in [ArmRegisterName::Zero, ArmRegisterName::Sp, ArmRegisterName::X29] {
            assert_eq!(render_val(&ArmVal::RegOffset(ArmRegister { width, name }, 0)), None);
        }
    }
    assert_eq!(render_val(&ArmVal::RegOffset(w(ArmRegisterName::Pc), 0)), None);
    assert_eq!(render_val(&ArmVal::RegOffset(x(ArmRegisterName::Pc), 8)), text("[pc, 8]"));
    assert_eq!(render_val(&ArmVal::LabelOffset("buf".to_string(), 0)), text("buf"));
    assert_eq!(render_val(&ArmVal::LabelOffset("buf".to_string(), 9998)), text("buf"));
    assert_eq!(render_val(&ArmVal::LabelOffset("buf".to_string(), 9999)), text(":lo12:buf"));
    assert_eq!(render_val(&ArmVal::LabelOffset("buf".to_string(), 4)), text("[buf, 4]"));
    assert_eq!(render_val(&ArmVal::LabelOffset("buf".to_string(), -8)), text("[buf, -8]"));
    assert_eq!(render_val(&ArmVal::LabelOffset("buf".to_string(), 9997)), text("[buf, 9997]"));
}

#[test]
fn instructions_have_their_text() {
    let target = ArmVal::LabelOffset(".end".to_string(), 0);
    let x3 = x(ArmRegisterName::X3);
    let zero = x(ArmRegisterName::Zero);
    let cases = vec![
        (
            ArmInstruction::Add { dest: x(ArmRegisterName::X29), arg1: x(ArmRegisterName::Sp), arg2: ArmVal::Imm(32) },
            "add x29, sp, 32",
        ),
        (
            ArmInstruction::Add {
                dest: w(ArmRegisterName::X5),
                arg1: w(ArmRegisterName::X4),
                arg2: ArmVal::Reg(w(ArmRegisterName::X5)),
            },
            "add w5, w4, w5",
        ),
        (
            ArmInstruction::Add {
                dest: x(ArmRegisterName::X1),
                arg1: x(ArmRegisterName::X0),
                arg2: ArmVal::LabelOffset("buf".to_string(), 9999),
            },
            "add x1, x0, :lo12:buf",
        ),
        (
            ArmInstruction::Sub { dest: x3, arg1: x3, arg2: ArmVal::Imm(1) },
            "sub x3, x3, 1",
        ),
        (
            ArmInstruction::Adrp {
                dest: x(ArmRegisterName::X0),
                label: ArmVal::LabelOffset("buf".to_string(), 9998),
            },
            "adrp x0, buf",
        ),
        (ArmInstruction::B { target: ArmVal::LabelOffset(".loop".to_string(), 0) }, "b .loop"),
        (ArmInstruction::Ble { arg1: x3, arg2: zero, target: target.clone() }, "cmp x3, xzr\nble .end"),
        (ArmInstruction::Bge { arg1: x3, arg2: zero, target: target.clone() }, "cmp x3, xzr\nbge .end"),
        (ArmInstruction::Blt { arg1: x3, arg2: zero, target: target.clone() }, "cmp x3, xzr\nblt .end"),
        (ArmInstruction::Bgt { arg1: x3, arg2: zero, target: target.clone() }, "cmp x3, xzr\nbgt .end"),
        (ArmInstruction::Bne { arg1: x3, arg2: zero, target: target.clone() }, "cmp x3, xzr\nbne .end"),
        (ArmInstruction::Blr { target: ArmRegisterName::Lr }, "blr lr"),
        (ArmInstruction::Blr { target: ArmRegisterName::X9 }, "blr x9"),
        (ArmInstruction::Bl { target: ArmVal::LabelOffset("syscall".to_string(), 0) }, "bl syscall"),
        (ArmInstruction::Label { name: ".loop".to_string() }, ".loop:"),
        (
            ArmInstruction::Directive { name: "type".to_string(), operands: "main, %function".to_string() },
            ".type main, %function",
        ),
        (
            ArmInstruction::Ldr {
                width: ArmWidth::Word,
                dest: w(ArmRegisterName::X5),
                src: ArmVal::RegOffset(w(ArmRegisterName::X29), -20),
            },
            "ldr w5, [x29, -20]",
        ),
        (
            ArmInstruction::Str {
                width: ArmWidth::Double,
                src: x(ArmRegisterName::Lr),
                dest: ArmVal::RegOffset(x(ArmRegisterName::Sp), 24),
            },
            "str lr, [sp, 24]",
        ),
        (
            ArmInstruction::Mov { width: ArmWidth::Double, dest: x(ArmRegisterName::X8), src: ArmVal::Imm(64) },
            "mov x8, 64",
        ),
        (ArmInstruction::Ret, "ret"),
        (ArmInstruction::Sxtw { dest: x(ArmRegisterName::X5), src: w(ArmRegisterName::X5) }, "sxtw x5, w5"),
        (ArmInstruction::Svc { id: 0 }, "svc #0"),
        (ArmInstruction::Svc { id: 4294967295 }, "svc #4294967295"),
        (ArmInstruction::Verbatim { text: "\n.text\n".to_string() }, "\n.text\n"),
    ];
    for (instr, expected) in cases {
        assert_eq!(render_instruction(&instr), ok(expected));
    }
}

#[test]
fn what_has_no_text_is_refused() {
    let byte_zero = ArmRegister { width: ArmWidth::Byte, name: ArmRegisterName::Zero };
    let x0 = x(ArmRegisterName::X0);
    assert_eq!(render_instruction(&ArmInstruction::Adc), Err(RenderError::Unsupported));
    assert_eq!(render_instruction(&ArmInstruction::And), Err(RenderError::Unsupported));
    assert_eq!(
        render_instruction(&ArmInstruction::Add { dest: byte_zero, arg1: x0, arg2: ArmVal::Imm(0) }),
        Err(RenderError::InvalidRegister)
    );
    assert_eq!(
        render_instruction(&ArmInstruction::Add { dest: x0, arg1: x0, arg2: ArmVal::Reg(byte_zero) }),
        Err(RenderError::InvalidRegister)
    );
    assert_eq!(
        render_instruction(&ArmInstruction::Ble { arg1: x0, arg2: byte_zero, target: ArmVal::Imm(0) }),
        Err(RenderError::InvalidRegister)
    );
    assert_eq!(
        render_instruction(&ArmInstruction::Blr { target: ArmRegisterName::Pc }),
        ok("blr pc")
    );
    assert_eq!(
        render_instruction(&ArmInstruction::Ldr {
            width: ArmWidth::Double,
            dest: x0,
            src: ArmVal::RegOffset(byte_zero, 0),
        }),
        Err(RenderError::InvalidRegister)
    );
    assert_eq!(
        render_instruction(&ArmInstruction::Sxtw { dest: x0, src: w(ArmRegisterName::Pc) }),
        Err(RenderError::InvalidRegister)
    );
    for width in NARROW {
        assert_eq!(
            render_instruction(&ArmInstruction::Ldr { width, dest: x0, src: ArmVal::Imm(0) }),
            Err(RenderError::Unsupported)
        );
        assert_eq!(
            render_instruction(&ArmInstruction::Str { width, src: x0, dest: ArmVal::Imm(0) }),
            Err(RenderError::Unsupported)
        );
    }
}

#[test]
fn a_program_is_rendered_line_by_line() {
    assert_eq!(render_program(&vec![]), ok(""));
    let program = vec![
        ArmInstruction::Label { name: "main".to_string() },
        ArmInstruction::Mov { width: ArmWidth::Double, dest: x(ArmRegisterName::X8), src: ArmVal::Imm(93) },
        ArmInstruction::Svc { id: 0 },
    ];
    assert_eq!(render_program(&program), ok("main:\nmov x8, 93\nsvc #0\n"));
    let mut broken = program.clone();
    broken.push(ArmInstruction::Adc);
    broken.push(ArmInstruction::Mov {
        width: ArmWidth::Double,
        dest: ArmRegister { width: ArmWidth::Half, name: ArmRegisterName::X8 },
        src: ArmVal::Imm(93),
    });
    assert_eq!(render_program(&broken), Err(RenderError::Unsupported));
}

#[test]
fn what_lowering_produces_has_a_text() {
    let registers = [
        RiscVRegister::X0,
        RiscVRegister::RA,
        RiscVRegister::SP,
        RiscVRegister::S0FP,
        RiscVRegister::A6,
        RiscVRegister::A7,
        RiscVRegister::T6,
    ];
    for reg in registers {
        for width in [RiscVWidth::Word, RiscVWidth::Double] {
            assert!(render_register(&map_register(reg, &width)).is_some());
            let store = RiscVInstruction::S {
                width,
                src: reg,
                dest: RiscVVal::Offset { register: reg, offset: -8 },
            };
            for arm in translate(store).unwrap() {
                assert!(render_instruction(&arm).is_ok());
            }
        }
    }
}
