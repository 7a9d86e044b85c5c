use vm::opcodes::Opcode;
use vm::parser::{opcode, ParseError};
use vm::register::Register;

#[test]
fn test_opcode() {
    // Get the list of opcode names
    let mut inputs = vec![];
    for opcode in Opcode::variants().iter() {
        inputs.push(*opcode);
    }

    // Test each opcode
    for test_case in inputs {
        let result = opcode(test_case.as_bytes());
        assert!(result.is_ok(), "Failed to parse '{}'", test_case);
    }
}

#[test]
fn every_variant_name_parses_to_its_opcode() {
    let names = Opcode::variants();
    let all = Opcode::all();
    assert_eq!(names.len(), 33);
    assert_eq!(all.len(), 33);
    for (name, op) in names.iter().zip(all.iter()) {
        assert_eq!(op.name(), *name);
        assert_eq!(opcode(name.as_bytes()), Ok((&b""[..], *op)));
        assert_eq!(opcode(&op.mnemonic()), Ok((&b""[..], *op)));
        assert_eq!(op.mnemonic(), name.to_lowercase().into_bytes());
    }
    assert_eq!(names[0], "Nop");
    assert_eq!(names[1], "Hlt");
    assert_eq!(names[12], "Or");
    assert_eq!(names[25], "Jz");
    assert_eq!(names[32], "Cal");
}

#[test]
fn parser_ignores_case_and_returns_the_rest() {
    assert_eq!(opcode(b"mov r1, r2"), Ok((&b" r1, r2"[..], Opcode::Mov)));
    assert_eq!(opcode(b"MOV"), Ok((&b""[..], Opcode::Mov)));
    assert_eq!(opcode(b"mOv!"), Ok((&b"!"[..], Opcode::Mov)));
    assert_eq!(opcode(b"jz"), Ok((&b""[..], Opcode::Jz)));
    assert_eq!(opcode(b"JZX"), Ok((&b"X"[..], Opcode::Jz)));
    assert_eq!(opcode(b"jnz"), Ok((&b""[..], Opcode::Jnz)));
    assert_eq!(opcode(b"or"), Ok((&b""[..], Opcode::Or)));
    assert_eq!(opcode(b"orx"), Ok((&b"x"[..], Opcode::Or)));
    assert_eq!(opcode(b"xor"), Ok((&b""[..], Opcode::Xor)));
    assert_eq!(opcode(b"nopnop"), Ok((&b"nop"[..], Opcode::Nop)));
    assert_eq!(opcode(b"hlt"), Ok((&b""[..], Opcode::Hlt)));
}

#[test]
fn parser_rejects_what_is_no_mnemonic() {
    assert_eq!(opcode(b""), Err(ParseError::UnknownMnemonic));
    assert_eq!(opcode(b"j"), Err(ParseError::UnknownMnemonic));
    assert_eq!(opcode(b"mo"), Err(ParseError::UnknownMnemonic));
    assert_eq!(opcode(b" mov"), Err(ParseError::UnknownMnemonic));
    assert_eq!(opcode(b"xyz"), Err(ParseError::UnknownMnemonic));
    assert_eq!(opcode(b"m\x4fv"), Ok((&b""[..], Opcode::Mov)));
    assert_eq!(opcode(b"m\x8fv"), Err(ParseError::UnknownMnemonic));
    assert_eq!(opcode(b"\x4e\x6f\x50"), Ok((&b""[..], Opcode::Nop)));
    assert_eq!(opcode(b"[ov"), Err(ParseError::UnknownMnemonic));
    assert_eq!(opcode(b"@dd"), Err(ParseError::UnknownMnemonic));
}

#[test]
fn register_names_round_trip() {
    let expected = [
        "accumulator",
        "instruction_pointer",
        "stack_pointer",
        "frame_pointer",
        "frame_size",
        "arg_count",
        "reg_1",
        "reg_2",
        "reg_3",
        "reg_4",
        "reg_5",
        "reg_6",
        "reg_7",
        "reg_8",
    ];
    for (r, name) in Register::all().into_iter().zip(expected) {
        assert_eq!(r.to_string(), name);
        assert_eq!(Register::from_name(name), Some(r));
    }
}

#[test]
fn unknown_register_names() {
    assert_eq!(Register::from_name(""), None);
    assert_eq!(Register::from_name("reg_0"), None);
    assert_eq!(Register::from_name("reg_9"), None);
    assert_eq!(Register::from_name("Accumulator"), None);
    assert_eq!(Register::from_name("reg_1 "), None);
}
