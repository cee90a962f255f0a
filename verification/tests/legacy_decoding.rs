use chip_8::opcodes::{decode, Opcode};

#[test]
#[allow(non_snake_case)]
fn it_decodes_CLS() {
    let bytes: u16 = 0x00E0;
    let opcode = decode(bytes).unwrap();

    assert_eq!(Opcode::CLS, opcode);
}

#[test]
#[allow(non_snake_case)]
fn it_decodes_RET() {
    let bytes: u16 = 0x00EE;
    let opcode = decode(bytes).unwrap();

    assert_eq!(Opcode::RET, opcode);
}

#[test]
#[allow(non_snake_case)]
fn it_decodes_JP() {
    let bytes: u16 = 0x1A1E;
    let opcode = decode(bytes).unwrap();

    let expected = Opcode::JP(0x0A1E);

    assert_eq!(expected, opcode);
}

#[test]
#[allow(non_snake_case)]
fn it_decodes_CALL() {
    let bytes: u16 = 0x2A1E;
    let opcode = decode(bytes).unwrap();

    let expected = Opcode::CALL(0x0A1E);

    assert_eq!(expected, opcode);
}

#[test]
#[allow(non_snake_case)]
fn it_decodes_SE() {
    let bytes: u16 = 0x3122;
    let opcode = decode(bytes).unwrap();

    let expected = Opcode::SE(0x01, 0x22);

    assert_eq!(expected, opcode);
}

#[test]
#[allow(non_snake_case)]
fn it_decodes_SNE() {
    let bytes: u16 = 0x4122;
    let opcode = decode(bytes).unwrap();

    let expected = Opcode::SNE(0x01, 0x22);

    assert_eq!(expected, opcode);
}
