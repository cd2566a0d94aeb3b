use gb_core::disasm::disassemble;

fn dis(bytes: &[u8]) -> (String, u16) {
    let v = bytes.to_vec();
    disassemble(move |a| v.get(a as usize).copied().unwrap_or(0), 0)
}

#[test]
fn basic_ops() {
    assert_eq!(dis(&[0x00]).0, "NOP");
    assert_eq!(dis(&[0x3E, 0x42]).0, "LD A,$42");
    assert_eq!(dis(&[0x21, 0x34, 0x12]).0, "LD HL,$1234");
    assert_eq!(dis(&[0xC3, 0x50, 0x01]).0, "JP $0150");
    assert_eq!(dis(&[0x78]).0, "LD A,B");
    assert_eq!(dis(&[0x86]).0, "ADD A, (HL)");
}

#[test]
fn jr_computes_target() {
    // JR -2 at addr 0 -> target 0
    assert_eq!(dis(&[0x18, 0xFE]).0, "JR $0000");
}

#[test]
fn cb_ops() {
    assert_eq!(dis(&[0xCB, 0x7C]).0, "BIT 7,H");
    assert_eq!(dis(&[0xCB, 0x37]).0, "SWAP A");
    assert_eq!(dis(&[0xCB, 0x37]).1, 2);
}

#[test]
fn lengths() {
    assert_eq!(dis(&[0x00]).1, 1);
    assert_eq!(dis(&[0x3E, 0x00]).1, 2);
    assert_eq!(dis(&[0xC3, 0x00, 0x00]).1, 3);
}

#[test]
fn halt_and_illegal_opcodes() {
    assert_eq!(dis(&[0x76]), ("HALT".to_string(), 1));
    assert_eq!(dis(&[0xD3]).1, 1);
}
