use oxid8::chip8::op::ChipOp;

#[test]
fn system_instructions_read_as_documented() {
    assert_eq!(ChipOp::ScdN { n: 4 }.mnemonic(), "SCD 4");
    assert_eq!(ChipOp::ScuN { n: 2 }.mnemonic(), "SCU 2");
    assert_eq!(ChipOp::Cls.mnemonic(), "CLS");
    assert_eq!(ChipOp::Ret.mnemonic(), "RET");
    assert_eq!(ChipOp::Scr.mnemonic(), "SCR");
    assert_eq!(ChipOp::Scl.mnemonic(), "SCL");
    assert_eq!(ChipOp::Exit.mnemonic(), "EXIT");
    assert_eq!(ChipOp::HighRes.mnemonic(), "HIGH");
    assert_eq!(ChipOp::LowRes.mnemonic(), "LOW");
}

#[test]
fn jumps_and_skips_read_as_documented() {
    assert_eq!(ChipOp::JpNnn { nnn: 0x200 }.mnemonic(), "JP 0x200");
    assert_eq!(ChipOp::CallNnn { nnn: 0x2A0 }.mnemonic(), "CALL 0x2A0");
    assert_eq!(ChipOp::JpV0Nnn { nnn: 0x200 }.mnemonic(), "JP V0, 0x200");
    assert_eq!(ChipOp::SeVxNn { x: 5, nn: 0x20 }.mnemonic(), "SE V5, 0x20");
    assert_eq!(ChipOp::SneVxNn { x: 3, nn: 0x40 }.mnemonic(), "SNE V3, 0x40");
    assert_eq!(ChipOp::SeVxVy { x: 2, y: 7 }.mnemonic(), "SE V2, V7");
    assert_eq!(ChipOp::SneVxVy { x: 1, y: 4 }.mnemonic(), "SNE V1, V4");
    assert_eq!(ChipOp::SkpVx { x: 5 }.mnemonic(), "SKP V5");
    assert_eq!(ChipOp::SknpVx { x: 2 }.mnemonic(), "SKNP V2");
}

#[test]
fn loads_read_as_documented() {
    assert_eq!(ChipOp::LdVxNn { x: 2, nn: 0x50 }.mnemonic(), "LD V2, 0x50");
    assert_eq!(ChipOp::LdVxVy { x: 3, y: 8 }.mnemonic(), "LD V3, V8");
    assert_eq!(ChipOp::LdINnn { nnn: 0x300 }.mnemonic(), "LD I, 0x300");
    assert_eq!(ChipOp::LdVxDt { x: 6 }.mnemonic(), "LD V6, DT");
    assert_eq!(ChipOp::LdDtVx { x: 2 }.mnemonic(), "LD DT, V2");
    assert_eq!(ChipOp::LdStVx { x: 5 }.mnemonic(), "LD ST, V5");
    assert_eq!(ChipOp::LdVxK { x: 4 }.mnemonic(), "LD V4, K");
    assert_eq!(ChipOp::LdFVx { x: 3 }.mnemonic(), "LD F, V3");
    assert_eq!(ChipOp::LdBVx { x: 7 }.mnemonic(), "LD B, V7");
    assert_eq!(ChipOp::LdIVx { x: 4 }.mnemonic(), "LD [I], V4");
    assert_eq!(ChipOp::LdVxI { x: 6 }.mnemonic(), "LD V6, [I]");
    assert_eq!(ChipOp::LdVxVyI { x: 2, y: 5 }.mnemonic(), "LD [I],V2-V5");
    assert_eq!(ChipOp::LdIVxVy { x: 1, y: 3 }.mnemonic(), "LD V1-V3,[I]");
}

#[test]
fn arithmetic_reads_as_documented() {
    assert_eq!(ChipOp::AddVxNn { x: 4, nn: 0x15 }.mnemonic(), "ADD V4, 0x15");
    assert_eq!(ChipOp::AddVxVy { x: 2, y: 6 }.mnemonic(), "ADD V2, V6");
    assert_eq!(ChipOp::SubVxVy { x: 5, y: 3 }.mnemonic(), "SUB V5, V3");
    assert_eq!(ChipOp::SubnVxVy { x: 1, y: 9 }.mnemonic(), "SUBN V1, V9");
    assert_eq!(ChipOp::AddIVx { x: 8 }.mnemonic(), "ADD I, V8");
    assert_eq!(ChipOp::OrVxVy { x: 3, y: 5 }.mnemonic(), "OR V3, V5");
    assert_eq!(ChipOp::AndVxVy { x: 2, y: 7 }.mnemonic(), "AND V2, V7");
    assert_eq!(ChipOp::XorVxVy { x: 4, y: 1 }.mnemonic(), "XOR V4, V1");
    assert_eq!(ChipOp::ShrVxVy { x: 6, y: 2 }.mnemonic(), "SHR V6, V2");
    assert_eq!(ChipOp::ShlVxVy { x: 3, y: 8 }.mnemonic(), "SHL V3, V8");
    assert_eq!(ChipOp::DrwVxVyN { x: 2, y: 4, n: 5 }.mnemonic(), "DRW V2, V4, 0x5");
    assert_eq!(ChipOp::RndVxNn { x: 7, nn: 0x0F }.mnemonic(), "RND V7, 0x0F");
}

#[test]
fn numbers_are_padded_and_never_cut() {
    assert_eq!(ChipOp::Unknown(0x0012).mnemonic(), "DB 0x0012");
    assert_eq!(ChipOp::Unknown(0xFFFF).mnemonic(), "DB 0xFFFF");
    assert_eq!(ChipOp::JpNnn { nnn: 0 }.mnemonic(), "JP 0x000");
    assert_eq!(ChipOp::JpNnn { nnn: 0x12345 }.mnemonic(), "JP 0x12345");
    assert_eq!(ChipOp::SkpVx { x: 0xF }.mnemonic(), "SKP VF");
    assert_eq!(ChipOp::SkpVx { x: 0x1A }.mnemonic(), "SKP V1A");
    assert_eq!(ChipOp::ScdN { n: 0 }.mnemonic(), "SCD 0");
    assert_eq!(ChipOp::ScdN { n: 255 }.mnemonic(), "SCD 255");
    assert_eq!(ChipOp::DrwVxVyN { x: 10, y: 11, n: 15 }.mnemonic(), "DRW VA, VB, 0xF");
    assert_eq!(ChipOp::DrwVxVyN { x: 0, y: 0, n: 0x1F }.mnemonic(), "DRW V0, V0, 0x1F");
    assert_eq!(ChipOp::LdVxNn { x: 0, nn: 0 }.mnemonic(), "LD V0, 0x00");
}
