use oxid8::chip8::decode::decode;
use oxid8::chip8::op::ChipOp;

#[test]
fn decodes_the_fixed_words() {
    assert_eq!(decode(0x00E0), ChipOp::Cls);
    assert_eq!(decode(0x00EE), ChipOp::Ret);
    assert_eq!(decode(0x00FD), ChipOp::Exit);
    assert_eq!(decode(0x00FE), ChipOp::LowRes);
    assert_eq!(decode(0x00FF), ChipOp::HighRes);
}

#[test]
fn decodes_addresses() {
    assert_eq!(decode(0x1ABC), ChipOp::JpNnn { nnn: 0xABC });
    assert_eq!(decode(0x2200), ChipOp::CallNnn { nnn: 0x200 });
    assert_eq!(decode(0xA123), ChipOp::LdINnn { nnn: 0x123 });
    assert_eq!(decode(0xBFFF), ChipOp::JpV0Nnn { nnn: 0xFFF });
}

#[test]
fn decodes_register_and_byte() {
    assert_eq!(decode(0x3A42), ChipOp::SeVxNn { x: 0xA, nn: 0x42 });
    assert_eq!(decode(0x4B01), ChipOp::SneVxNn { x: 0xB, nn: 0x01 });
    assert_eq!(decode(0x6C10), ChipOp::LdVxNn { x: 0xC, nn: 0x10 });
    assert_eq!(decode(0x7DFF), ChipOp::AddVxNn { x: 0xD, nn: 0xFF });
    assert_eq!(decode(0xCE0F), ChipOp::RndVxNn { x: 0xE, nn: 0x0F });
}

#[test]
fn decodes_two_registers() {
    assert_eq!(decode(0x5120), ChipOp::SeVxVy { x: 1, y: 2 });
    assert_eq!(decode(0x8120), ChipOp::LdVxVy { x: 1, y: 2 });
    assert_eq!(decode(0x8121), ChipOp::OrVxVy { x: 1, y: 2 });
    assert_eq!(decode(0x8122), ChipOp::AndVxVy { x: 1, y: 2 });
    assert_eq!(decode(0x8123), ChipOp::XorVxVy { x: 1, y: 2 });
    assert_eq!(decode(0x8124), ChipOp::AddVxVy { x: 1, y: 2 });
    assert_eq!(decode(0x8125), ChipOp::SubVxVy { x: 1, y: 2 });
    assert_eq!(decode(0x8126), ChipOp::ShrVxVy { x: 1, y: 2 });
    assert_eq!(decode(0x8127), ChipOp::SubnVxVy { x: 1, y: 2 });
    assert_eq!(decode(0x812E), ChipOp::ShlVxVy { x: 1, y: 2 });
    assert_eq!(decode(0x9120), ChipOp::SneVxVy { x: 1, y: 2 });
    assert_eq!(decode(0xD125), ChipOp::DrwVxVyN { x: 1, y: 2, n: 5 });
}

#[test]
fn decodes_one_register() {
    assert_eq!(decode(0xE39E), ChipOp::SkpVx { x: 3 });
    assert_eq!(decode(0xE3A1), ChipOp::SknpVx { x: 3 });
    assert_eq!(decode(0xF307), ChipOp::LdVxDt { x: 3 });
    assert_eq!(decode(0xF30A), ChipOp::LdVxK { x: 3 });
    assert_eq!(decode(0xF315), ChipOp::LdDtVx { x: 3 });
    assert_eq!(decode(0xF318), ChipOp::LdStVx { x: 3 });
    assert_eq!(decode(0xF31E), ChipOp::AddIVx { x: 3 });
    assert_eq!(decode(0xF329), ChipOp::LdFVx { x: 3 });
    assert_eq!(decode(0xF333), ChipOp::LdBVx { x: 3 });
    assert_eq!(decode(0xF355), ChipOp::LdIVx { x: 3 });
    assert_eq!(decode(0xF365), ChipOp::LdVxI { x: 3 });
}

#[test]
fn words_that_are_no_instruction_come_back_unknown() {
    for word in [0x0000u16, 0x0123, 0x00C4, 0x00FB, 0x5121, 0x8128, 0x812F, 0x9121, 0xE300, 0xF3FF] {
        assert_eq!(decode(word), ChipOp::Unknown(word));
    }
}

#[test]
fn every_word_decodes_to_registers_in_range() {
    for word in 0..=u16::MAX {
        match decode(word) {
            ChipOp::SeVxVy { x, y } | ChipOp::DrwVxVyN { x, y, .. } | ChipOp::AddVxVy { x, y } => {
                assert!(x < 16 && y < 16)
            }
            ChipOp::JpNnn { nnn } | ChipOp::CallNnn { nnn } | ChipOp::LdINnn { nnn } => {
                assert!(nnn < 0x1000)
            }
            _ => {}
        }
    }
}
