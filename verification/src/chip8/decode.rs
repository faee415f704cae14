//! From instruction words to instructions.
use super::op::ChipOp;
use vstd::prelude::*;

verus! {

/// The register number in the second nibble of `op`.
pub open spec fn field_x(op: u16) -> usize {
    (op / 256 % 16) as usize
}

/// The register number in the third nibble of `op`.
pub open spec fn field_y(op: u16) -> usize {
    (op / 16 % 16) as usize
}

/// The last nibble of `op`.
pub open spec fn field_n(op: u16) -> u8 {
    (op % 16) as u8
}

/// The low byte of `op`.
pub open spec fn field_nn(op: u16) -> u8 {
    (op % 256) as u8
}

/// The low twelve bits of `op`.
pub open spec fn field_nnn(op: u16) -> u16 {
    (op % 4096) as u16
}

/// The instruction that the word `op` stands for. The first nibble picks
/// the family; the last nibble or the low byte picks the member where a
/// family has several.
pub open spec fn decode_spec(op: u16) -> ChipOp {
    let x = field_x(op);
    let y = field_y(op);
    let n = field_n(op);
    let nn = field_nn(op);
    let nnn = field_nnn(op);
    let family = op / 4096;
    if family == 0x0 {
        if op == 0x00E0 {
            ChipOp::Cls
        } else if op == 0x00EE {
            ChipOp::Ret
        } else if op == 0x00FD {
            ChipOp::Exit
        } else if op == 0x00FE {
            ChipOp::LowRes
        } else if op == 0x00FF {
            ChipOp::HighRes
        } else {
            ChipOp::Unknown(op)
        }
    } else if family == 0x1 {
        ChipOp::JpNnn { nnn: nnn as usize }
    } else if family == 0x2 {
        ChipOp::CallNnn { nnn: nnn as usize }
    } else if family == 0x3 {
        ChipOp::SeVxNn { x, nn }
    } else if family == 0x4 {
        ChipOp::SneVxNn { x, nn }
    } else if family == 0x5 {
        if n == 0 {
            ChipOp::SeVxVy { x, y }
        } else {
            ChipOp::Unknown(op)
        }
    } else if family == 0x6 {
        ChipOp::LdVxNn { x, nn }
    } else if family == 0x7 {
        ChipOp::AddVxNn { x, nn }
    } else if family == 0x8 {
        if n == 0x0 {
            ChipOp::LdVxVy { x, y }
        } else if n == 0x1 {
            ChipOp::OrVxVy { x, y }
        } else if n == 0x2 {
            ChipOp::AndVxVy { x, y }
        } else if n == 0x3 {
            ChipOp::XorVxVy { x, y }
        } else if n == 0x4 {
            ChipOp::AddVxVy { x, y }
        } else if n == 0x5 {
            ChipOp::SubVxVy { x, y }
        } else if n == 0x6 {
            ChipOp::ShrVxVy { x, y }
        } else if n == 0x7 {
            ChipOp::SubnVxVy { x, y }
        } else if n == 0xE {
            ChipOp::ShlVxVy { x, y }
        } else {
            ChipOp::Unknown(op)
        }
    } else if family == 0x9 {
        if n == 0 {
            ChipOp::SneVxVy { x, y }
        } else {
            ChipOp::Unknown(op)
        }
    } else if family == 0xA {
        ChipOp::LdINnn { nnn: nnn as usize }
    } else if family == 0xB {
        ChipOp::JpV0Nnn { nnn }
    } else if family == 0xC {
        ChipOp::RndVxNn { x, nn }
    } else if family == 0xD {
        ChipOp::DrwVxVyN { x, y, n }
    } else if family == 0xE {
        if nn == 0x9E {
            ChipOp::SkpVx { x }
        } else if nn == 0xA1 {
            ChipOp::SknpVx { x }
        } else {
            ChipOp::Unknown(op)
        }
    } else {
        if nn == 0x15 {
            ChipOp::LdDtVx { x }
        } else if nn == 0x07 {
            ChipOp::LdVxDt { x }
        } else if nn == 0x0A {
            ChipOp::LdVxK { x }
        } else if nn == 0x18 {
            ChipOp::LdStVx { x }
        } else if nn == 0x1E {
            ChipOp::AddIVx { x }
        } else if nn == 0x29 {
            ChipOp::LdFVx { x }
        } else if nn == 0x33 {
            ChipOp::LdBVx { x }
        } else if nn == 0x55 {
            ChipOp::LdIVx { x }
        } else if nn == 0x65 {
            ChipOp::LdVxI { x }
        } else {
            ChipOp::Unknown(op)
        }
    }
}

/// How the masks and shifts of the decoder read the fields of a word.
proof fn lemma_fields(op: u16)
    ensures
        op & 0xF000 == (op / 4096) * 4096,
        op / 4096 < 16,
        op & 0x0FFF == op % 4096,
        op & 0x00FF == op % 256,
        op & 0x000F == op % 16,
        (op & 0x0F00) >> 8 == op / 256 % 16,
        (op & 0x00F0) >> 4 == op / 16 % 16,
{
    assert(op & 0xF000 == (op / 4096) * 4096) by (bit_vector);
    assert(op / 4096 < 16) by (bit_vector);
    assert(op & 0x0FFF == op % 4096) by (bit_vector);
    assert(op & 0x00FF == op % 256) by (bit_vector);
    assert(op & 0x000F == op % 16) by (bit_vector);
    assert((op & 0x0F00) >> 8 == op / 256 % 16) by (bit_vector);
    assert((op & 0x00F0) >> 4 == op / 16 % 16) by (bit_vector);
}

/// Decodes one instruction word. Every word decodes; a word that is no
/// instruction comes back as `Unknown`.
pub fn decode(op: u16) -> (r: ChipOp)
    ensures
        r == decode_spec(op),
{
    proof {
        lemma_fields(op);
    }
    match op & 0xF000 {
        0x0000 => match op {
            0x00E0 => ChipOp::Cls,
            0x00EE => ChipOp::Ret,
            0x00FD => ChipOp::Exit,
            0x00FE => ChipOp::LowRes,
            0x00FF => ChipOp::HighRes,
            _ => ChipOp::Unknown(op),
        },
        0x1000 => ChipOp::JpNnn { nnn: (op & 0x0FFF) as usize },
        0x2000 => ChipOp::CallNnn { nnn: (op & 0x0FFF) as usize },
        0x3000 => ChipOp::SeVxNn { x: ((op & 0x0F00) >> 8) as usize, nn: (op & 0x00FF) as u8 },
        0x4000 => ChipOp::SneVxNn { x: ((op & 0x0F00) >> 8) as usize, nn: (op & 0x00FF) as u8 },
        0x5000 => match op & 0x000F {
            0x0000 => ChipOp::SeVxVy {
                x: ((op & 0x0F00) >> 8) as usize,
                y: ((op & 0x00F0) >> 4) as usize,
            },
            _ => ChipOp::Unknown(op),
        },
        0x6000 => ChipOp::LdVxNn { x: ((op & 0x0F00) >> 8) as usize, nn: (op & 0x00FF) as u8 },
        0x7000 => ChipOp::AddVxNn { x: ((op & 0x0F00) >> 8) as usize, nn: (op & 0x00FF) as u8 },
        0x8000 => {
            let x = ((op & 0x0F00) >> 8) as usize;
            let y = ((op & 0x00F0) >> 4) as usize;
            match op & 0x000F {
                0x0000 => ChipOp::LdVxVy { x, y },
                0x0001 => ChipOp::OrVxVy { x, y },
                0x0002 => ChipOp::AndVxVy { x, y },
                0x0003 => ChipOp::XorVxVy { x, y },
                0x0004 => ChipOp::AddVxVy { x, y },
                0x0005 => ChipOp::SubVxVy { x, y },
                0x0006 => ChipOp::ShrVxVy { x, y },
                0x0007 => ChipOp::SubnVxVy { x, y },
                0x000E => ChipOp::ShlVxVy { x, y },
                _ => ChipOp::Unknown(op),
            }
        },
        0x9000 => match op & 0x000F {
            0x0000 => ChipOp::SneVxVy {
                x: ((op & 0x0F00) >> 8) as usize,
                y: ((op & 0x00F0) >> 4) as usize,
            },
            _ => ChipOp::Unknown(op),
        },
        0xA000 => ChipOp::LdINnn { nnn: (op & 0x0FFF) as usize },
        0xB000 => ChipOp::JpV0Nnn { nnn: op & 0x0FFF },
        0xC000 => ChipOp::RndVxNn { x: ((op & 0x0F00) >> 8) as usize, nn: (op & 0x00FF) as u8 },
        0xD000 => ChipOp::DrwVxVyN {
            x: ((op & 0x0F00) >> 8) as usize,
            y: ((op & 0x00F0) >> 4) as usize,
            n: (op & 0x000F) as u8,
        },
        0xE000 => match op & 0x00FF {
            0x009E => ChipOp::SkpVx { x: ((op & 0x0F00) >> 8) as usize },
            0x00A1 => ChipOp::SknpVx { x: ((op & 0x0F00) >> 8) as usize },
            _ => ChipOp::Unknown(op),
        },
        0xF000 => {
            let x = ((op & 0x0F00) >> 8) as usize;
            match op & 0x00FF {
                0x0015 => ChipOp::LdDtVx { x },
                0x0007 => ChipOp::LdVxDt { x },
                0x000A => ChipOp::LdVxK { x },
                0x0018 => ChipOp::LdStVx { x },
                0x001E => ChipOp::AddIVx { x },
                0x0029 => ChipOp::LdFVx { x },
                0x0033 => ChipOp::LdBVx { x },
                0x0055 => ChipOp::LdIVx { x },
                0x0065 => ChipOp::LdVxI { x },
                _ => ChipOp::Unknown(op),
            }
        },
        _ => ChipOp::Unknown(op),
    }
}

} // verus!
