//! Instructions in assembly notation.
//!
//! Registers are written `V0` to `VF`, addresses `0x` and three hexadecimal
//! digits, bytes `0x` and two, the height of a sprite `0x` and one, scroll
//! distances in decimal. A word that is no instruction is written as data,
//! `DB`, `0x` and four digits.
use super::op::ChipOp;
use vstd::prelude::*;
use vstd::string::StringExecFns;

verus! {

/// The character of one digit, upper case from ten on.
pub open spec fn digit_char(digit: int) -> char {
    if digit < 10 {
        (digit + 0x30) as char
    } else {
        (digit - 10 + 0x41) as char
    }
}

/// `value` in the given base, 10 or 16, with at least `least` digits,
/// zeros in front where it has fewer.
pub open spec fn numeral(value: nat, base: nat, least: nat) -> Seq<char>
    decreases value + least,
    via numeral_shrinks
{
    if base < 2 {
        Seq::empty()
    } else if value < base && least <= 1 {
        seq![digit_char(value as int)]
    } else {
        numeral(
            value / base,
            base,
            if least > 0 {
                (least - 1) as nat
            } else {
                0
            },
        ).push(digit_char((value % base) as int))
    }
}

#[via_fn]
proof fn numeral_shrinks(value: nat, base: nat, least: nat) {
    if base >= 2 && !(value < base && least <= 1) {
        assert(value / base <= value && (value >= base ==> value / base < value))
            by (nonlinear_arith)
            requires
                base >= 2,
        ;
    }
}

/// `Vx`.
pub open spec fn reg(x: usize) -> Seq<char> {
    "V"@ + numeral(x as nat, 16, 1)
}

/// `0x` and at least two hexadecimal digits.
pub open spec fn byte_hex(value: u8) -> Seq<char> {
    "0x"@ + numeral(value as nat, 16, 2)
}

/// `0x` and at least `least` hexadecimal digits.
pub open spec fn hex(value: nat, least: nat) -> Seq<char> {
    "0x"@ + numeral(value, 16, least)
}

/// An address: `0x` and at least three hexadecimal digits.
pub open spec fn addr_hex(value: nat) -> Seq<char> {
    hex(value, 3)
}

/// The instruction in assembly notation.
pub open spec fn mnemonic_spec(op: ChipOp) -> Seq<char> {
    match op {
        ChipOp::ScdN { n } => "SCD "@ + numeral(n as nat, 10, 1),
        ChipOp::ScuN { n } => "SCU "@ + numeral(n as nat, 10, 1),
        ChipOp::Cls => "CLS"@,
        ChipOp::Ret => "RET"@,
        ChipOp::Scr => "SCR"@,
        ChipOp::Scl => "SCL"@,
        ChipOp::Exit => "EXIT"@,
        ChipOp::LowRes => "LOW"@,
        ChipOp::HighRes => "HIGH"@,
        ChipOp::JpNnn { nnn } => "JP "@ + addr_hex(nnn as nat),
        ChipOp::CallNnn { nnn } => "CALL "@ + addr_hex(nnn as nat),
        ChipOp::SeVxNn { x, nn } => "SE "@ + reg(x) + ", "@ + byte_hex(nn),
        ChipOp::SneVxNn { x, nn } => "SNE "@ + reg(x) + ", "@ + byte_hex(nn),
        ChipOp::SeVxVy { x, y } => "SE "@ + reg(x) + ", "@ + reg(y),
        ChipOp::LdVxVyI { x, y } => "LD [I],"@ + reg(x) + "-"@ + reg(y),
        ChipOp::LdIVxVy { x, y } => "LD "@ + reg(x) + "-"@ + reg(y) + ",[I]"@,
        ChipOp::LdVxNn { x, nn } => "LD "@ + reg(x) + ", "@ + byte_hex(nn),
        ChipOp::AddVxNn { x, nn } => "ADD "@ + reg(x) + ", "@ + byte_hex(nn),
        ChipOp::LdVxVy { x, y } => "LD "@ + reg(x) + ", "@ + reg(y),
        ChipOp::OrVxVy { x, y } => "OR "@ + reg(x) + ", "@ + reg(y),
        ChipOp::AndVxVy { x, y } => "AND "@ + reg(x) + ", "@ + reg(y),
        ChipOp::XorVxVy { x, y } => "XOR "@ + reg(x) + ", "@ + reg(y),
        ChipOp::AddVxVy { x, y } => "ADD "@ + reg(x) + ", "@ + reg(y),
        ChipOp::SubVxVy { x, y } => "SUB "@ + reg(x) + ", "@ + reg(y),
        ChipOp::ShrVxVy { x, y } => "SHR "@ + reg(x) + ", "@ + reg(y),
        ChipOp::SubnVxVy { x, y } => "SUBN "@ + reg(x) + ", "@ + reg(y),
        ChipOp::ShlVxVy { x, y } => "SHL "@ + reg(x) + ", "@ + reg(y),
        ChipOp::SneVxVy { x, y } => "SNE "@ + reg(x) + ", "@ + reg(y),
        ChipOp::LdINnn { nnn } => "LD I, "@ + addr_hex(nnn as nat),
        ChipOp::JpV0Nnn { nnn } => "JP V0, "@ + addr_hex(nnn as nat),
        ChipOp::RndVxNn { x, nn } => "RND "@ + reg(x) + ", "@ + byte_hex(nn),
        ChipOp::DrwVxVyN { x, y, n } => "DRW "@ + reg(x) + ", "@ + reg(y) + ", "@ + hex(
            n as nat,
            1,
        ),
        ChipOp::SkpVx { x } => "SKP "@ + reg(x),
        ChipOp::SknpVx { x } => "SKNP "@ + reg(x),
        ChipOp::LdDtVx { x } => "LD DT, "@ + reg(x),
        ChipOp::LdVxDt { x } => "LD "@ + reg(x) + ", DT"@,
        ChipOp::LdVxK { x } => "LD "@ + reg(x) + ", K"@,
        ChipOp::LdStVx { x } => "LD ST, "@ + reg(x),
        ChipOp::AddIVx { x } => "ADD I, "@ + reg(x),
        ChipOp::LdFVx { x } => "LD F, "@ + reg(x),
        ChipOp::LdBVx { x } => "LD B, "@ + reg(x),
        ChipOp::LdIVx { x } => "LD [I], "@ + reg(x),
        ChipOp::LdVxI { x } => "LD "@ + reg(x) + ", [I]"@,
        ChipOp::Unknown(word) => "DB "@ + hex(word as nat, 4),
    }
}

/// One digit as text.
fn digit_text(digit: usize) -> (text: &'static str)
    requires
        digit < 16,
    ensures
        text@ == seq![digit_char(digit as int)],
{
    proof {
        reveal_strlit("0");
        reveal_strlit("1");
        reveal_strlit("2");
        reveal_strlit("3");
        reveal_strlit("4");
        reveal_strlit("5");
        reveal_strlit("6");
        reveal_strlit("7");
        reveal_strlit("8");
        reveal_strlit("9");
        reveal_strlit("A");
        reveal_strlit("B");
        reveal_strlit("C");
        reveal_strlit("D");
        reveal_strlit("E");
        reveal_strlit("F");
    }
    let text = match digit {
        0 => "0",
        1 => "1",
        2 => "2",
        3 => "3",
        4 => "4",
        5 => "5",
        6 => "6",
        7 => "7",
        8 => "8",
        9 => "9",
        10 => "A",
        11 => "B",
        12 => "C",
        13 => "D",
        14 => "E",
        _ => "F",
    };
    assert(text@ =~= seq![digit_char(digit as int)]);
    text
}

/// Writes `value` at the end of `out`, in base 10 or 16, with at least
/// `least` digits.
fn push_numeral(out: &mut String, value: usize, base: usize, least: usize)
    requires
        base == 10 || base == 16,
    ensures
        final(out)@ == old(out)@ + numeral(value as nat, base as nat, least as nat),
    decreases value + least,
{
    if value < base && least <= 1 {
        out.append(digit_text(value));
    } else {
        let fewer = if least > 0 {
            least - 1
        } else {
            0
        };
        push_numeral(out, value / base, base, fewer);
        out.append(digit_text(value % base));
        assert(out@ =~= old(out)@ + numeral(value as nat, base as nat, least as nat));
    }
}

/// Writes `Vx` at the end of `out`.
fn push_reg(out: &mut String, x: usize)
    ensures
        final(out)@ == old(out)@ + reg(x),
{
    out.append("V");
    push_numeral(out, x, 16, 1);
    assert(out@ =~= old(out)@ + reg(x));
}

/// Writes a byte at the end of `out`.
fn push_byte(out: &mut String, value: u8)
    ensures
        final(out)@ == old(out)@ + byte_hex(value),
{
    out.append("0x");
    push_numeral(out, value as usize, 16, 2);
    assert(out@ =~= old(out)@ + byte_hex(value));
}

/// Writes `0x` and `value` in at least `least` hexadecimal digits at the
/// end of `out`.
fn push_hex(out: &mut String, value: usize, least: usize)
    ensures
        final(out)@ == old(out)@ + hex(value as nat, least as nat),
{
    out.append("0x");
    push_numeral(out, value, 16, least);
    assert(out@ =~= old(out)@ + hex(value as nat, least as nat));
}

/// `name`, a register, `between`, a register, and `after`.
fn two_regs(name: &str, x: usize, between: &str, y: usize, after: &str) -> (text: String)
    ensures
        text@ == name@ + reg(x) + between@ + reg(y) + after@,
{
    let mut text = String::from_str(name);
    push_reg(&mut text, x);
    text.append(between);
    push_reg(&mut text, y);
    text.append(after);
    text
}

/// `name`, a register, a comma and a byte.
fn reg_byte(name: &str, x: usize, nn: u8) -> (text: String)
    ensures
        text@ == name@ + reg(x) + ", "@ + byte_hex(nn),
{
    let mut text = String::from_str(name);
    push_reg(&mut text, x);
    text.append(", ");
    push_byte(&mut text, nn);
    text
}

/// `name`, a register and `after`.
fn one_reg(name: &str, x: usize, after: &str) -> (text: String)
    ensures
        text@ == name@ + reg(x) + after@,
{
    let mut text = String::from_str(name);
    push_reg(&mut text, x);
    text.append(after);
    text
}

/// `name`, then `0x` and `value` in at least `least` hexadecimal digits.
fn with_hex(name: &str, value: usize, least: usize) -> (text: String)
    ensures
        text@ == name@ + hex(value as nat, least as nat),
{
    let mut text = String::from_str(name);
    push_hex(&mut text, value, least);
    text
}

/// `name` and a number in decimal.
fn with_count(name: &str, n: u8) -> (text: String)
    ensures
        text@ == name@ + numeral(n as nat, 10, 1),
{
    let mut text = String::from_str(name);
    push_numeral(&mut text, n as usize, 10, 1);
    text
}

impl ChipOp {
    /// The instruction in assembly notation.
    pub fn mnemonic(&self) -> (text: String)
        ensures
            text@ == mnemonic_spec(*self),
    {
        proof {
            reveal_strlit("");
        }
        let text = match *self {
            ChipOp::ScdN { n } => with_count("SCD ", n),
            ChipOp::ScuN { n } => with_count("SCU ", n),
            ChipOp::Cls => String::from_str("CLS"),
            ChipOp::Ret => String::from_str("RET"),
            ChipOp::Scr => String::from_str("SCR"),
            ChipOp::Scl => String::from_str("SCL"),
            ChipOp::Exit => String::from_str("EXIT"),
            ChipOp::LowRes => String::from_str("LOW"),
            ChipOp::HighRes => String::from_str("HIGH"),
            ChipOp::JpNnn { nnn } => with_hex("JP ", nnn, 3),
            ChipOp::CallNnn { nnn } => with_hex("CALL ", nnn, 3),
            ChipOp::SeVxNn { x, nn } => reg_byte("SE ", x, nn),
            ChipOp::SneVxNn { x, nn } => reg_byte("SNE ", x, nn),
            ChipOp::SeVxVy { x, y } => two_regs("SE ", x, ", ", y, ""),
            ChipOp::LdVxVyI { x, y } => two_regs("LD [I],", x, "-", y, ""),
            ChipOp::LdIVxVy { x, y } => two_regs("LD ", x, "-", y, ",[I]"),
            ChipOp::LdVxNn { x, nn } => reg_byte("LD ", x, nn),
            ChipOp::AddVxNn { x, nn } => reg_byte("ADD ", x, nn),
            ChipOp::LdVxVy { x, y } => two_regs("LD ", x, ", ", y, ""),
            ChipOp::OrVxVy { x, y } => two_regs("OR ", x, ", ", y, ""),
            ChipOp::AndVxVy { x, y } => two_regs("AND ", x, ", ", y, ""),
            ChipOp::XorVxVy { x, y } => two_regs("XOR ", x, ", ", y, ""),
            ChipOp::AddVxVy { x, y } => two_regs("ADD ", x, ", ", y, ""),
            ChipOp::SubVxVy { x, y } => two_regs("SUB ", x, ", ", y, ""),
            ChipOp::ShrVxVy { x, y } => two_regs("SHR ", x, ", ", y, ""),
            ChipOp::SubnVxVy { x, y } => two_regs("SUBN ", x, ", ", y, ""),
            ChipOp::ShlVxVy { x, y } => two_regs("SHL ", x, ", ", y, ""),
            ChipOp::SneVxVy { x, y } => two_regs("SNE ", x, ", ", y, ""),
            ChipOp::LdINnn { nnn } => with_hex("LD I, ", nnn, 3),
            ChipOp::JpV0Nnn { nnn } => with_hex("JP V0, ", nnn as usize, 3),
            ChipOp::RndVxNn { x, nn } => reg_byte("RND ", x, nn),
            ChipOp::DrwVxVyN { x, y, n } => {
                let mut text = two_regs("DRW ", x, ", ", y, ", ");
                push_hex(&mut text, n as usize, 1);
                text
            },
            ChipOp::SkpVx { x } => one_reg("SKP ", x, ""),
            ChipOp::SknpVx { x } => one_reg("SKNP ", x, ""),
            ChipOp::LdDtVx { x } => one_reg("LD DT, ", x, ""),
            ChipOp::LdVxDt { x } => one_reg("LD ", x, ", DT"),
            ChipOp::LdVxK { x } => one_reg("LD ", x, ", K"),
            ChipOp::LdStVx { x } => one_reg("LD ST, ", x, ""),
            ChipOp::AddIVx { x } => one_reg("ADD I, ", x, ""),
            ChipOp::LdFVx { x } => one_reg("LD F, ", x, ""),
            ChipOp::LdBVx { x } => one_reg("LD B, ", x, ""),
            ChipOp::LdIVx { x } => one_reg("LD [I], ", x, ""),
            ChipOp::LdVxI { x } => one_reg("LD ", x, ", [I]"),
            ChipOp::Unknown(word) => with_hex("DB ", word as usize, 4),
        };
        assert(text@ =~= mnemonic_spec(*self));
        text
    }
}

} // verus!
