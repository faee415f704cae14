//! The instruction set.
use vstd::prelude::*;

verus! {

/// One instruction. `x` and `y` number registers, `nn` is a byte, `nnn` an
/// address and `n` a nibble.
#[allow(inconsistent_fields)]
#[derive(Clone, Copy, PartialEq, Eq, Debug, Structural)]
pub enum ChipOp {
    /// `SCD n`: scroll the display down by `n` rows.
    ScdN { n: u8 },
    /// `SCU n`: scroll the display up by `n` rows.
    ScuN { n: u8 },
    /// `CLS`: clear the display.
    Cls,
    /// `RET`: return from a subroutine.
    Ret,
    /// `SCR`: scroll the display right by four pixels.
    Scr,
    /// `SCL`: scroll the display left by four pixels.
    Scl,
    /// `EXIT`: stop the interpreter.
    Exit,
    /// `LOW`: low resolution.
    LowRes,
    /// `HIGH`: high resolution.
    HighRes,
    /// `JP nnn`: jump to `nnn`.
    JpNnn { nnn: usize },
    /// `CALL nnn`: call the subroutine at `nnn`.
    CallNnn { nnn: usize },
    /// `SE Vx, nn`: skip the next instruction if `Vx == nn`.
    SeVxNn { x: usize, nn: u8 },
    /// `SNE Vx, nn`: skip the next instruction if `Vx != nn`.
    SneVxNn { x: usize, nn: u8 },
    /// `SE Vx, Vy`: skip the next instruction if `Vx == Vy`.
    SeVxVy { x: usize, y: usize },
    /// `LD [I], Vx-Vy`: store `Vx` to `Vy` in memory from `I` on.
    LdVxVyI { x: usize, y: usize },
    /// `LD Vx-Vy, [I]`: load `Vx` to `Vy` from memory at `I`.
    LdIVxVy { x: usize, y: usize },
    /// `LD Vx, nn`: set `Vx` to `nn`.
    LdVxNn { x: usize, nn: u8 },
    /// `ADD Vx, nn`: add `nn` to `Vx`, wrapping, flag untouched.
    AddVxNn { x: usize, nn: u8 },
    /// `LD Vx, Vy`: copy `Vy` into `Vx`.
    LdVxVy { x: usize, y: usize },
    /// `OR Vx, Vy`.
    OrVxVy { x: usize, y: usize },
    /// `AND Vx, Vy`.
    AndVxVy { x: usize, y: usize },
    /// `XOR Vx, Vy`.
    XorVxVy { x: usize, y: usize },
    /// `ADD Vx, Vy`: add, `VF` is the carry.
    AddVxVy { x: usize, y: usize },
    /// `SUB Vx, Vy`: `Vx - Vy`, `VF` is 1 unless there was a borrow.
    SubVxVy { x: usize, y: usize },
    /// `SHR Vx, Vy`: `Vx = Vy >> 1`, `VF` is the bit shifted out.
    ShrVxVy { x: usize, y: usize },
    /// `SUBN Vx, Vy`: `Vx = Vy - Vx`, `VF` is 1 unless there was a borrow.
    SubnVxVy { x: usize, y: usize },
    /// `SHL Vx, Vy`: `Vx = Vy << 1`, `VF` is the bit shifted out.
    ShlVxVy { x: usize, y: usize },
    /// `SNE Vx, Vy`: skip the next instruction if `Vx != Vy`.
    SneVxVy { x: usize, y: usize },
    /// `LD I, nnn`: set `I` to `nnn`.
    LdINnn { nnn: usize },
    /// `JP V0, nnn`: jump to `nnn + V0`.
    JpV0Nnn { nnn: u16 },
    /// `RND Vx, nn`: set `Vx` to a random byte masked with `nn`.
    RndVxNn { x: usize, nn: u8 },
    /// `DRW Vx, Vy, n`: draw the `n`-row sprite at `I` at (`Vx`, `Vy`).
    DrwVxVyN { x: usize, y: usize, n: u8 },
    /// `SKP Vx`: skip the next instruction if the key in `Vx` is down.
    SkpVx { x: usize },
    /// `SKNP Vx`: skip the next instruction if the key in `Vx` is up.
    SknpVx { x: usize },
    /// `LD DT, Vx`: set the delay timer to `Vx`.
    LdDtVx { x: usize },
    /// `LD Vx, DT`: read the delay timer into `Vx`.
    LdVxDt { x: usize },
    /// `LD Vx, K`: wait for a key and store it in `Vx`.
    LdVxK { x: usize },
    /// `LD ST, Vx`: set the sound timer to `Vx`.
    LdStVx { x: usize },
    /// `ADD I, Vx`: add `Vx` to `I`.
    AddIVx { x: usize },
    /// `LD F, Vx`: point `I` at the glyph of the low nibble of `Vx`.
    LdFVx { x: usize },
    /// `LD B, Vx`: store the decimal digits of `Vx` at `I`, `I+1`, `I+2`.
    LdBVx { x: usize },
    /// `LD [I], Vx`: store `V0` to `Vx` in memory from `I` on.
    LdIVx { x: usize },
    /// `LD Vx, [I]`: load `V0` to `Vx` from memory at `I`.
    LdVxI { x: usize },
    /// A word that is no instruction.
    Unknown(u16),
}

} // verus!
