//! The instruction set: the closed set of operations, the bit-level mapping
//! between 16-bit machine words and operations, and the laws that relate the
//! two directions of that mapping.

use vstd::prelude::*;

use crate::data::{group_nibble, Addr, Nibble, Register};

verus! {

/// One machine instruction.
///
/// Operand naming follows the usual notation for instruction words:
/// `nnn` is a 12-bit address, `kk` an 8-bit immediate, `x` the low four bits
/// of the first byte, `y` the high four bits of the second byte and `n` the
/// low four bits of the second byte.
#[derive(Clone, Copy, Debug, PartialEq, Eq, Structural)]
pub enum Opcode {
    /// `0nnn`: call the machine code routine at `nnn`.
    Sys(Addr),
    /// `00E0`: clear the display.
    Cls,
    /// `00EE`: return from a subroutine.
    Ret,
    /// `1nnn`: jump to `nnn`.
    Jp(Addr),
    /// `2nnn`: call the subroutine at `nnn`.
    Call(Addr),
    /// `3xkk`: skip the next instruction if `Vx == kk`.
    Se(Register, u8),
    /// `4xkk`: skip the next instruction if `Vx != kk`.
    Sne(Register, u8),
    /// `5xy0`: skip the next instruction if `Vx == Vy`.
    Sev(Register, Register),
    /// `6xkk`: set `Vx` to `kk`.
    LdImm(Register, u8),
    /// `7xkk`: set `Vx` to `Vx + kk`.
    AddImm(Register, u8),
    /// `8xy0`: set `Vx` to `Vy`.
    Ld(Register, Register),
    /// `8xy1`: set `Vx` to `Vx | Vy`.
    Or(Register, Register),
    /// `8xy2`: set `Vx` to `Vx & Vy`.
    And(Register, Register),
    /// `8xy3`: set `Vx` to `Vx ^ Vy`.
    Xor(Register, Register),
    /// `8xy4`: set `Vx` to `Vx + Vy` and the flags register to the carry.
    Add(Register, Register),
    /// `8xy5`: set `Vx` to `Vx - Vy` and the flags register to "no borrow".
    Sub(Register, Register),
    /// `8xy6`: set `Vx` to `Vx >> 1` and the flags register to the bit shifted out.
    Shr(Register),
    /// `8xy7`: set `Vx` to `Vy - Vx` and the flags register to "no borrow".
    Subn(Register, Register),
    /// `8xyE`: set `Vx` to `Vx << 1` and the flags register to the bit shifted out.
    Shl(Register),
    /// `9xy0`: skip the next instruction if `Vx != Vy`.
    Snev(Register, Register),
    /// `Annn`: set the address register to `nnn`.
    Ldi(Addr),
    /// `Bnnn`: jump to `V0 + nnn`.
    JpV0(Addr),
    /// `Cxkk`: set `Vx` to a random byte masked with `kk`.
    Rnd(Register, u8),
    /// `Dxyn`: draw the `n`-row sprite at the address register at `(Vx, Vy)`.
    Drw(Register, Register, Nibble),
    /// `Ex9E`: skip the next instruction if the key with value `Vx` is pressed.
    Skp(Register),
    /// `ExA1`: skip the next instruction if the key with value `Vx` is not pressed.
    Sknp(Register),
    /// `Fx07`: load the delay timer into `Vx`.
    LdVDt(Register),
    /// `Fx0A`: wait for a key press and store the key in `Vx`.
    LdK(Register),
    /// `Fx15`: set the delay timer to `Vx`.
    LdDtV(Register),
    /// `Fx18`: set the sound timer to `Vx`.
    LdStV(Register),
    /// `Fx1E`: add `Vx` to the address register.
    AddI(Register),
    /// `Fx29`: point the address register at the glyph for the digit in `Vx`.
    LdF(Register),
    /// `Fx33`: store the decimal digits of `Vx` at the address register.
    LdB(Register),
    /// `Fx55`: store `V0` to `Vx` in memory at the address register.
    Dump(Register),
    /// `Fx65`: load `V0` to `Vx` from memory at the address register.
    Restore(Register),
}

/// The register named by the low four bits of `byte`.
pub open spec fn low_register(byte: u8) -> Register {
    Register(Nibble::of(byte % 16))
}

/// The register named by the high four bits of `byte`.
pub open spec fn high_register(byte: u8) -> Register {
    Register(Nibble::of(byte / 16))
}

/// The 12-bit address held in the low twelve bits of the word `high`, `low`.
pub open spec fn address_of(high: u8, low: u8) -> Addr {
    ((high % 16) * 256 + low) as u16
}

/// The instruction that the word `high`, `low` stands for, if any.
///
/// The high four bits of `high` select one of sixteen groups; what the
/// remaining twelve bits mean depends on the group.
pub open spec fn decode_spec(high: u8, low: u8) -> Option<Opcode> {
    let group = high / 16;
    let x = low_register(high);
    let y = high_register(low);
    let n = low % 16;
    let nnn = address_of(high, low);
    if group == 0x0 {
        if high == 0x00 && low == 0xE0 {
            Some(Opcode::Cls)
        } else if high == 0x00 && low == 0xEE {
            Some(Opcode::Ret)
        } else {
            Some(Opcode::Sys(nnn))
        }
    } else if group == 0x1 {
        Some(Opcode::Jp(nnn))
    } else if group == 0x2 {
        Some(Opcode::Call(nnn))
    } else if group == 0x3 {
        Some(Opcode::Se(x, low))
    } else if group == 0x4 {
        Some(Opcode::Sne(x, low))
    } else if group == 0x5 {
        if n == 0 {
            Some(Opcode::Sev(x, y))
        } else {
            None
        }
    } else if group == 0x6 {
        Some(Opcode::LdImm(x, low))
    } else if group == 0x7 {
        Some(Opcode::AddImm(x, low))
    } else if group == 0x8 {
        if n == 0x0 {
            Some(Opcode::Ld(x, y))
        } else if n == 0x1 {
            Some(Opcode::Or(x, y))
        } else if n == 0x2 {
            Some(Opcode::And(x, y))
        } else if n == 0x3 {
            Some(Opcode::Xor(x, y))
        } else if n == 0x4 {
            Some(Opcode::Add(x, y))
        } else if n == 0x5 {
            Some(Opcode::Sub(x, y))
        } else if n == 0x6 {
            Some(Opcode::Shr(x))
        } else if n == 0x7 {
            Some(Opcode::Subn(x, y))
        } else if n == 0xE {
            Some(Opcode::Shl(x))
        } else {
            None
        }
    } else if group == 0x9 {
        if n == 0 {
            Some(Opcode::Snev(x, y))
        } else {
            None
        }
    } else if group == 0xA {
        Some(Opcode::Ldi(nnn))
    } else if group == 0xB {
        Some(Opcode::JpV0(nnn))
    } else if group == 0xC {
        Some(Opcode::Rnd(x, low))
    } else if group == 0xD {
        Some(Opcode::Drw(x, y, Nibble::of(n)))
    } else if group == 0xE {
        if low == 0x9E {
            Some(Opcode::Skp(x))
        } else if low == 0xA1 {
            Some(Opcode::Sknp(x))
        } else {
            None
        }
    } else {
        if low == 0x07 {
            Some(Opcode::LdVDt(x))
        } else if low == 0x0A {
            Some(Opcode::LdK(x))
        } else if low == 0x15 {
            Some(Opcode::LdDtV(x))
        } else if low == 0x18 {
            Some(Opcode::LdStV(x))
        } else if low == 0x1E {
            Some(Opcode::AddI(x))
        } else if low == 0x29 {
            Some(Opcode::LdF(x))
        } else if low == 0x33 {
            Some(Opcode::LdB(x))
        } else if low == 0x55 {
            Some(Opcode::Dump(x))
        } else if low == 0x65 {
            Some(Opcode::Restore(x))
        } else {
            None
        }
    }
}

/// Whether the word `high`, `low` is one of the patterns that no instruction
/// is assigned to.
pub open spec fn unmapped(high: u8, low: u8) -> bool {
    let group = high / 16;
    let n = low % 16;
    ||| (group == 0x5 || group == 0x9) && n != 0
    ||| group == 0x8 && !(n <= 0x7 || n == 0xE)
    ||| group == 0xE && !(low == 0x9E || low == 0xA1)
    ||| group == 0xF && !(low == 0x07 || low == 0x0A || low == 0x15 || low == 0x18 || low == 0x1E
        || low == 0x29 || low == 0x33 || low == 0x55 || low == 0x65)
}

/// The word made of a group, a register and an 8-bit immediate.
pub open spec fn immediate_word(group: u8, x: Register, kk: u8) -> (u8, u8) {
    ((group * 16 + x.0@ % 16) as u8, kk)
}

/// The word made of a group and a 12-bit address.
pub open spec fn address_word(group: u8, nnn: Addr) -> (u8, u8) {
    ((group * 16 + (nnn / 256) % 16) as u8, (nnn % 256) as u8)
}

/// The word made of a group, two registers and a trailing nibble.
pub open spec fn register_word(group: u8, x: Register, y: Register, n: u8) -> (u8, u8) {
    ((group * 16 + x.0@ % 16) as u8, ((y.0@ % 16) * 16 + n % 16) as u8)
}

/// The machine word that stands for `op`.
///
/// Addresses are taken modulo `0x1000`. The two shifts carry one register
/// only; their unused `y` field is encoded as zero.
pub open spec fn encode_spec(op: Opcode) -> (u8, u8) {
    let v0 = Register(Nibble::of(0));
    match op {
        Opcode::Sys(nnn) => address_word(0x0, nnn),
        Opcode::Cls => (0x00u8, 0xE0u8),
        Opcode::Ret => (0x00u8, 0xEEu8),
        Opcode::Jp(nnn) => address_word(0x1, nnn),
        Opcode::Call(nnn) => address_word(0x2, nnn),
        Opcode::Se(x, kk) => immediate_word(0x3, x, kk),
        Opcode::Sne(x, kk) => immediate_word(0x4, x, kk),
        Opcode::Sev(x, y) => register_word(0x5, x, y, 0x0),
        Opcode::LdImm(x, kk) => immediate_word(0x6, x, kk),
        Opcode::AddImm(x, kk) => immediate_word(0x7, x, kk),
        Opcode::Ld(x, y) => register_word(0x8, x, y, 0x0),
        Opcode::Or(x, y) => register_word(0x8, x, y, 0x1),
        Opcode::And(x, y) => register_word(0x8, x, y, 0x2),
        Opcode::Xor(x, y) => register_word(0x8, x, y, 0x3),
        Opcode::Add(x, y) => register_word(0x8, x, y, 0x4),
        Opcode::Sub(x, y) => register_word(0x8, x, y, 0x5),
        Opcode::Shr(x) => register_word(0x8, x, v0, 0x6),
        Opcode::Subn(x, y) => register_word(0x8, x, y, 0x7),
        Opcode::Shl(x) => register_word(0x8, x, v0, 0xE),
        Opcode::Snev(x, y) => register_word(0x9, x, y, 0x0),
        Opcode::Ldi(nnn) => address_word(0xA, nnn),
        Opcode::JpV0(nnn) => address_word(0xB, nnn),
        Opcode::Rnd(x, kk) => immediate_word(0xC, x, kk),
        Opcode::Drw(x, y, n) => register_word(0xD, x, y, n@),
        Opcode::Skp(x) => immediate_word(0xE, x, 0x9E),
        Opcode::Sknp(x) => immediate_word(0xE, x, 0xA1),
        Opcode::LdVDt(x) => immediate_word(0xF, x, 0x07),
        Opcode::LdK(x) => immediate_word(0xF, x, 0x0A),
        Opcode::LdDtV(x) => immediate_word(0xF, x, 0x15),
        Opcode::LdStV(x) => immediate_word(0xF, x, 0x18),
        Opcode::AddI(x) => immediate_word(0xF, x, 0x1E),
        Opcode::LdF(x) => immediate_word(0xF, x, 0x29),
        Opcode::LdB(x) => immediate_word(0xF, x, 0x33),
        Opcode::Dump(x) => immediate_word(0xF, x, 0x55),
        Opcode::Restore(x) => immediate_word(0xF, x, 0x65),
    }
}

impl Register {
    /// A register identifier names one of the sixteen registers.
    pub open spec fn wf(self) -> bool {
        self.0@ <= 0x0F
    }
}

impl Opcode {
    /// Every operand is within its field: register identifiers and sprite
    /// heights fit in four bits, addresses in twelve.
    pub open spec fn wf(self) -> bool {
        match self {
            Opcode::Cls | Opcode::Ret => true,
            Opcode::Sys(nnn)
            | Opcode::Jp(nnn)
            | Opcode::Call(nnn)
            | Opcode::Ldi(nnn)
            | Opcode::JpV0(nnn) => nnn < 0x1000,
            Opcode::Se(x, _)
            | Opcode::Sne(x, _)
            | Opcode::LdImm(x, _)
            | Opcode::AddImm(x, _)
            | Opcode::Rnd(x, _) => x.wf(),
            Opcode::Sev(x, y)
            | Opcode::Ld(x, y)
            | Opcode::Or(x, y)
            | Opcode::And(x, y)
            | Opcode::Xor(x, y)
            | Opcode::Add(x, y)
            | Opcode::Sub(x, y)
            | Opcode::Subn(x, y)
            | Opcode::Snev(x, y) => x.wf() && y.wf(),
            Opcode::Drw(x, y, n) => x.wf() && y.wf() && n@ <= 0x0F,
            Opcode::Shr(x)
            | Opcode::Shl(x)
            | Opcode::Skp(x)
            | Opcode::Sknp(x)
            | Opcode::LdVDt(x)
            | Opcode::LdK(x)
            | Opcode::LdDtV(x)
            | Opcode::LdStV(x)
            | Opcode::AddI(x)
            | Opcode::LdF(x)
            | Opcode::LdB(x)
            | Opcode::Dump(x)
            | Opcode::Restore(x) => x.wf(),
        }
    }

    /// Decodes a pair of bytes into an [Opcode]. Returns [None] if the given bytes do
    /// not correspond to a valid opcode.
    ///
    /// `bytes` must hold exactly one word.
    pub fn decode(bytes: &[u8]) -> (result: Option<Self>)
        requires
            bytes@.len() == 2,
        ensures
            result == decode_spec(bytes@[0], bytes@[1]),
            result is None <==> unmapped(bytes@[0], bytes@[1]),
            result matches Some(op) ==> op.wf(),
    {
        proof {
            broadcast use group_nibble;

            lemma_decode_total(bytes@[0], bytes@[1]);
        }
        let n0 = Nibble::from_high(bytes[0]);
        match n0.as_u8() {
            0x0 => match (bytes[0], bytes[1]) {
                (0x00, 0xE0) => Some(Opcode::Cls),
                (0x00, 0xEE) => Some(Opcode::Ret),
                (high, low) => {
                    let addr = addr_from_bytes(high, low);
                    Some(Opcode::Sys(addr))
                },
            },
            0x1 => {
                let addr = addr_from_bytes(bytes[0], bytes[1]);
                Some(Opcode::Jp(addr))
            },
            0x2 => {
                let addr = addr_from_bytes(bytes[0], bytes[1]);
                Some(Opcode::Call(addr))
            },
            0x3 => {
                let r = Register(Nibble::from_low(bytes[0]));
                Some(Opcode::Se(r, bytes[1]))
            },
            0x4 => {
                let r = Nibble::from_low(bytes[0]);
                Some(Opcode::Sne(Register(r), bytes[1]))
            },
            0x5 => {
                if Nibble::from_low(bytes[1]).as_u8() == 0 {
                    let r1 = Register(Nibble::from_low(bytes[0]));
                    let r2 = Register(Nibble::from_high(bytes[1]));
                    Some(Opcode::Sev(r1, r2))
                } else {
                    None
                }
            },
            0x6 => {
                let r = Nibble::from_low(bytes[0]);
                Some(Opcode::LdImm(Register(r), bytes[1]))
            },
            0x7 => {
                let r = Nibble::from_low(bytes[0]);
                Some(Opcode::AddImm(Register(r), bytes[1]))
            },
            0x8 => {
                let r1 = Register(Nibble::from_low(bytes[0]));
                let r2 = Register(Nibble::from_high(bytes[1]));
                match Nibble::from_low(bytes[1]).as_u8() {
                    0x0 => Some(Opcode::Ld(r1, r2)),
                    0x1 => Some(Opcode::Or(r1, r2)),
                    0x2 => Some(Opcode::And(r1, r2)),
                    0x3 => Some(Opcode::Xor(r1, r2)),
                    0x4 => Some(Opcode::Add(r1, r2)),
                    0x5 => Some(Opcode::Sub(r1, r2)),
                    0x6 => Some(Opcode::Shr(r1)),
                    0x7 => Some(Opcode::Subn(r1, r2)),
                    0xE => Some(Opcode::Shl(r1)),
                    _ => None,
                }
            },
            0x9 => {
                if Nibble::from_low(bytes[1]).as_u8() == 0 {
                    let r1 = Register(Nibble::from_low(bytes[0]));
                    let r2 = Register(Nibble::from_high(bytes[1]));
                    Some(Opcode::Snev(r1, r2))
                } else {
                    None
                }
            },
            0xA => {
                let addr = addr_from_bytes(bytes[0], bytes[1]);
                Some(Opcode::Ldi(addr))
            },
            0xB => {
                let addr = addr_from_bytes(bytes[0], bytes[1]);
                Some(Opcode::JpV0(addr))
            },
            0xC => {
                let r = Register(Nibble::from_low(bytes[0]));
                Some(Opcode::Rnd(r, bytes[1]))
            },
            0xD => {
                let r1 = Register(Nibble::from_low(bytes[0]));
                let r2 = Register(Nibble::from_high(bytes[1]));
                let n = Nibble::from_low(bytes[1]);
                Some(Opcode::Drw(r1, r2, n))
            },
            0xE => {
                let r = Register(Nibble::from_low(bytes[0]));
                match bytes[1] {
                    0x9E => Some(Opcode::Skp(r)),
                    0xA1 => Some(Opcode::Sknp(r)),
                    _ => None,
                }
            },
            _ => {
                let r = Register(Nibble::from_low(bytes[0]));
                match bytes[1] {
                    0x07 => Some(Opcode::LdVDt(r)),
                    0x0A => Some(Opcode::LdK(r)),
                    0x15 => Some(Opcode::LdDtV(r)),
                    0x18 => Some(Opcode::LdStV(r)),
                    0x1E => Some(Opcode::AddI(r)),
                    0x29 => Some(Opcode::LdF(r)),
                    0x33 => Some(Opcode::LdB(r)),
                    0x55 => Some(Opcode::Dump(r)),
                    0x65 => Some(Opcode::Restore(r)),
                    _ => None,
                }
            },
        }
    }

    /// Encodes this instruction as its machine word, high byte first.
    pub fn encode(&self) -> (bytes: [u8; 2])
        ensures
            (bytes@[0], bytes@[1]) == encode_spec(*self),
    {
        let (high, low) = match *self {
            Opcode::Sys(nnn) => address_bytes(0x0, nnn),
            Opcode::Cls => (0x00, 0xE0),
            Opcode::Ret => (0x00, 0xEE),
            Opcode::Jp(nnn) => address_bytes(0x1, nnn),
            Opcode::Call(nnn) => address_bytes(0x2, nnn),
            Opcode::Se(x, kk) => immediate_bytes(0x3, x, kk),
            Opcode::Sne(x, kk) => immediate_bytes(0x4, x, kk),
            Opcode::Sev(x, y) => register_bytes(0x5, x, y, 0x0),
            Opcode::LdImm(x, kk) => immediate_bytes(0x6, x, kk),
            Opcode::AddImm(x, kk) => immediate_bytes(0x7, x, kk),
            Opcode::Ld(x, y) => register_bytes(0x8, x, y, 0x0),
            Opcode::Or(x, y) => register_bytes(0x8, x, y, 0x1),
            Opcode::And(x, y) => register_bytes(0x8, x, y, 0x2),
            Opcode::Xor(x, y) => register_bytes(0x8, x, y, 0x3),
            Opcode::Add(x, y) => register_bytes(0x8, x, y, 0x4),
            Opcode::Sub(x, y) => register_bytes(0x8, x, y, 0x5),
            Opcode::Shr(x) => register_bytes(0x8, x, Register(Nibble::from_low(0)), 0x6),
            Opcode::Subn(x, y) => register_bytes(0x8, x, y, 0x7),
            Opcode::Shl(x) => register_bytes(0x8, x, Register(Nibble::from_low(0)), 0xE),
            Opcode::Snev(x, y) => register_bytes(0x9, x, y, 0x0),
            Opcode::Ldi(nnn) => address_bytes(0xA, nnn),
            Opcode::JpV0(nnn) => address_bytes(0xB, nnn),
            Opcode::Rnd(x, kk) => immediate_bytes(0xC, x, kk),
            Opcode::Drw(x, y, n) => register_bytes(0xD, x, y, n.as_u8()),
            Opcode::Skp(x) => immediate_bytes(0xE, x, 0x9E),
            Opcode::Sknp(x) => immediate_bytes(0xE, x, 0xA1),
            Opcode::LdVDt(x) => immediate_bytes(0xF, x, 0x07),
            Opcode::LdK(x) => immediate_bytes(0xF, x, 0x0A),
            Opcode::LdDtV(x) => immediate_bytes(0xF, x, 0x15),
            Opcode::LdStV(x) => immediate_bytes(0xF, x, 0x18),
            Opcode::AddI(x) => immediate_bytes(0xF, x, 0x1E),
            Opcode::LdF(x) => immediate_bytes(0xF, x, 0x29),
            Opcode::LdB(x) => immediate_bytes(0xF, x, 0x33),
            Opcode::Dump(x) => immediate_bytes(0xF, x, 0x55),
            Opcode::Restore(x) => immediate_bytes(0xF, x, 0x65),
        };
        [high, low]
    }
}

/// Assembles the 12-bit address in the low twelve bits of a word.
pub fn addr_from_bytes(high: u8, low: u8) -> (addr: Addr)
    ensures
        addr == address_of(high, low),
        addr < 0x1000,
{
    assert(high & 0x0F == high % 16) by (bit_vector);
    (high & 0x0F) as u16 * 256 + low as u16
}

fn address_bytes(group: u8, nnn: Addr) -> (word: (u8, u8))
    requires
        group <= 0x0F,
    ensures
        word == address_word(group, nnn),
{
    (group * 16 + ((nnn / 256) % 16) as u8, (nnn % 256) as u8)
}

fn immediate_bytes(group: u8, x: Register, kk: u8) -> (word: (u8, u8))
    requires
        group <= 0x0F,
    ensures
        word == immediate_word(group, x, kk),
{
    (group * 16 + x.0.as_u8(), kk)
}

fn register_bytes(group: u8, x: Register, y: Register, n: u8) -> (word: (u8, u8))
    requires
        group <= 0x0F,
        n <= 0x0F,
    ensures
        word == register_word(group, x, y, n),
{
    (group * 16 + x.0.as_u8(), y.0.as_u8() * 16 + n)
}

/// Decoding is total: every word either stands for one instruction whose
/// operands are within their fields, or is one of the unmapped patterns.
pub proof fn lemma_decode_total(high: u8, low: u8)
    ensures
        decode_spec(high, low) is None <==> unmapped(high, low),
        decode_spec(high, low) matches Some(op) ==> op.wf(),
{
    broadcast use group_nibble;

}

/// The fields of a word made of a group and a 12-bit address.
proof fn lemma_address_word(group: u8, nnn: Addr)
    requires
        group <= 0x0F,
        nnn < 0x1000,
    ensures
        address_word(group, nnn).0 / 16 == group,
        address_word(group, nnn).0 % 16 == nnn / 256,
        address_of(address_word(group, nnn).0, address_word(group, nnn).1) == nnn,
{
}

/// The fields of a word made of a group, a register and an immediate.
proof fn lemma_immediate_word(group: u8, x: Register, kk: u8)
    requires
        group <= 0x0F,
        x.wf(),
    ensures
        immediate_word(group, x, kk).0 / 16 == group,
        low_register(immediate_word(group, x, kk).0) == x,
        immediate_word(group, x, kk).1 == kk,
{
    broadcast use group_nibble;

}

/// The fields of a word made of a group, two registers and a nibble.
proof fn lemma_register_word(group: u8, x: Register, y: Register, n: u8)
    requires
        group <= 0x0F,
        x.wf(),
        y.wf(),
        n <= 0x0F,
    ensures
        register_word(group, x, y, n).0 / 16 == group,
        low_register(register_word(group, x, y, n).0) == x,
        high_register(register_word(group, x, y, n).1) == y,
        register_word(group, x, y, n).1 % 16 == n,
{
    broadcast use group_nibble;

}

/// Encoding an instruction and decoding the result gives the instruction
/// back, for every instruction whose operands are within their fields.
///
/// The words `00E0` and `00EE` are taken by `Cls` and `Ret`, so the two
/// system calls that would share their encoding are left out.
pub proof fn lemma_decode_encode(op: Opcode)
    requires
        op.wf(),
        op != Opcode::Sys(0x0E0),
        op != Opcode::Sys(0x0EE),
    ensures
        decode_spec(encode_spec(op).0, encode_spec(op).1) == Some(op),
{
    broadcast use group_nibble;

    let v0 = Register(Nibble::of(0));
    match op {
        Opcode::Cls | Opcode::Ret => {},
        Opcode::Sys(nnn) => lemma_address_word(0x0, nnn),
        Opcode::Jp(nnn) => lemma_address_word(0x1, nnn),
        Opcode::Call(nnn) => lemma_address_word(0x2, nnn),
        Opcode::Ldi(nnn) => lemma_address_word(0xA, nnn),
        Opcode::JpV0(nnn) => lemma_address_word(0xB, nnn),
        Opcode::Se(x, kk) => lemma_immediate_word(0x3, x, kk),
        Opcode::Sne(x, kk) => lemma_immediate_word(0x4, x, kk),
        Opcode::LdImm(x, kk) => lemma_immediate_word(0x6, x, kk),
        Opcode::AddImm(x, kk) => lemma_immediate_word(0x7, x, kk),
        Opcode::Rnd(x, kk) => lemma_immediate_word(0xC, x, kk),
        Opcode::Sev(x, y) => lemma_register_word(0x5, x, y, 0x0),
        Opcode::Ld(x, y) => lemma_register_word(0x8, x, y, 0x0),
        Opcode::Or(x, y) => lemma_register_word(0x8, x, y, 0x1),
        Opcode::And(x, y) => lemma_register_word(0x8, x, y, 0x2),
        Opcode::Xor(x, y) => lemma_register_word(0x8, x, y, 0x3),
        Opcode::Add(x, y) => lemma_register_word(0x8, x, y, 0x4),
        Opcode::Sub(x, y) => lemma_register_word(0x8, x, y, 0x5),
        Opcode::Shr(x) => lemma_register_word(0x8, x, v0, 0x6),
        Opcode::Subn(x, y) => lemma_register_word(0x8, x, y, 0x7),
        Opcode::Shl(x) => lemma_register_word(0x8, x, v0, 0xE),
        Opcode::Snev(x, y) => lemma_register_word(0x9, x, y, 0x0),
        Opcode::Drw(x, y, n) => lemma_register_word(0xD, x, y, n@),
        Opcode::Skp(x) => lemma_immediate_word(0xE, x, 0x9E),
        Opcode::Sknp(x) => lemma_immediate_word(0xE, x, 0xA1),
        Opcode::LdVDt(x) => lemma_immediate_word(0xF, x, 0x07),
        Opcode::LdK(x) => lemma_immediate_word(0xF, x, 0x0A),
        Opcode::LdDtV(x) => lemma_immediate_word(0xF, x, 0x15),
        Opcode::LdStV(x) => lemma_immediate_word(0xF, x, 0x18),
        Opcode::AddI(x) => lemma_immediate_word(0xF, x, 0x1E),
        Opcode::LdF(x) => lemma_immediate_word(0xF, x, 0x29),
        Opcode::LdB(x) => lemma_immediate_word(0xF, x, 0x33),
        Opcode::Dump(x) => lemma_immediate_word(0xF, x, 0x55),
        Opcode::Restore(x) => lemma_immediate_word(0xF, x, 0x65),
    }
}

} // verus!
