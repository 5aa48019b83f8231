//! Text rendering: hexadecimal numbers and instruction mnemonics.

use vstd::prelude::*;

use crate::data::Register;
use crate::opcode::Opcode;

verus! {

/// The upper-case hexadecimal digit for `d`, where `0 <= d < 16`.
pub open spec fn upper_hex_char(d: int) -> char {
    "0123456789ABCDEF"@[d]
}

/// The lower-case hexadecimal digit for `d`, where `0 <= d < 16`.
pub open spec fn lower_hex_char(d: int) -> char {
    "0123456789abcdef"@[d]
}

/// A byte as exactly two upper-case hexadecimal digits.
pub open spec fn hex_byte(value: u8) -> Seq<char> {
    seq![upper_hex_char(value as int / 16), upper_hex_char(value as int % 16)]
}

/// A 16-bit number as upper-case hexadecimal digits, padded with zeros to
/// three digits: three digits below `0x1000`, four from there on.
pub open spec fn hex_addr(value: u16) -> Seq<char> {
    let low = seq![
        upper_hex_char(value as int / 256 % 16),
        upper_hex_char(value as int / 16 % 16),
        upper_hex_char(value as int % 16),
    ];
    if value < 0x1000 {
        low
    } else {
        seq![upper_hex_char(value as int / 4096)] + low
    }
}

/// The name of a register: `V` and its number as a lower-case hexadecimal
/// digit.
pub open spec fn register_name(r: Register) -> Seq<char> {
    "V"@ + seq![lower_hex_char(r.0@ as int)]
}

/// The assembly text of an instruction.
pub open spec fn mnemonic_spec(op: Opcode) -> Seq<char> {
    match op {
        Opcode::Sys(addr) => "SYS  0x"@ + hex_addr(addr),
        Opcode::Cls => "CLS"@,
        Opcode::Ret => "RET"@,
        Opcode::Jp(addr) => "JP   0x"@ + hex_addr(addr),
        Opcode::Call(addr) => "CALL 0x"@ + hex_addr(addr),
        Opcode::Se(r, x) => "SE   "@ + register_name(r) + ", 0x"@ + hex_byte(x),
        Opcode::Sne(r, x) => "SNE  "@ + register_name(r) + ", 0x"@ + hex_byte(x),
        Opcode::Sev(r1, r2) => "SE   "@ + register_name(r1) + ", "@ + register_name(r2),
        Opcode::LdImm(r, x) => "LD   "@ + register_name(r) + ", 0x"@ + hex_byte(x),
        Opcode::AddImm(r, x) => "ADD  "@ + register_name(r) + ", 0x"@ + hex_byte(x),
        Opcode::Ld(r1, r2) => "LD   "@ + register_name(r1) + ", "@ + register_name(r2),
        Opcode::Or(r1, r2) => "OR   "@ + register_name(r1) + ", "@ + register_name(r2),
        Opcode::And(r1, r2) => "AND  "@ + register_name(r1) + ", "@ + register_name(r2),
        Opcode::Xor(r1, r2) => "XOR  "@ + register_name(r1) + ", "@ + register_name(r2),
        Opcode::Add(r1, r2) => "ADD  "@ + register_name(r1) + ", "@ + register_name(r2),
        Opcode::Sub(r1, r2) => "SUB  "@ + register_name(r1) + ", "@ + register_name(r2),
        Opcode::Shr(r1) => "SHR  "@ + register_name(r1),
        Opcode::Subn(r1, r2) => "SUBN "@ + register_name(r1) + ", "@ + register_name(r2),
        Opcode::Shl(r1) => "SHL   "@ + register_name(r1),
        Opcode::Snev(r1, r2) => "SNE  "@ + register_name(r1) + ", "@ + register_name(r2),
        Opcode::Ldi(addr) => "LD   I, 0x"@ + hex_addr(addr),
        Opcode::JpV0(addr) => "JP   V0, 0x"@ + hex_addr(addr),
        Opcode::Rnd(r, x) => "RND  "@ + register_name(r) + ", 0x"@ + hex_byte(x),
        Opcode::Drw(r1, r2, n) => "DRW  "@ + register_name(r1) + ", "@ + register_name(r2)
            + ", 0x"@ + seq![upper_hex_char(n@ as int)],
        Opcode::Skp(r) => "SKP  "@ + register_name(r),
        Opcode::Sknp(r) => "SKNP "@ + register_name(r),
        Opcode::LdVDt(r) => "LD   "@ + register_name(r) + ", DT"@,
        Opcode::LdK(r) => "LD   "@ + register_name(r) + ", K"@,
        Opcode::LdDtV(r) => "LD   DT, "@ + register_name(r),
        Opcode::LdStV(r) => "LD   ST, "@ + register_name(r),
        Opcode::AddI(r) => "ADD  I, "@ + register_name(r),
        Opcode::LdF(r) => "LD   F, "@ + register_name(r),
        Opcode::LdB(r) => "LD   B, "@ + register_name(r),
        Opcode::Dump(r) => "LD   [I], "@ + register_name(r),
        Opcode::Restore(r) => "LD   "@ + register_name(r) + ", [I]"@,
    }
}

/// Appends one upper-case hexadecimal digit.
pub(crate) fn push_upper_hex_digit(text: &mut String, d: u8)
    requires
        d < 16,
    ensures
        final(text)@ == old(text)@.push(upper_hex_char(d as int)),
{
    proof {
        reveal_strlit("0123456789ABCDEF");
    }
    let digits = "0123456789ABCDEF";
    assert(digits.is_ascii());
    text.append(digits.substring_ascii(d as usize, d as usize + 1));
    assert(digits@.subrange(d as int, d as int + 1) == seq![upper_hex_char(d as int)]);
}

/// Appends one lower-case hexadecimal digit.
pub(crate) fn push_lower_hex_digit(text: &mut String, d: u8)
    requires
        d < 16,
    ensures
        final(text)@ == old(text)@.push(lower_hex_char(d as int)),
{
    proof {
        reveal_strlit("0123456789abcdef");
    }
    let digits = "0123456789abcdef";
    assert(digits.is_ascii());
    text.append(digits.substring_ascii(d as usize, d as usize + 1));
    assert(digits@.subrange(d as int, d as int + 1) == seq![lower_hex_char(d as int)]);
}

/// Appends a byte as two hexadecimal digits.
pub(crate) fn push_hex_byte(text: &mut String, value: u8)
    ensures
        final(text)@ == old(text)@ + hex_byte(value),
{
    push_upper_hex_digit(text, value / 16);
    push_upper_hex_digit(text, value % 16);
}

/// Appends a 16-bit number as three or four hexadecimal digits.
pub(crate) fn push_hex_addr(text: &mut String, value: u16)
    ensures
        final(text)@ == old(text)@ + hex_addr(value),
{
    if value >= 0x1000 {
        push_upper_hex_digit(text, (value / 4096) as u8);
    }
    push_upper_hex_digit(text, (value / 256 % 16) as u8);
    push_upper_hex_digit(text, (value / 16 % 16) as u8);
    push_upper_hex_digit(text, (value % 16) as u8);
}

/// Appends the name of a register.
fn push_register(text: &mut String, r: Register)
    ensures
        final(text)@ == old(text)@ + register_name(r),
{
    text.append("V");
    push_lower_hex_digit(text, r.0.as_u8());
}

/// Renders an instruction with one register operand after the mnemonic.
fn unary(head: &str, r: Register) -> (text: String)
    ensures
        text@ == head@ + register_name(r),
{
    let mut text = String::from_str(head);
    push_register(&mut text, r);
    text
}

/// Renders an instruction with two register operands.
fn binary(head: &str, r1: Register, r2: Register) -> (text: String)
    ensures
        text@ == head@ + register_name(r1) + ", "@ + register_name(r2),
{
    let mut text = unary(head, r1);
    text.append(", ");
    push_register(&mut text, r2);
    text
}

/// Renders an instruction with a register and an immediate operand.
fn immediate(head: &str, r: Register, x: u8) -> (text: String)
    ensures
        text@ == head@ + register_name(r) + ", 0x"@ + hex_byte(x),
{
    let mut text = unary(head, r);
    text.append(", 0x");
    push_hex_byte(&mut text, x);
    text
}

/// Renders an instruction with an address operand.
fn absolute(head: &str, addr: u16) -> (text: String)
    ensures
        text@ == head@ + hex_addr(addr),
{
    let mut text = String::from_str(head);
    push_hex_addr(&mut text, addr);
    text
}

impl Opcode {
    /// The assembly text of this instruction.
    pub fn mnemonic(&self) -> (text: String)
        ensures
            text@ == mnemonic_spec(*self),
    {
        match *self {
            Opcode::Sys(addr) => absolute("SYS  0x", addr),
            Opcode::Cls => String::from_str("CLS"),
            Opcode::Ret => String::from_str("RET"),
            Opcode::Jp(addr) => absolute("JP   0x", addr),
            Opcode::Call(addr) => absolute("CALL 0x", addr),
            Opcode::Se(r, x) => immediate("SE   ", r, x),
            Opcode::Sne(r, x) => immediate("SNE  ", r, x),
            Opcode::Sev(r1, r2) => binary("SE   ", r1, r2),
            Opcode::LdImm(r, x) => immediate("LD   ", r, x),
            Opcode::AddImm(r, x) => immediate("ADD  ", r, x),
            Opcode::Ld(r1, r2) => binary("LD   ", r1, r2),
            Opcode::Or(r1, r2) => binary("OR   ", r1, r2),
            Opcode::And(r1, r2) => binary("AND  ", r1, r2),
            Opcode::Xor(r1, r2) => binary("XOR  ", r1, r2),
            Opcode::Add(r1, r2) => binary("ADD  ", r1, r2),
            Opcode::Sub(r1, r2) => binary("SUB  ", r1, r2),
            Opcode::Shr(r1) => unary("SHR  ", r1),
            Opcode::Subn(r1, r2) => binary("SUBN ", r1, r2),
            Opcode::Shl(r1) => unary("SHL   ", r1),
            Opcode::Snev(r1, r2) => binary("SNE  ", r1, r2),
            Opcode::Ldi(addr) => absolute("LD   I, 0x", addr),
            Opcode::JpV0(addr) => absolute("JP   V0, 0x", addr),
            Opcode::Rnd(r, x) => immediate("RND  ", r, x),
            Opcode::Drw(r1, r2, n) => {
                let mut text = binary("DRW  ", r1, r2);
                text.append(", 0x");
                push_upper_hex_digit(&mut text, n.as_u8());
                text
            },
            Opcode::Skp(r) => unary("SKP  ", r),
            Opcode::Sknp(r) => unary("SKNP ", r),
            Opcode::LdVDt(r) => {
                let mut text = unary("LD   ", r);
                text.append(", DT");
                text
            },
            Opcode::LdK(r) => {
                let mut text = unary("LD   ", r);
                text.append(", K");
                text
            },
            Opcode::LdDtV(r) => unary("LD   DT, ", r),
            Opcode::LdStV(r) => unary("LD   ST, ", r),
            Opcode::AddI(r) => unary("ADD  I, ", r),
            Opcode::LdF(r) => unary("LD   F, ", r),
            Opcode::LdB(r) => unary("LD   B, ", r),
            Opcode::Dump(r) => unary("LD   [I], ", r),
            Opcode::Restore(r) => {
                let mut text = unary("LD   ", r);
                text.append(", [I]");
                text
            },
        }
    }
}

} // verus!
