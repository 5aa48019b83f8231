use chip8::data::{Nibble, Register};
use chip8::disassemble::{DisassembleError, Disassembler};
use chip8::opcode::Opcode;

fn r(value: u8) -> Register {
    Register(Nibble::from_low(value))
}

#[test]
fn mnemonics_of_every_instruction() {
    assert_eq!(Opcode::Sys(0x123).mnemonic(), "SYS  0x123");
    assert_eq!(Opcode::Cls.mnemonic(), "CLS");
    assert_eq!(Opcode::Ret.mnemonic(), "RET");
    assert_eq!(Opcode::Jp(0x200).mnemonic(), "JP   0x200");
    assert_eq!(Opcode::Call(0xFFF).mnemonic(), "CALL 0xFFF");
    assert_eq!(Opcode::Se(r(1), 0x0A).mnemonic(), "SE   V1, 0x0A");
    assert_eq!(Opcode::Sne(r(0xA), 0xFF).mnemonic(), "SNE  Va, 0xFF");
    assert_eq!(Opcode::Sev(r(1), r(2)).mnemonic(), "SE   V1, V2");
    assert_eq!(Opcode::LdImm(r(0xF), 0x00).mnemonic(), "LD   Vf, 0x00");
    assert_eq!(Opcode::AddImm(r(0), 0x7F).mnemonic(), "ADD  V0, 0x7F");
    assert_eq!(Opcode::Ld(r(3), r(4)).mnemonic(), "LD   V3, V4");
    assert_eq!(Opcode::Or(r(3), r(4)).mnemonic(), "OR   V3, V4");
    assert_eq!(Opcode::And(r(3), r(4)).mnemonic(), "AND  V3, V4");
    assert_eq!(Opcode::Xor(r(3), r(4)).mnemonic(), "XOR  V3, V4");
    assert_eq!(Opcode::Add(r(2), r(1)).mnemonic(), "ADD  V2, V1");
    assert_eq!(Opcode::Sub(r(0xB), r(0xC)).mnemonic(), "SUB  Vb, Vc");
    assert_eq!(Opcode::Shr(r(5)).mnemonic(), "SHR  V5");
    assert_eq!(Opcode::Subn(r(5), r(6)).mnemonic(), "SUBN V5, V6");
    assert_eq!(Opcode::Shl(r(5)).mnemonic(), "SHL   V5");
    assert_eq!(Opcode::Snev(r(7), r(8)).mnemonic(), "SNE  V7, V8");
    assert_eq!(Opcode::Ldi(0x234).mnemonic(), "LD   I, 0x234");
    assert_eq!(Opcode::JpV0(0x00F).mnemonic(), "JP   V0, 0x00F");
    assert_eq!(Opcode::Rnd(r(9), 0x3C).mnemonic(), "RND  V9, 0x3C");
    assert_eq!(
        Opcode::Drw(r(0xD), r(0xE), Nibble::from_low(0xB)).mnemonic(),
        "DRW  Vd, Ve, 0xB"
    );
    assert_eq!(Opcode::Skp(r(1)).mnemonic(), "SKP  V1");
    assert_eq!(Opcode::Sknp(r(1)).mnemonic(), "SKNP V1");
    assert_eq!(Opcode::LdVDt(r(1)).mnemonic(), "LD   V1, DT");
    assert_eq!(Opcode::LdK(r(1)).mnemonic(), "LD   V1, K");
    assert_eq!(Opcode::LdDtV(r(1)).mnemonic(), "LD   DT, V1");
    assert_eq!(Opcode::LdStV(r(1)).mnemonic(), "LD   ST, V1");
    assert_eq!(Opcode::AddI(r(1)).mnemonic(), "ADD  I, V1");
    assert_eq!(Opcode::LdF(r(1)).mnemonic(), "LD   F, V1");
    assert_eq!(Opcode::LdB(r(1)).mnemonic(), "LD   B, V1");
    assert_eq!(Opcode::Dump(r(1)).mnemonic(), "LD   [I], V1");
    assert_eq!(Opcode::Restore(r(1)).mnemonic(), "LD   V1, [I]");
}

#[test]
fn address_operands_above_twelve_bits_take_four_digits() {
    assert_eq!(Opcode::Jp(0x1000).mnemonic(), "JP   0x1000");
    assert_eq!(Opcode::Jp(0xFFFF).mnemonic(), "JP   0xFFFF");
}

#[test]
fn line_with_address_and_binary_columns() {
    let text = Disassembler::new()
        .with_addresses(true)
        .with_binary(true)
        .with_start_address(0x200)
        .disassemble(&[0xA2, 0x34])
        .unwrap();
    assert_eq!(text, "200   A2 34    LD   I, 0x234\n");
}

#[test]
fn line_with_address_column() {
    let text = Disassembler::new().with_addresses(true).disassemble(&[0xA2, 0x34]).unwrap();
    assert_eq!(text, "200    LD   I, 0x234\n");
}

#[test]
fn line_with_binary_column() {
    let text = Disassembler::new().with_binary(true).disassemble(&[0x0A, 0x0B]).unwrap();
    assert_eq!(text, "0A 0B    SYS  0xA0B\n");
}

#[test]
fn line_without_columns() {
    let text = Disassembler::new().disassemble(&[0x00, 0xE0]).unwrap();
    assert_eq!(text, "CLS\n");
}

#[test]
fn default_disassembler_is_the_new_one() {
    let text = Disassembler::default().disassemble(&[0x00, 0xEE]).unwrap();
    assert_eq!(text, "RET\n");
}

#[test]
fn unmapped_words_render_as_placeholder() {
    let text = Disassembler::new()
        .with_addresses(true)
        .with_binary(true)
        .disassemble(&[0x50, 0x01, 0x80, 0x08])
        .unwrap();
    assert_eq!(text, "200   50 01    --\n202   80 08    --\n");
}

#[test]
fn one_line_per_word_in_order() {
    let text = Disassembler::new()
        .with_addresses(true)
        .with_start_address(0x0FE)
        .disassemble(&[0x12, 0x00, 0x00, 0xE0, 0x82, 0x14])
        .unwrap();
    assert_eq!(text, "0FE    JP   0x200\n100    CLS\n102    ADD  V2, V1\n");
}

#[test]
fn empty_program_gives_empty_listing() {
    assert_eq!(Disassembler::new().with_addresses(true).disassemble(&[]).unwrap(), "");
}

#[test]
fn odd_length_is_rejected() {
    assert_eq!(Disassembler::new().disassemble(&[0x00]), Err(DisassembleError::OddLength));
    assert_eq!(
        Disassembler::new().with_binary(true).disassemble(&[0x00, 0xE0, 0x12]),
        Err(DisassembleError::OddLength)
    );
}

#[test]
fn addresses_wrap_at_sixteen_bits() {
    let text = Disassembler::new()
        .with_addresses(true)
        .with_start_address(0xFFFE)
        .disassemble(&[0x00, 0xE0, 0x00, 0xEE])
        .unwrap();
    assert_eq!(text, "FFFE    CLS\n000    RET\n");
}

#[test]
fn later_option_replaces_earlier_one() {
    let text = Disassembler::new()
        .with_addresses(true)
        .with_addresses(false)
        .with_start_address(0x300)
        .with_binary(true)
        .disassemble(&[0x6A, 0x05])
        .unwrap();
    assert_eq!(text, "6A 05    LD   Va, 0x05\n");
}
