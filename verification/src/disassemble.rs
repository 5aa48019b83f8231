//! Disassembly of machine code into assembly text.

use vstd::prelude::*;

use crate::opcode::{decode_spec, Opcode};
use crate::text::{hex_addr, hex_byte, mnemonic_spec, push_hex_addr, push_hex_byte};

verus! {

/// The address that listings start at unless told otherwise.
pub const DEFAULT_START_ADDR: u16 = 0x200;

/// Why a program cannot be disassembled.
#[derive(Clone, Copy, Debug, PartialEq, Eq, Structural)]
pub enum DisassembleError {
    /// The program does not consist of whole 16-bit words.
    OddLength,
}

/// [Disassembler] provides facilities for disassembling Chip8 machine code into assembly
/// instructions.
pub struct Disassembler {
    include_addresses: bool,
    start_address: u16,
    include_binary: bool,
}

/// The text that stands for a decoded word: the mnemonic of its
/// instruction, or a placeholder where the word is unmapped.
pub open spec fn instruction_text(opcode: Option<Opcode>) -> Seq<char> {
    match opcode {
        Some(op) => mnemonic_spec(op),
        None => "--"@,
    }
}

/// The address shown for the instruction at byte offset `index` of a
/// program listed from `start_address`; addresses wrap at 16 bits.
pub open spec fn line_address(start_address: u16, index: int) -> u16 {
    ((start_address + index) % 0x1_0000) as u16
}

/// One line of a listing, with its line break: the optional address column,
/// the optional column with the two raw bytes `high` and `low`, then the
/// text of the instruction that they decode to.
pub open spec fn line_spec(
    include_addresses: bool,
    include_binary: bool,
    address: u16,
    high: u8,
    low: u8,
    text: Seq<char>,
) -> Seq<char> {
    let binary = hex_byte(high) + " "@ + hex_byte(low);
    let line = if include_addresses && include_binary {
        hex_addr(address) + "   "@ + binary + "    "@ + text
    } else if include_addresses {
        hex_addr(address) + "    "@ + text
    } else if include_binary {
        binary + "    "@ + text
    } else {
        text
    };
    line + "\n"@
}

/// The listing of the whole words of `program`: one line for each successive
/// pair of bytes, in order.
pub open spec fn listing_spec(
    include_addresses: bool,
    include_binary: bool,
    start_address: u16,
    program: Seq<u8>,
) -> Seq<char>
    decreases program.len(),
{
    if program.len() < 2 {
        Seq::empty()
    } else {
        let index = program.len() - 2;
        listing_spec(include_addresses, include_binary, start_address, program.take(index))
            + line_spec(
            include_addresses,
            include_binary,
            line_address(start_address, index),
            program[index],
            program[index + 1],
            instruction_text(decode_spec(program[index], program[index + 1])),
        )
    }
}

impl Disassembler {
    /// Whether lines start with the instruction's address.
    pub closed spec fn include_addresses(&self) -> bool {
        self.include_addresses
    }

    /// The address of the program's first instruction.
    pub closed spec fn start_address(&self) -> u16 {
        self.start_address
    }

    /// Whether lines show the two raw bytes of the instruction.
    pub closed spec fn include_binary(&self) -> bool {
        self.include_binary
    }

    /// The listing that this disassembler produces for `program`.
    pub open spec fn listing(&self, program: Seq<u8>) -> Seq<char> {
        listing_spec(
            self.include_addresses(),
            self.include_binary(),
            self.start_address(),
            program,
        )
    }

    /// Constructs a default disassembler.
    pub fn new() -> (d: Self)
        ensures
            !d.include_addresses(),
            d.start_address() == DEFAULT_START_ADDR,
            !d.include_binary(),
    {
        Disassembler {
            include_addresses: false,
            start_address: DEFAULT_START_ADDR,
            include_binary: false,
        }
    }

    /// Enables/disables address printing for this disassembler.
    pub fn with_addresses(self, include_addresses: bool) -> (d: Self)
        ensures
            d.include_addresses() == include_addresses,
            d.start_address() == self.start_address(),
            d.include_binary() == self.include_binary(),
    {
        Disassembler {
            include_addresses,
            start_address: self.start_address,
            include_binary: self.include_binary,
        }
    }

    /// Sets the address to start at when printing addresses.
    pub fn with_start_address(self, start_address: u16) -> (d: Self)
        ensures
            d.include_addresses() == self.include_addresses(),
            d.start_address() == start_address,
            d.include_binary() == self.include_binary(),
    {
        Disassembler {
            include_addresses: self.include_addresses,
            start_address,
            include_binary: self.include_binary,
        }
    }

    /// Enables/disables printing binary along with instructions.
    pub fn with_binary(self, include_binary: bool) -> (d: Self)
        ensures
            d.include_addresses() == self.include_addresses(),
            d.start_address() == self.start_address(),
            d.include_binary() == include_binary,
    {
        Disassembler {
            include_addresses: self.include_addresses,
            start_address: self.start_address,
            include_binary,
        }
    }

    /// Disassembles a given program into assembly text, one line for each
    /// instruction.
    ///
    /// A program whose length is odd is rejected.
    pub fn disassemble(&self, program: &[u8]) -> (result: Result<String, DisassembleError>)
        ensures
            match result {
                Ok(text) => program@.len() % 2 == 0 && text@ == self.listing(program@),
                Err(e) => program@.len() % 2 != 0 && e == DisassembleError::OddLength,
            },
    {
        if program.len() % 2 != 0 {
            return Err(DisassembleError::OddLength);
        }
        let mut text = String::new();
        let mut i: usize = 0;
        while i < program.len()
            invariant
                i <= program@.len(),
                i % 2 == 0,
                program@.len() % 2 == 0,
                text@ == self.listing(program@.take(i as int)),
            decreases program@.len() - i,
        {
            let opcode_bytes = &program[i..i + 2];
            let opcode = Opcode::decode(opcode_bytes);
            self.write_instruction(&opcode, i, opcode_bytes, &mut text);
            proof {
                let next = program@.take(i + 2);
                assert(next.take(i as int) == program@.take(i as int));
            }
            i += 2;
        }
        assert(program@.take(i as int) == program@);
        Ok(text)
    }

    /// Appends the line for one instruction to `text`.
    fn write_instruction(
        &self,
        opcode: &Option<Opcode>,
        index: usize,
        bytes: &[u8],
        text: &mut String,
    )
        requires
            bytes@.len() == 2,
        ensures
            final(text)@ == old(text)@ + line_spec(
                self.include_addresses(),
                self.include_binary(),
                line_address(self.start_address(), index as int),
                bytes@[0],
                bytes@[1],
                instruction_text(*opcode),
            ),
    {
        let opcode_text = match opcode {
            Some(opcode) => opcode.mnemonic(),
            None => String::from_str("--"),
        };
        let addr = ((index % 0x1_0000) as u16).wrapping_add(self.start_address);
        let mut line = String::new();
        if self.include_addresses {
            push_hex_addr(&mut line, addr);
            if self.include_binary {
                line.append("   ");
            } else {
                line.append("    ");
            }
        }
        if self.include_binary {
            push_hex_byte(&mut line, bytes[0]);
            line.append(" ");
            push_hex_byte(&mut line, bytes[1]);
            line.append("    ");
        }
        line.append(opcode_text.as_str());
        line.append("\n");
        text.append(line.as_str());
    }
}

impl Default for Disassembler {
    /// Constructs a default disassembler.
    fn default() -> (d: Self)
        ensures
            !d.include_addresses(),
            d.start_address() == DEFAULT_START_ADDR,
            !d.include_binary(),
    {
        Self::new()
    }
}

} // verus!
