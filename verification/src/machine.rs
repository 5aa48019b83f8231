//! The abstract machine: the state that a program runs on, as plain
//! mathematical values, and what each instruction, each step and each timer
//! tick does to it.

use vstd::prelude::*;

use crate::data::{Nibble, Register};
use crate::display::blank;
use crate::emulation::{Action, EmulationError, Mode};
use crate::keypad::key_down;
use crate::opcode::{decode_spec, lemma_decode_total, Opcode};

verus! {

/// Size of emulator RAM in number of bytes.
pub const MEMORY_SIZE: usize = 4096;

/// Size of the stack in number of addresses (u16).
pub const STACK_SIZE: usize = 16;

/// The deepest that subroutine calls can nest. The bottom slot of the stack
/// stays unused.
pub const MAX_STACK_DEPTH: usize = 15;

/// Number of bytes of the glyph of one hexadecimal digit.
pub const GLYPH_SIZE: u16 = 5;

/// The state of the machine.
pub struct Machine {
    /// The sixteen general-purpose registers `V0` to `VF`.
    pub registers: Seq<u8>,
    /// The address register `I`.
    pub address_register: u16,
    /// The address of the next instruction.
    pub program_counter: u16,
    /// The delay timer.
    pub delay_timer: u8,
    /// The sound timer; the tone sounds while it is not zero.
    pub sound_timer: u8,
    /// The return addresses of the calls in progress, the innermost last.
    pub stack: Seq<u16>,
    /// The 4096 bytes of memory.
    pub memory: Seq<u8>,
    /// Whether the machine runs, waits for a key or has halted.
    pub mode: Mode,
    /// Where programs are loaded and start.
    pub start_address: u16,
}

/// The machine, the display and the report to the host after a step.
pub struct StepOutcome {
    pub machine: Machine,
    pub display: Seq<bool>,
    pub result: Result<Action, EmulationError>,
}

/// An address taken modulo the size of memory.
pub open spec fn wrap_address(address: int) -> u16 {
    (address % 4096) as u16
}

/// A timer one tick later: one less, but never below zero.
pub open spec fn decay(timer: u8) -> u8 {
    if timer == 0 {
        0
    } else {
        (timer - 1) as u8
    }
}

/// What the host is told when the sound timer is set from `before` to
/// `after`: the tone changes when the timer leaves or reaches zero.
pub open spec fn tone_action(before: u8, after: u8) -> Action {
    if before == 0 && after != 0 {
        Action::SetTone(true)
    } else if before != 0 && after == 0 {
        Action::SetTone(false)
    } else {
        Action::Continue
    }
}

/// What the host is told about the tone after a timer tick that found the
/// sound timer at `before`.
pub open spec fn tick_tone(before: u8) -> Option<bool> {
    if before == 1 {
        Some(false)
    } else {
        None
    }
}

/// Where the glyph for the hexadecimal digit in the low four bits of
/// `value` is expected: glyphs are five bytes each and start at address 0.
pub open spec fn glyph_address(value: u8) -> u16 {
    (GLYPH_SIZE * (value % 16)) as u16
}

/// Whether bit `column` of a sprite row is set, counting from the most
/// significant bit, which is the leftmost pixel.
pub open spec fn sprite_bit(row: u8, column: int) -> bool {
    row & (0x80u8 >> (column as u8)) != 0
}

/// Whether a sprite drawn with its top left corner at `(vx, vy)` has a set
/// bit that lands on the pixel `(x, y)`. Coordinates wrap around the edges
/// of the display.
pub open spec fn sprite_covers(sprite: Seq<u8>, vx: u8, vy: u8, x: int, y: int) -> bool {
    let column = (x - vx) % 64;
    let row = (y - vy) % 32;
    column < 8 && row < sprite.len() && sprite_bit(sprite[row], column)
}

/// The display after a sprite of at most 15 rows is drawn at `(vx, vy)`:
/// every pixel that a set bit of the sprite lands on is flipped.
pub open spec fn drawn(display: Seq<bool>, sprite: Seq<u8>, vx: u8, vy: u8) -> Seq<bool> {
    Seq::new(2048, |k: int| display[k] != sprite_covers(sprite, vx, vy, k % 64, k / 64))
}

/// Whether drawing a sprite at `(vx, vy)` unsets a pixel that was set.
pub open spec fn collides(display: Seq<bool>, sprite: Seq<u8>, vx: u8, vy: u8) -> bool {
    exists|k: int| 0 <= k < 2048 && #[trigger] display[k] && sprite_covers(sprite, vx, vy, k % 64, k / 64)
}

impl Machine {
    /// The fixed sizes of the parts of the machine, and the bound on the
    /// depth of the stack.
    pub open spec fn wf(self) -> bool {
        &&& self.registers.len() == 16
        &&& self.memory.len() == 4096
        &&& self.stack.len() <= 15
    }

    /// The value of a register.
    pub open spec fn v(self, r: Register) -> u8 {
        self.registers[r.0@ as int]
    }

    /// The machine with a register set to a value.
    pub open spec fn set_v(self, r: Register, value: u8) -> Machine {
        Machine { registers: self.registers.update(r.0@ as int, value), ..self }
    }

    /// The machine with the flags register, `VF`, set to a value.
    pub open spec fn set_flag(self, value: u8) -> Machine {
        Machine { registers: self.registers.update(15, value), ..self }
    }

    /// The machine with the address register set.
    pub open spec fn set_i(self, address: u16) -> Machine {
        Machine { address_register: address, ..self }
    }

    /// The machine with the program counter set.
    pub open spec fn goto(self, address: u16) -> Machine {
        Machine { program_counter: address, ..self }
    }

    /// The machine with the program counter on the next instruction.
    pub open spec fn advance(self) -> Machine {
        self.goto(wrap_address(self.program_counter + 2))
    }

    /// The machine with the program counter past the next instruction if
    /// `condition` holds, and on the next instruction otherwise.
    pub open spec fn skip_if(self, condition: bool) -> Machine {
        if condition {
            self.goto(wrap_address(self.program_counter + 4))
        } else {
            self.advance()
        }
    }

    /// The machine halted by a fault.
    pub open spec fn halt(self, fault: EmulationError) -> Machine {
        Machine { mode: Mode::Halted(fault), ..self }
    }

    /// Whether a whole instruction word can be read at the program counter:
    /// the counter is even and the word lies within memory.
    pub open spec fn can_fetch(self) -> bool {
        self.program_counter % 2 == 0 && self.program_counter + 2 <= 4096
    }

    /// Whether a step can be taken: unless the machine waits or has halted,
    /// the step fetches an instruction.
    pub open spec fn can_step(self) -> bool {
        self.mode is Running ==> self.can_fetch()
    }

    /// The address `offset` bytes after the address register; addresses
    /// wrap around the end of memory.
    pub open spec fn address(self, offset: int) -> int {
        (self.address_register + offset) % 4096
    }

    /// The `height` bytes of memory at the address register.
    pub open spec fn sprite(self, height: int) -> Seq<u8> {
        Seq::new(height as nat, |row: int| self.memory[self.address(row)])
    }

    /// Memory after the decimal digits of `value` are stored at the address
    /// register: hundreds, tens, ones.
    pub open spec fn with_digits(self, value: u8) -> Seq<u8> {
        self.memory.update(self.address(0), value / 100).update(
            self.address(1),
            (value / 10) % 10,
        ).update(self.address(2), value % 10)
    }

    /// Memory after the registers `V0` to `V[last]` are stored at the
    /// address register, in ascending order.
    pub open spec fn with_dump(self, last: int) -> Seq<u8> {
        Seq::new(
            4096,
            |a: int|
                {
                    let k = (a - self.address_register) % 4096;
                    if k <= last {
                        self.registers[k]
                    } else {
                        self.memory[a]
                    }
                },
        )
    }

    /// The registers after `V0` to `V[last]` are loaded from memory at the
    /// address register, in ascending order.
    pub open spec fn with_restore(self, last: int) -> Seq<u8> {
        Seq::new(
            16,
            |k: int|
                if k <= last {
                    self.memory[self.address(k)]
                } else {
                    self.registers[k]
                },
        )
    }
}

/// The outcome of a step that went well and asks nothing of the host.
pub open spec fn proceed(machine: Machine, display: Seq<bool>) -> StepOutcome {
    StepOutcome { machine, display, result: Ok(Action::Continue) }
}

/// The outcome of a step that ends the run with a fault.
pub open spec fn fault(machine: Machine, display: Seq<bool>, error: EmulationError) -> StepOutcome {
    StepOutcome { machine: machine.halt(error), display, result: Err(error) }
}

/// What one instruction does to the machine and the display, given the key
/// states and the random byte drawn for this step.
///
/// Where an instruction sets both `Vx` and the flags register, the flags
/// register is set last.
pub open spec fn execute_spec(
    m: Machine,
    display: Seq<bool>,
    keys: Seq<bool>,
    random_byte: u8,
    op: Opcode,
) -> StepOutcome {
    match op {
        Opcode::Sys(_) => proceed(m.advance(), display),
        Opcode::Cls => proceed(m.advance(), blank()),
        Opcode::Ret => if m.stack.len() == 0 {
            fault(m, display, EmulationError::StackUnderflow)
        } else {
            proceed(Machine { stack: m.stack.drop_last(), ..m }.goto(m.stack.last()), display)
        },
        Opcode::Jp(addr) => proceed(m.goto(addr), display),
        Opcode::Call(addr) => if m.stack.len() >= 15 {
            fault(m, display, EmulationError::StackOverflow)
        } else {
            proceed(
                Machine { stack: m.stack.push(wrap_address(m.program_counter + 2)), ..m }.goto(
                    addr,
                ),
                display,
            )
        },
        Opcode::Se(x, kk) => proceed(m.skip_if(m.v(x) == kk), display),
        Opcode::Sne(x, kk) => proceed(m.skip_if(m.v(x) != kk), display),
        Opcode::Sev(x, y) => proceed(m.skip_if(m.v(x) == m.v(y)), display),
        Opcode::LdImm(x, kk) => proceed(m.set_v(x, kk).advance(), display),
        Opcode::AddImm(x, kk) => proceed(
            m.set_v(x, ((m.v(x) + kk) % 256) as u8).advance(),
            display,
        ),
        Opcode::Ld(x, y) => proceed(m.set_v(x, m.v(y)).advance(), display),
        Opcode::Or(x, y) => proceed(m.set_v(x, m.v(x) | m.v(y)).advance(), display),
        Opcode::And(x, y) => proceed(m.set_v(x, m.v(x) & m.v(y)).advance(), display),
        Opcode::Xor(x, y) => proceed(m.set_v(x, m.v(x) ^ m.v(y)).advance(), display),
        Opcode::Add(x, y) => proceed(
            m.set_v(x, ((m.v(x) + m.v(y)) % 256) as u8).set_flag(
                if m.v(x) + m.v(y) > 255 {
                    1
                } else {
                    0
                },
            ).advance(),
            display,
        ),
        Opcode::Sub(x, y) => proceed(
            m.set_v(x, ((m.v(x) - m.v(y)) % 256) as u8).set_flag(
                if m.v(x) >= m.v(y) {
                    1
                } else {
                    0
                },
            ).advance(),
            display,
        ),
        Opcode::Shr(x) => proceed(
            m.set_v(x, m.v(x) / 2).set_flag(m.v(x) % 2).advance(),
            display,
        ),
        Opcode::Subn(x, y) => proceed(
            m.set_v(x, ((m.v(y) - m.v(x)) % 256) as u8).set_flag(
                if m.v(y) >= m.v(x) {
                    1
                } else {
                    0
                },
            ).advance(),
            display,
        ),
        Opcode::Shl(x) => proceed(
            m.set_v(x, ((m.v(x) * 2) % 256) as u8).set_flag(m.v(x) / 128).advance(),
            display,
        ),
        Opcode::Snev(x, y) => proceed(m.skip_if(m.v(x) != m.v(y)), display),
        Opcode::Ldi(addr) => proceed(m.set_i(addr).advance(), display),
        Opcode::JpV0(addr) => proceed(m.goto(wrap_address(m.registers[0] + addr)), display),
        Opcode::Rnd(x, kk) => proceed(m.set_v(x, random_byte & kk).advance(), display),
        Opcode::Drw(x, y, n) => {
            let sprite = m.sprite(n@ as int);
            proceed(
                m.set_flag(
                    if collides(display, sprite, m.v(x), m.v(y)) {
                        1
                    } else {
                        0
                    },
                ).advance(),
                drawn(display, sprite, m.v(x), m.v(y)),
            )
        },
        Opcode::Skp(x) => proceed(m.skip_if(key_down(keys, m.v(x))), display),
        Opcode::Sknp(x) => proceed(m.skip_if(!key_down(keys, m.v(x))), display),
        Opcode::LdVDt(x) => proceed(m.set_v(x, m.delay_timer).advance(), display),
        Opcode::LdK(x) => StepOutcome {
            machine: Machine { mode: Mode::AwaitingKey(x), ..m },
            display,
            result: Ok(Action::AwaitKey),
        },
        Opcode::LdDtV(x) => proceed(Machine { delay_timer: m.v(x), ..m }.advance(), display),
        Opcode::LdStV(x) => StepOutcome {
            machine: Machine { sound_timer: m.v(x), ..m }.advance(),
            display,
            result: Ok(tone_action(m.sound_timer, m.v(x))),
        },
        Opcode::AddI(x) => proceed(
            m.set_i(wrap_address(m.address_register + m.v(x))).advance(),
            display,
        ),
        Opcode::LdF(x) => proceed(m.set_i(glyph_address(m.v(x))).advance(), display),
        Opcode::LdB(x) => proceed(Machine { memory: m.with_digits(m.v(x)), ..m }.advance(), display),
        Opcode::Dump(x) => proceed(
            Machine { memory: m.with_dump(x.0@ as int), ..m }.advance(),
            display,
        ),
        Opcode::Restore(x) => proceed(
            Machine { registers: m.with_restore(x.0@ as int), ..m }.advance(),
            display,
        ),
    }
}

/// What one step does.
///
/// A halted machine stays as it is and reports its fault again. A machine
/// that waits for a key stays as it is until a key is reported; the key then
/// goes to the waiting register and execution resumes behind the
/// instruction that waited. A running machine fetches the word at the
/// program counter and executes it, or halts if the word is unmapped.
pub open spec fn step_spec(
    m: Machine,
    display: Seq<bool>,
    keys: Seq<bool>,
    random_byte: u8,
    key: Option<Nibble>,
) -> StepOutcome {
    match m.mode {
        Mode::Halted(error) => StepOutcome { machine: m, display, result: Err(error) },
        Mode::AwaitingKey(x) => match key {
            None => StepOutcome { machine: m, display, result: Ok(Action::AwaitKey) },
            Some(k) => proceed(Machine { mode: Mode::Running, ..m }.set_v(x, k@).advance(), display),
        },
        Mode::Running => match decode_spec(
            m.memory[m.program_counter as int],
            m.memory[m.program_counter + 1],
        ) {
            None => fault(m, display, EmulationError::InvalidInstruction(m.program_counter)),
            Some(op) => execute_spec(m, display, keys, random_byte, op),
        },
    }
}

/// What one timer tick does: both timers decay, whatever the mode.
pub open spec fn tick_spec(m: Machine) -> Machine {
    Machine { delay_timer: decay(m.delay_timer), sound_timer: decay(m.sound_timer), ..m }
}

/// The machine after `program` is loaded into a machine that starts at
/// `start_address`: everything is zero but the program in memory, and the
/// program counter is at the start.
pub open spec fn loaded(start_address: u16, program: Seq<u8>) -> Machine {
    Machine {
        registers: Seq::new(16, |k: int| 0u8),
        address_register: 0,
        program_counter: start_address,
        delay_timer: 0,
        sound_timer: 0,
        stack: Seq::empty(),
        memory: Seq::new(
            4096,
            |a: int|
                if start_address <= a < start_address + program.len() {
                    program[a - start_address]
                } else {
                    0u8
                },
        ),
        mode: Mode::Running,
        start_address,
    }
}

/// The machine before any program is loaded, or after one did not fit:
/// everything is zero.
pub open spec fn reset(start_address: u16, mode: Mode) -> Machine {
    Machine {
        registers: Seq::new(16, |k: int| 0u8),
        address_register: 0,
        program_counter: 0,
        delay_timer: 0,
        sound_timer: 0,
        stack: Seq::empty(),
        memory: Seq::new(4096, |a: int| 0u8),
        mode,
        start_address,
    }
}

/// Moving on from an instruction that could be fetched leads to an
/// instruction that can be fetched, whether or not the next one is skipped.
pub proof fn lemma_advance_can_fetch(m: Machine, condition: bool)
    requires
        m.can_fetch(),
    ensures
        m.advance().can_fetch(),
        m.skip_if(condition).can_fetch(),
{
}

/// A machine that has halted, or that waits for a key while none is
/// reported, stays exactly as it is, and so does the display.
pub proof fn lemma_suspended_stays(
    m: Machine,
    display: Seq<bool>,
    keys: Seq<bool>,
    random_byte: u8,
)
    requires
        !(m.mode is Running),
    ensures
        step_spec(m, display, keys, random_byte, None).machine == m,
        step_spec(m, display, keys, random_byte, None).display == display,
        m.mode is Halted ==> forall|key: Option<Nibble>|
            #[trigger] step_spec(m, display, keys, random_byte, key).machine == m,
{
}

/// A step reports a fault exactly when it leaves the machine halted, and
/// the fault that it reports is the one that the machine halted with.
pub proof fn lemma_fault_halts(
    m: Machine,
    display: Seq<bool>,
    keys: Seq<bool>,
    random_byte: u8,
    key: Option<Nibble>,
)
    ensures
        ({
            let outcome = step_spec(m, display, keys, random_byte, key);
            match outcome.result {
                Ok(_) => !(outcome.machine.mode is Halted),
                Err(error) => outcome.machine.mode == Mode::Halted(error),
            }
        }),
{
    if m.mode is Running {
        let decoded = decode_spec(
            m.memory[m.program_counter as int],
            m.memory[m.program_counter + 1],
        );
        if decoded is Some {
            lemma_execute_fault_halts(m, display, keys, random_byte, decoded.unwrap());
        }
    }
}

/// An instruction reports a fault exactly when it halts a running machine.
proof fn lemma_execute_fault_halts(
    m: Machine,
    display: Seq<bool>,
    keys: Seq<bool>,
    random_byte: u8,
    op: Opcode,
)
    requires
        m.mode is Running,
    ensures
        ({
            let outcome = execute_spec(m, display, keys, random_byte, op);
            match outcome.result {
                Ok(_) => !(outcome.machine.mode is Halted),
                Err(error) => outcome.machine.mode == Mode::Halted(error),
            }
        }),
{
}

/// A step keeps the sizes of the parts of the machine and of the display,
/// and never lets the stack grow beyond its greatest depth.
pub proof fn lemma_step_keeps_wf(
    m: Machine,
    display: Seq<bool>,
    keys: Seq<bool>,
    random_byte: u8,
    key: Option<Nibble>,
)
    requires
        m.wf(),
        m.mode matches Mode::AwaitingKey(x) ==> x.wf(),
        display.len() == 2048,
    ensures
        step_spec(m, display, keys, random_byte, key).machine.wf(),
        step_spec(m, display, keys, random_byte, key).display.len() == 2048,
{
    if m.mode is Running {
        let high = m.memory[m.program_counter as int];
        let low = m.memory[m.program_counter + 1];
        lemma_decode_total(high, low);
        if decode_spec(high, low) is Some {
            lemma_execute_keeps_wf(
                m,
                display,
                keys,
                random_byte,
                decode_spec(high, low).unwrap(),
            );
        }
    }
}

/// An instruction keeps the sizes of the parts of the machine and of the
/// display, and never lets the stack grow beyond its greatest depth.
proof fn lemma_execute_keeps_wf(
    m: Machine,
    display: Seq<bool>,
    keys: Seq<bool>,
    random_byte: u8,
    op: Opcode,
)
    requires
        m.wf(),
        op.wf(),
        display.len() == 2048,
    ensures
        execute_spec(m, display, keys, random_byte, op).machine.wf(),
        execute_spec(m, display, keys, random_byte, op).display.len() == 2048,
{
}

/// An instruction that jumps to its own address leaves the machine and the
/// display as they are: a program that consists of it runs forever.
pub proof fn lemma_jump_to_self(
    m: Machine,
    display: Seq<bool>,
    keys: Seq<bool>,
    random_byte: u8,
    key: Option<Nibble>,
)
    requires
        m.mode is Running,
        decode_spec(m.memory[m.program_counter as int], m.memory[m.program_counter + 1]) == Some(
            Opcode::Jp(m.program_counter),
        ),
    ensures
        step_spec(m, display, keys, random_byte, key) == proceed(m, display),
{
}

/// Drawing a sprite twice at the same place gives the display back.
pub proof fn lemma_draw_twice(display: Seq<bool>, sprite: Seq<u8>, vx: u8, vy: u8)
    requires
        display.len() == 2048,
    ensures
        drawn(drawn(display, sprite, vx, vy), sprite, vx, vy) == display,
{
    assert(drawn(drawn(display, sprite, vx, vy), sprite, vx, vy) =~= display);
}

/// Drawing a sprite on a blank display unsets no pixel, and drawing it
/// there a second time does unless the sprite has no set bit on the display
/// at all.
pub proof fn lemma_draw_on_blank(sprite: Seq<u8>, vx: u8, vy: u8)
    ensures
        !collides(blank(), sprite, vx, vy),
        collides(drawn(blank(), sprite, vx, vy), sprite, vx, vy) <==> drawn(
            blank(),
            sprite,
            vx,
            vy,
        ) != blank(),
{
    let once = drawn(blank(), sprite, vx, vy);
    if once != blank() {
        assert(!(once =~= blank()));
        let k = choose|k: int| 0 <= k < 2048 && once[k] != blank()[k];
        assert(0 <= k < 2048 && once[k] && sprite_covers(sprite, vx, vy, k % 64, k / 64));
    } else {
        assert forall|k: int| 0 <= k < 2048 implies !#[trigger] once[k] by {
            assert(blank()[k] == false);
        }
    }
}

} // verus!
