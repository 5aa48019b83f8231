//! The execution engine: the machine state and the step and tick operations
//! that a host drives it with.

use vstd::prelude::*;

use crate::data::{Nibble, Register};
use crate::display::{lemma_display_len, pixel_index, Display};
use crate::machine::{
    collides, drawn, execute_spec, loaded, reset, sprite_bit, sprite_covers, tick_spec,
    tick_tone, tone_action, wrap_address, Machine, MAX_STACK_DEPTH, MEMORY_SIZE, STACK_SIZE,
};
use crate::opcode::Opcode;

verus! {

/// A fault that ends a run.
#[derive(Clone, Copy, Debug, PartialEq, Eq, Structural)]
pub enum EmulationError {
    /// A subroutine was called with the stack at its greatest depth.
    StackOverflow,
    /// A return was executed with no call to return from.
    StackUnderflow,
    /// The program does not fit in memory.
    OutOfMemory,
    /// The word at the given address stands for no instruction.
    InvalidInstruction(u16),
}

/// What the engine is doing between two steps.
#[derive(Clone, Copy, Debug, PartialEq, Eq, Structural)]
pub enum Mode {
    /// The next step executes the instruction at the program counter.
    Running,
    /// Execution is suspended until a key press is reported; the key goes to
    /// the given register.
    AwaitingKey(Register),
    /// A fault has ended the run.
    Halted(EmulationError),
}

/// What the host has to do after a step that did not fault.
#[derive(Clone, Copy, Debug, PartialEq, Eq, Structural)]
pub enum Action {
    /// Nothing: go on with the next step.
    Continue,
    /// Wait for a key press and report it with the next step.
    AwaitKey,
    /// Switch the tone on (`true`) or off (`false`).
    SetTone(bool),
}

/// [Memory] is a 4KiB array of bytes used as RAM for the Chip-8 emulator.
struct Memory([u8; MEMORY_SIZE]);

impl Memory {
    /// Memory with every byte zero.
    fn new() -> (memory: Self)
        ensures
            memory.0@ == Seq::new(4096, |a: int| 0u8),
    {
        let memory = Memory([0; MEMORY_SIZE]);
        assert(memory.0@ =~= Seq::new(4096, |a: int| 0u8));
        memory
    }

    /// Loads a chunk of data into memory at a given offset. Returns an out-of-memory
    /// error if the given data chunk is too large.
    fn load(&mut self, offset: usize, data: &[u8]) -> (result: Result<(), EmulationError>)
        ensures
            match result {
                Ok(_) => {
                    &&& offset + data@.len() <= 4096
                    &&& final(self).0@ == Seq::new(
                        4096,
                        |a: int|
                            if offset <= a < offset + data@.len() {
                                data@[a - offset]
                            } else {
                                old(self).0@[a]
                            },
                    )
                },
                Err(e) => {
                    &&& offset + data@.len() > 4096
                    &&& e == EmulationError::OutOfMemory
                    &&& final(self).0@ == old(self).0@
                },
            },
    {
        if offset > MEMORY_SIZE || data.len() > MEMORY_SIZE - offset {
            return Err(EmulationError::OutOfMemory);
        }
        for i in 0..data.len()
            invariant
                offset + data@.len() <= 4096,
                self.0@ == Seq::new(
                    4096,
                    |a: int|
                        if offset <= a < offset + i {
                            data@[a - offset]
                        } else {
                            old(self).0@[a]
                        },
                ),
        {
            self.0[i + offset] = data[i];
        }
        Ok(())
    }

    /// Fetches a 2-byte instruction at a given address.
    fn fetch_instruction(&self, address: u16) -> (word: &[u8])
        requires
            address % 2 == 0,
            address + 2 <= 4096,
        ensures
            word@.len() == 2,
            word@[0] == self.0@[address as int],
            word@[1] == self.0@[address + 1],
    {
        let index = address as usize;
        let word = vstd::slice::slice_subrange(vstd::array::array_as_slice(&self.0), index, index + 2);
        word
    }
}

/// [Stack] is the program stack for the Chip-8 emulator. The stack is used to store
/// return addresses for subroutine calls. The bottom slot is never used, so
/// calls can nest 15 deep.
struct Stack {
    stack_index: usize,
    memory: [u16; STACK_SIZE],
}

impl View for Stack {
    type V = Seq<u16>;

    /// The return addresses on the stack, the innermost last.
    closed spec fn view(&self) -> Seq<u16> {
        self.memory@.subrange(
            1,
            if self.stack_index <= MAX_STACK_DEPTH {
                self.stack_index + 1
            } else {
                STACK_SIZE as int
            },
        )
    }
}

impl Stack {
    #[verifier::type_invariant]
    spec fn within_capacity(self) -> bool {
        self.stack_index <= MAX_STACK_DEPTH
    }

    /// The empty stack.
    fn new() -> (stack: Self)
        ensures
            stack@ == Seq::<u16>::empty(),
    {
        let stack = Stack { stack_index: 0, memory: [0; STACK_SIZE] };
        assert(stack@ =~= Seq::<u16>::empty());
        stack
    }

    /// Pushes an address onto the stack. Returns a stack overflow error if the stack is
    /// full and no more addresses can be pushed.
    fn push(&mut self, addr: u16) -> (result: Result<(), EmulationError>)
        ensures
            old(self)@.len() <= 15,
            match result {
                Ok(_) => old(self)@.len() < 15 && final(self)@ == old(self)@.push(addr),
                Err(e) => {
                    &&& old(self)@.len() == 15
                    &&& e == EmulationError::StackOverflow
                    &&& final(self)@ == old(self)@
                },
            },
    {
        proof {
            use_type_invariant(&*self);
        }
        if self.stack_index >= STACK_SIZE - 1 {
            return Err(EmulationError::StackOverflow);
        }
        self.stack_index += 1;
        self.memory[self.stack_index] = addr;
        assert(self@ =~= old(self)@.push(addr));
        Ok(())
    }

    /// Pops an address off of the top of the stack. Returns a stack underflow error if
    /// the stack is empty and not addresses can be popped off.
    fn pop(&mut self) -> (result: Result<u16, EmulationError>)
        ensures
            old(self)@.len() <= 15,
            match result {
                Ok(addr) => {
                    &&& old(self)@.len() > 0
                    &&& addr == old(self)@.last()
                    &&& final(self)@ == old(self)@.drop_last()
                },
                Err(e) => {
                    &&& old(self)@.len() == 0
                    &&& e == EmulationError::StackUnderflow
                    &&& final(self)@ == old(self)@
                },
            },
    {
        proof {
            use_type_invariant(&*self);
        }
        if self.stack_index == 0 {
            return Err(EmulationError::StackUnderflow);
        }
        let addr = self.memory[self.stack_index];
        self.stack_index -= 1;
        assert(self@ =~= old(self)@.drop_last());
        Ok(addr)
    }
}

/// [Registers] is a collection of 16 general purpose registers.
struct Registers([u8; 16]);

impl Registers {
    /// Registers that all hold zero.
    fn new() -> (registers: Self)
        ensures
            registers.0@ == Seq::new(16, |k: int| 0u8),
    {
        let registers = Registers([0; 16]);
        assert(registers.0@ =~= Seq::new(16, |k: int| 0u8));
        registers
    }

    /// Retrieves the value stored in a specific register.
    #[inline]
    fn get(&self, r: Register) -> (value: u8)
        ensures
            value == self.0@[r.0@ as int],
            r.0@ < 16,
    {
        self.0[r.0.as_usize()]
    }

    /// Sets the value of a specific register.
    #[inline]
    fn set(&mut self, r: Register, value: u8)
        ensures
            final(self).0@ == old(self).0@.update(r.0@ as int, value),
            r.0@ < 16,
    {
        self.0[r.0.as_usize()] = value;
    }
}

struct EmulatorState {
    registers: Registers,
    address_register: u16,  // aka. I
    program_counter: u16,  // aka. PC
    delay_register: u8,
    sound_register: u8,
    stack: Stack,
    memory: Memory,
}

impl EmulatorState {
    /// The state in which everything is zero.
    fn new() -> (state: Self)
        ensures
            state.registers.0@ == Seq::new(16, |k: int| 0u8),
            state.address_register == 0,
            state.program_counter == 0,
            state.delay_register == 0,
            state.sound_register == 0,
            state.stack@ == Seq::<u16>::empty(),
            state.memory.0@ == Seq::new(4096, |a: int| 0u8),
    {
        EmulatorState {
            registers: Registers::new(),
            address_register: 0,
            program_counter: 0,
            delay_register: 0,
            sound_register: 0,
            stack: Stack::new(),
            memory: Memory::new(),
        }
    }
}

/// [Emulator] is one machine: its state and the mode of its engine. A host
/// loads a program with [`Emulator::run`] and then drives the machine with
/// [`Emulator::step`] and [`Emulator::tick`].
pub struct Emulator {
    start_address: u16,
    state: EmulatorState,
    mode: Mode,
}

impl View for Emulator {
    type V = Machine;

    /// The state of the machine.
    closed spec fn view(&self) -> Machine {
        Machine {
            registers: self.state.registers.0@,
            address_register: self.state.address_register,
            program_counter: self.state.program_counter,
            delay_timer: self.state.delay_register,
            sound_timer: self.state.sound_register,
            stack: self.state.stack@,
            memory: self.state.memory.0@,
            mode: self.mode,
            start_address: self.start_address,
        }
    }
}

/// The sizes of the parts of a machine are fixed, and its stack is never
/// deeper than the greatest depth.
pub broadcast proof fn lemma_emulator_wf(emulator: Emulator)
    ensures
        #[trigger] emulator@.wf(),
{
}

impl Emulator {
    /// Constructs a new emulator with default options: programs start at
    /// `0x200`.
    pub fn new() -> (emulator: Self)
        ensures
            emulator@ == reset(0x200, Mode::Running),
            emulator@.wf(),
    {
        Emulator { start_address: 0x200, state: EmulatorState::new(), mode: Mode::Running }
    }

    /// Sets the address that programs are loaded at and start from.
    pub fn with_start_address(self, start_address: u16) -> (emulator: Self)
        ensures
            emulator@ == (Machine { start_address, ..self@ }),
    {
        Emulator { start_address, state: self.state, mode: self.mode }
    }

    /// Resets the machine and loads a program written in Chip-8 machine code
    /// at the start address, ready to run from there.
    ///
    /// A program that does not fit in memory from the start address on is a
    /// fault: the machine halts, with everything zero.
    pub fn run(&mut self, program: &[u8]) -> (result: Result<(), EmulationError>)
        ensures
            final(self)@.wf(),
            match result {
                Ok(_) => {
                    &&& old(self)@.start_address + program@.len() <= 4096
                    &&& final(self)@ == loaded(old(self)@.start_address, program@)
                },
                Err(e) => {
                    &&& old(self)@.start_address + program@.len() > 4096
                    &&& e == EmulationError::OutOfMemory
                    &&& final(self)@ == reset(old(self)@.start_address, Mode::Halted(e))
                },
            },
    {
        self.state = EmulatorState::new();
        match self.state.memory.load(self.start_address as usize, program) {
            Ok(_) => {
                self.state.program_counter = self.start_address;
                self.mode = Mode::Running;
                assert(self@.memory =~= loaded(old(self)@.start_address, program@).memory);
                Ok(())
            },
            Err(e) => {
                self.mode = Mode::Halted(e);
                Err(e)
            },
        }
    }
}

impl Emulator {
    /// The value of a register.
    pub(crate) fn v(&self, r: Register) -> (value: u8)
        ensures
            value == self@.v(r),
    {
        self.state.registers.get(r)
    }

    /// Sets a register.
    pub(crate) fn set_v(&mut self, r: Register, value: u8)
        ensures
            final(self)@ == old(self)@.set_v(r, value),
    {
        self.state.registers.set(r, value);
    }

    /// Sets the flags register.
    pub(crate) fn set_flag(&mut self, value: u8)
        ensures
            final(self)@ == old(self)@.set_flag(value),
    {
        self.state.registers.0[15] = value;
    }

    /// Sets the address register.
    pub(crate) fn set_i(&mut self, address: u16)
        ensures
            final(self)@ == old(self)@.set_i(address),
    {
        self.state.address_register = address;
    }

    /// Sets the program counter.
    pub(crate) fn goto(&mut self, address: u16)
        ensures
            final(self)@ == old(self)@.goto(address),
    {
        self.state.program_counter = address;
    }

    /// Moves the program counter to the next instruction.
    pub(crate) fn advance(&mut self)
        ensures
            final(self)@ == old(self)@.advance(),
    {
        self.state.program_counter = wrapped(self.state.program_counter as u32 + 2);
    }

    /// Moves the program counter past the next instruction if `condition`
    /// holds, and to the next instruction otherwise.
    pub(crate) fn skip_if(&mut self, condition: bool)
        ensures
            final(self)@ == old(self)@.skip_if(condition),
    {
        if condition {
            self.state.program_counter = wrapped(self.state.program_counter as u32 + 4);
        } else {
            self.advance();
        }
    }

    /// The address `offset` bytes after the address register.
    fn address(&self, offset: usize) -> (address: usize)
        requires
            offset < 16,
        ensures
            address == self@.address(offset as int),
            address < 4096,
    {
        (self.state.address_register as usize + offset) % MEMORY_SIZE
    }

    /// Jumps to `addr` plus the value of `V0`.
    pub(crate) fn jump_relative(&mut self, addr: u16)
        ensures
            final(self)@ == old(self)@.goto(wrap_address(old(self)@.registers[0] + addr)),
    {
        let v0 = self.state.registers.0[0];
        self.goto(wrapped(v0 as u32 + addr as u32));
    }

    /// Adds `value` to the address register and moves on to the next
    /// instruction.
    pub(crate) fn advance_i(&mut self, value: u8)
        ensures
            final(self)@ == old(self)@.set_i(
                wrap_address(old(self)@.address_register + value),
            ).advance(),
    {
        self.point(wrapped(self.state.address_register as u32 + value as u32));
    }

    /// Resumes execution with a reported key press: the key goes to the
    /// register that waits for it.
    pub(crate) fn resume(&mut self, x: Register, key: Nibble)
        ensures
            final(self)@ == (Machine { mode: Mode::Running, ..old(self)@ }).set_v(x, key@).advance(),
    {
        self.mode = Mode::Running;
        self.assign(x, key.as_u8());
    }

    /// Fetches the instruction word at the program counter.
    pub(crate) fn fetch(&self) -> (word: &[u8])
        requires
            self@.can_fetch(),
        ensures
            word@.len() == 2,
            word@[0] == self@.memory[self@.program_counter as int],
            word@[1] == self@.memory[self@.program_counter + 1],
    {
        self.state.memory.fetch_instruction(self.state.program_counter)
    }

    /// Halts the machine with a fault.
    pub(crate) fn halt(&mut self, error: EmulationError) -> (result: Result<Action, EmulationError>)
        ensures
            final(self)@ == old(self)@.halt(error),
            result == Err::<Action, EmulationError>(error),
    {
        self.mode = Mode::Halted(error);
        Err(error)
    }

    /// Returns from a subroutine.
    pub(crate) fn ret(&mut self) -> (result: Result<Action, EmulationError>)
        ensures
            final(self)@ == execute_spec(old(self)@, Seq::empty(), Seq::empty(), 0, Opcode::Ret).machine,
            result == execute_spec(old(self)@, Seq::empty(), Seq::empty(), 0, Opcode::Ret).result,
    {
        match self.state.stack.pop() {
            Ok(addr) => {
                self.goto(addr);
                Ok(Action::Continue)
            },
            Err(e) => self.halt(e),
        }
    }

    /// Calls the subroutine at `addr`.
    pub(crate) fn call(&mut self, addr: u16) -> (result: Result<Action, EmulationError>)
        ensures
            final(self)@ == execute_spec(
                old(self)@,
                Seq::empty(),
                Seq::empty(),
                0,
                Opcode::Call(addr),
            ).machine,
            result == execute_spec(
                old(self)@,
                Seq::empty(),
                Seq::empty(),
                0,
                Opcode::Call(addr),
            ).result,
    {
        let return_address = wrapped(self.state.program_counter as u32 + 2);
        match self.state.stack.push(return_address) {
            Ok(_) => {
                self.goto(addr);
                Ok(Action::Continue)
            },
            Err(e) => self.halt(e),
        }
    }

    /// Draws the sprite of `height` rows at the address register with its
    /// top left corner at `(vx, vy)`, and sets the flags register to whether
    /// a pixel was unset.
    pub(crate) fn draw(&mut self, display: &mut Display, vx: u8, vy: u8, height: Nibble)
        ensures
            final(display)@ == drawn(old(display)@, old(self)@.sprite(height@ as int), vx, vy),
            final(self)@ == old(self)@.set_flag(
                if collides(old(display)@, old(self)@.sprite(height@ as int), vx, vy) {
                    1
                } else {
                    0
                },
            ),
    {
        broadcast use lemma_display_len;

        let ghost before = display@;
        let ghost sprite = self@.sprite(height@ as int);
        let rows = height.as_usize();
        let mut collision = false;
        let mut r: usize = 0;
        assert(display@ =~= drawn_before(before, sprite, vx, vy, 0, 0));
        while r < rows
            invariant
                r <= rows == sprite.len() <= 15,
                before.len() == 2048,
                sprite == self@.sprite(height@ as int),
                self@ == old(self)@,
                display@ == drawn_before(before, sprite, vx, vy, r as int, 0),
                collision == collides_before(before, sprite, vx, vy, r as int, 0),
            decreases rows - r,
        {
            let byte = self.state.memory.0[self.address(r)];
            assert(byte == sprite[r as int]);
            let mut c: usize = 0;
            while c < 8
                invariant
                    r < rows == sprite.len() <= 15,
                    c <= 8,
                    before.len() == 2048,
                    byte == sprite[r as int],
                    display@ == drawn_before(before, sprite, vx, vy, r as int, c as int),
                    collision == collides_before(before, sprite, vx, vy, r as int, c as int),
                decreases 8 - c,
            {
                proof {
                    lemma_draw_bit(before, sprite, vx, vy, r as int, c as int);
                }
                if byte & (0x80u8 >> (c as u8)) != 0 {
                    let previous = display.xor_pixel(vx as usize + c, vy as usize + r);
                    if previous {
                        collision = true;
                    }
                }
                c += 1;
                assert(display@ =~= drawn_before(before, sprite, vx, vy, r as int, c as int));
            }
            proof {
                lemma_draw_row(before, sprite, vx, vy, r as int);
            }
            r += 1;
            assert(display@ =~= drawn_before(before, sprite, vx, vy, r as int, 0));
        }
        proof {
            lemma_draw_done(before, sprite, vx, vy);
        }
        assert(display@ =~= drawn(before, sprite, vx, vy));
        self.set_flag(
            if collision {
                1
            } else {
                0
            },
        );
    }

    /// Stores the decimal digits of `value` at the address register.
    pub(crate) fn store_digits(&mut self, value: u8)
        ensures
            final(self)@ == (Machine { memory: old(self)@.with_digits(value), ..old(self)@ }),
    {
        let a0 = self.address(0);
        let a1 = self.address(1);
        let a2 = self.address(2);
        self.state.memory.0[a0] = value / 100;
        self.state.memory.0[a1] = (value / 10) % 10;
        self.state.memory.0[a2] = value % 10;
    }

    /// Stores the registers `V0` to `V[last]` at the address register.
    pub(crate) fn dump(&mut self, last: Nibble)
        ensures
            final(self)@ == (Machine { memory: old(self)@.with_dump(last@ as int), ..old(self)@ }),
    {
        let count = last.as_usize() + 1;
        let ghost before = self@;
        assert(self@.memory =~= Seq::new(
            4096,
            |a: int|
                {
                    let d = (a - before.address_register) % 4096;
                    if d < 0 {
                        before.registers[d]
                    } else {
                        before.memory[a]
                    }
                },
        ));
        for k in 0..count
            invariant
                count == last@ + 1 <= 16,
                before == old(self)@,
                self@ == (Machine { memory: self@.memory, ..before }),
                self@.memory == Seq::new(
                    4096,
                    |a: int|
                        {
                            let d = (a - before.address_register) % 4096;
                            if d < k {
                                before.registers[d]
                            } else {
                                before.memory[a]
                            }
                        },
                ),
        {
            let address = self.address(k);
            self.state.memory.0[address] = self.state.registers.0[k];
        }
        assert(self@.memory =~= before.with_dump(last@ as int));
    }

    /// Loads the registers `V0` to `V[last]` from memory at the address
    /// register.
    pub(crate) fn restore(&mut self, last: Nibble)
        ensures
            final(self)@ == (Machine {
                registers: old(self)@.with_restore(last@ as int),
                ..old(self)@
            }),
    {
        let count = last.as_usize() + 1;
        let ghost before = self@;
        assert(self@.registers =~= Seq::new(
            16,
            |j: int|
                if j < 0 {
                    before.memory[before.address(j)]
                } else {
                    before.registers[j]
                },
        ));
        for k in 0..count
            invariant
                count == last@ + 1 <= 16,
                before == old(self)@,
                self@ == (Machine { registers: self@.registers, ..before }),
                self@.registers == Seq::new(
                    16,
                    |j: int|
                        if j < k {
                            before.memory[before.address(j)]
                        } else {
                            before.registers[j]
                        },
                ),
        {
            let address = self.address(k);
            self.state.registers.0[k] = self.state.memory.0[address];
        }
        assert(self@.registers =~= before.with_restore(last@ as int));
    }

    /// Sets a register and moves on to the next instruction.
    pub(crate) fn assign(&mut self, x: Register, value: u8)
        ensures
            final(self)@ == old(self)@.set_v(x, value).advance(),
    {
        self.set_v(x, value);
        self.advance();
    }

    /// Sets a register, then the flags register, and moves on to the next
    /// instruction.
    pub(crate) fn assign_with_flag(&mut self, x: Register, value: u8, flag: u8)
        ensures
            final(self)@ == old(self)@.set_v(x, value).set_flag(flag).advance(),
    {
        self.set_v(x, value);
        self.set_flag(flag);
        self.advance();
    }

    /// Sets the address register and moves on to the next instruction.
    pub(crate) fn point(&mut self, address: u16)
        ensures
            final(self)@ == old(self)@.set_i(address).advance(),
    {
        self.set_i(address);
        self.advance();
    }

    /// Sets the delay timer and moves on to the next instruction.
    pub(crate) fn set_delay(&mut self, value: u8)
        ensures
            final(self)@ == (Machine { delay_timer: value, ..old(self)@ }).advance(),
    {
        self.state.delay_register = value;
        self.advance();
    }

    /// Sets the sound timer and moves on to the next instruction. Returns
    /// what the host has to do about the tone.
    pub(crate) fn set_sound(&mut self, value: u8) -> (action: Action)
        ensures
            final(self)@ == (Machine { sound_timer: value, ..old(self)@ }).advance(),
            action == tone_action(old(self)@.sound_timer, value),
    {
        let before = self.state.sound_register;
        self.state.sound_register = value;
        self.advance();
        tone_change(before, value)
    }

    /// Suspends execution until a key press is reported.
    pub(crate) fn await_key(&mut self, x: Register)
        ensures
            final(self)@ == (Machine { mode: Mode::AwaitingKey(x), ..old(self)@ }),
    {
        self.mode = Mode::AwaitingKey(x);
    }

    /// Lets one tick of the timers' clock pass: both timers go down by one
    /// unless they are at zero. Returns `Some(false)` if the tone has to be
    /// switched off because the sound timer reached zero.
    pub fn tick(&mut self) -> (tone: Option<bool>)
        ensures
            final(self)@ == tick_spec(old(self)@),
            tone == tick_tone(old(self)@.sound_timer),
    {
        if self.state.delay_register > 0 {
            self.state.delay_register -= 1;
        }
        if self.state.sound_register > 0 {
            self.state.sound_register -= 1;
            if self.state.sound_register == 0 {
                return Some(false);
            }
        }
        None
    }

    /// Whether [`Emulator::step`] can be called: the machine waits for a key
    /// or has halted, or its program counter is even and within memory.
    pub fn can_step(&self) -> (yes: bool)
        ensures
            yes == self@.can_step(),
    {
        match self.mode {
            Mode::Running => self.state.program_counter % 2 == 0 && self.state.program_counter
                as usize + 2 <= MEMORY_SIZE,
            _ => true,
        }
    }

    /// Whether the machine runs, waits for a key or has halted.
    pub fn mode(&self) -> (mode: Mode)
        ensures
            mode == self@.mode,
    {
        self.mode
    }

    /// The value of a general-purpose register.
    pub fn register(&self, r: Register) -> (value: u8)
        ensures
            value == self@.v(r),
    {
        self.v(r)
    }

    /// The value of the address register.
    pub fn address_register(&self) -> (value: u16)
        ensures
            value == self@.address_register,
    {
        self.state.address_register
    }

    /// The value of the program counter.
    pub fn program_counter(&self) -> (value: u16)
        ensures
            value == self@.program_counter,
    {
        self.state.program_counter
    }

    /// The value of the delay timer.
    pub fn delay_timer(&self) -> (value: u8)
        ensures
            value == self@.delay_timer,
    {
        self.state.delay_register
    }

    /// The value of the sound timer.
    pub fn sound_timer(&self) -> (value: u8)
        ensures
            value == self@.sound_timer,
    {
        self.state.sound_register
    }

    /// The number of subroutine calls in progress.
    pub fn stack_depth(&self) -> (depth: usize)
        ensures
            depth == self@.stack.len(),
            depth <= 15,
    {
        proof {
            use_type_invariant(&self.state.stack);
        }
        self.state.stack.stack_index
    }

    /// The byte of memory at `address`, if there is one.
    pub fn memory_byte(&self, address: u16) -> (byte: Option<u8>)
        ensures
            byte == (if address < 4096 {
                Some(self@.memory[address as int])
            } else {
                None
            }),
    {
        if (address as usize) < MEMORY_SIZE {
            Some(self.state.memory.0[address as usize])
        } else {
            None
        }
    }
}

/// An address taken modulo the size of memory.
fn wrapped(address: u32) -> (wrapped: u16)
    ensures
        wrapped == wrap_address(address as int),
{
    (address % 4096) as u16
}

/// What the host is told when the sound timer is set.
fn tone_change(before: u8, after: u8) -> (action: Action)
    ensures
        action == tone_action(before, after),
{
    if before == 0 && after != 0 {
        Action::SetTone(true)
    } else if before != 0 && after == 0 {
        Action::SetTone(false)
    } else {
        Action::Continue
    }
}

/// Whether a set bit of the sprite lands on the pixel with index `k` and
/// comes before column `c` of row `r` when the sprite is drawn row by row,
/// each row from the left.
spec fn covers_before(sprite: Seq<u8>, vx: u8, vy: u8, k: int, r: int, c: int) -> bool {
    let column = (k % 64 - vx) % 64;
    let row = (k / 64 - vy) % 32;
    sprite_covers(sprite, vx, vy, k % 64, k / 64) && (row < r || (row == r && column < c))
}

/// The display while a sprite is being drawn, just before its bit in column
/// `c` of row `r` is.
spec fn drawn_before(
    display: Seq<bool>,
    sprite: Seq<u8>,
    vx: u8,
    vy: u8,
    r: int,
    c: int,
) -> Seq<bool> {
    Seq::new(2048, |k: int| display[k] != covers_before(sprite, vx, vy, k, r, c))
}

/// Whether a pixel was unset while a sprite was being drawn, before its bit
/// in column `c` of row `r` is.
spec fn collides_before(
    display: Seq<bool>,
    sprite: Seq<u8>,
    vx: u8,
    vy: u8,
    r: int,
    c: int,
) -> bool {
    exists|k: int|
        0 <= k < 2048 && #[trigger] display[k] && covers_before(sprite, vx, vy, k, r, c)
}

/// Drawing the bit in column `c` of row `r` flips the one pixel that it
/// lands on if the bit is set, and leaves every other pixel as it is.
proof fn lemma_draw_bit(before: Seq<bool>, sprite: Seq<u8>, vx: u8, vy: u8, r: int, c: int)
    requires
        before.len() == 2048,
        0 <= r < sprite.len() <= 15,
        0 <= c < 8,
    ensures
        ({
            let k0 = pixel_index((vx + c) % 64, (vy + r) % 32);
            let bit = sprite[r] & (0x80u8 >> (c as u8)) != 0;
            &&& 0 <= k0 < 2048
            &&& drawn_before(before, sprite, vx, vy, r, c)[k0] == before[k0]
            &&& drawn_before(before, sprite, vx, vy, r, c + 1) == if bit {
                drawn_before(before, sprite, vx, vy, r, c).update(k0, !before[k0])
            } else {
                drawn_before(before, sprite, vx, vy, r, c)
            }
            &&& collides_before(before, sprite, vx, vy, r, c + 1) == (collides_before(
                before,
                sprite,
                vx,
                vy,
                r,
                c,
            ) || (bit && before[k0]))
        }),
{
    let k0 = pixel_index((vx + c) % 64, (vy + r) % 32);
    let bit = sprite[r] & (0x80u8 >> (c as u8)) != 0;
    assert(sprite_bit(sprite[r], c) == bit);
    assert(((k0 % 64) - vx) % 64 == c);
    assert(((k0 / 64) - vy) % 32 == r);
    assert forall|k: int| 0 <= k < 2048 implies #[trigger] covers_before(
        sprite,
        vx,
        vy,
        k,
        r,
        c + 1,
    ) == (covers_before(sprite, vx, vy, k, r, c) || (k == k0 && bit)) by {
        let column = ((k % 64) - vx) % 64;
        let row = ((k / 64) - vy) % 32;
        if row == r && column == c {
            assert(k == k0);
        }
    }
    assert(drawn_before(before, sprite, vx, vy, r, c + 1) =~= if bit {
        drawn_before(before, sprite, vx, vy, r, c).update(k0, !before[k0])
    } else {
        drawn_before(before, sprite, vx, vy, r, c)
    });
    if collides_before(before, sprite, vx, vy, r, c + 1) {
        let k = choose|k: int|
            0 <= k < 2048 && #[trigger] before[k] && covers_before(sprite, vx, vy, k, r, c + 1);
        if k != k0 {
            assert(before[k] && covers_before(sprite, vx, vy, k, r, c));
        }
    }
    if collides_before(before, sprite, vx, vy, r, c) {
        let k = choose|k: int|
            0 <= k < 2048 && #[trigger] before[k] && covers_before(sprite, vx, vy, k, r, c);
        assert(before[k] && covers_before(sprite, vx, vy, k, r, c + 1));
    }
    if bit && before[k0] {
        assert(before[k0] && covers_before(sprite, vx, vy, k0, r, c + 1));
    }
}

/// Nothing is drawn between the last bit of a row and the first bit of the
/// next row.
proof fn lemma_draw_row(before: Seq<bool>, sprite: Seq<u8>, vx: u8, vy: u8, r: int)
    requires
        before.len() == 2048,
        0 <= r < sprite.len() <= 15,
    ensures
        drawn_before(before, sprite, vx, vy, r, 8) == drawn_before(before, sprite, vx, vy, r + 1, 0),
        collides_before(before, sprite, vx, vy, r, 8) == collides_before(
            before,
            sprite,
            vx,
            vy,
            r + 1,
            0,
        ),
{
    assert forall|k: int| 0 <= k < 2048 implies #[trigger] covers_before(sprite, vx, vy, k, r, 8)
        == covers_before(sprite, vx, vy, k, r + 1, 0) by {}
    assert(drawn_before(before, sprite, vx, vy, r, 8) =~= drawn_before(
        before,
        sprite,
        vx,
        vy,
        r + 1,
        0,
    ));
    if collides_before(before, sprite, vx, vy, r, 8) {
        let k = choose|k: int|
            0 <= k < 2048 && #[trigger] before[k] && covers_before(sprite, vx, vy, k, r, 8);
        assert(before[k] && covers_before(sprite, vx, vy, k, r + 1, 0));
    }
    if collides_before(before, sprite, vx, vy, r + 1, 0) {
        let k = choose|k: int|
            0 <= k < 2048 && #[trigger] before[k] && covers_before(sprite, vx, vy, k, r + 1, 0);
        assert(before[k] && covers_before(sprite, vx, vy, k, r, 8));
    }
}

/// Once the last row is drawn, the whole sprite is.
proof fn lemma_draw_done(before: Seq<bool>, sprite: Seq<u8>, vx: u8, vy: u8)
    requires
        before.len() == 2048,
        sprite.len() <= 15,
    ensures
        drawn_before(before, sprite, vx, vy, sprite.len() as int, 0) == drawn(
            before,
            sprite,
            vx,
            vy,
        ),
        collides_before(before, sprite, vx, vy, sprite.len() as int, 0) == collides(
            before,
            sprite,
            vx,
            vy,
        ),
{
    let n = sprite.len() as int;
    assert forall|k: int| 0 <= k < 2048 implies #[trigger] covers_before(sprite, vx, vy, k, n, 0)
        == sprite_covers(sprite, vx, vy, k % 64, k / 64) by {}
    assert(drawn_before(before, sprite, vx, vy, n, 0) =~= drawn(before, sprite, vx, vy));
    if collides_before(before, sprite, vx, vy, n, 0) {
        let k = choose|k: int|
            0 <= k < 2048 && #[trigger] before[k] && covers_before(sprite, vx, vy, k, n, 0);
        assert(before[k] && sprite_covers(sprite, vx, vy, k % 64, k / 64));
    }
    if collides(before, sprite, vx, vy) {
        let k = choose|k: int|
            0 <= k < 2048 && #[trigger] before[k] && sprite_covers(sprite, vx, vy, k % 64, k / 64);
        assert(before[k] && covers_before(sprite, vx, vy, k, n, 0));
    }
}

impl Default for Emulator {
    /// Constructs a new emulator with default options.
    fn default() -> (emulator: Self)
        ensures
            emulator@ == reset(0x200, Mode::Running),
    {
        Self::new()
    }
}

} // verus!
