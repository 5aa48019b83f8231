//! Instruction dispatch and the step operation.

use vstd::prelude::*;

use crate::data::Nibble;
use crate::display::Display;
use crate::emulation::{lemma_emulator_wf, Action, EmulationError, Emulator, Mode};
use crate::keypad::Keypad;
use crate::machine::{execute_spec, step_spec, GLYPH_SIZE};
use crate::opcode::Opcode;

verus! {

/// Whether an instruction only moves the program counter.
spec fn is_flow(op: Opcode) -> bool {
    op is Sys || op is Ret || op is Jp || op is Call || op is Se || op is Sne || op is Sev
        || op is Snev || op is JpV0 || op is Skp || op is Sknp
}

/// Whether an instruction computes the value of a register.
spec fn is_arithmetic(op: Opcode) -> bool {
    op is LdImm || op is AddImm || op is Ld || op is Or || op is And || op is Xor || op is Add
        || op is Sub || op is Shr || op is Subn || op is Shl || op is Rnd || op is LdVDt
}

/// The sum of two bytes modulo 256, and 1 if the sum did not fit in a byte.
fn add_with_carry(a: u8, b: u8) -> (result: (u8, u8))
    ensures
        result.0 == ((a + b) % 256) as u8,
        result.1 == if a + b > 255 {
            1u8
        } else {
            0u8
        },
{
    let carry: u8 = if a as u16 + b as u16 > 255 {
        1
    } else {
        0
    };
    (a.wrapping_add(b), carry)
}

/// The difference of two bytes modulo 256, and 1 if nothing was borrowed.
fn subtract_with_borrow(a: u8, b: u8) -> (result: (u8, u8))
    ensures
        result.0 == ((a - b) % 256) as u8,
        result.1 == if a >= b {
            1u8
        } else {
            0u8
        },
{
    let no_borrow: u8 = if a >= b {
        1
    } else {
        0
    };
    (a.wrapping_sub(b), no_borrow)
}

/// A byte shifted left by one bit, and the bit that was shifted out.
fn shift_left(a: u8) -> (result: (u8, u8))
    ensures
        result.0 == ((a * 2) % 256) as u8,
        result.1 == a / 128,
{
    (((a as u16 * 2) % 256) as u8, a / 128)
}

impl Emulator {
    /// Executes an instruction that only moves the program counter: jumps,
    /// calls, returns and skips.
    fn execute_flow(
        &mut self,
        op: Opcode,
        display: &mut Display,
        keypad: &Keypad,
        random_byte: u8,
    ) -> (result: Result<Action, EmulationError>)
        requires
            is_flow(op),
        ensures
            final(self)@ == execute_spec(
                old(self)@,
                old(display)@,
                keypad@,
                random_byte,
                op,
            ).machine,
            final(display)@ == execute_spec(
                old(self)@,
                old(display)@,
                keypad@,
                random_byte,
                op,
            ).display,
            result == execute_spec(old(self)@, old(display)@, keypad@, random_byte, op).result,
    {
        match op {
            Opcode::Sys(_) => self.advance(),
            Opcode::Ret => {
                return self.ret();
            },
            Opcode::Jp(addr) => self.goto(addr),
            Opcode::Call(addr) => {
                return self.call(addr);
            },
            Opcode::Se(x, kk) => {
                let vx = self.v(x);
                self.skip_if(vx == kk);
            },
            Opcode::Sne(x, kk) => {
                let vx = self.v(x);
                self.skip_if(vx != kk);
            },
            Opcode::Sev(x, y) => {
                let (vx, vy) = (self.v(x), self.v(y));
                self.skip_if(vx == vy);
            },
            Opcode::Snev(x, y) => {
                let (vx, vy) = (self.v(x), self.v(y));
                self.skip_if(vx != vy);
            },
            Opcode::JpV0(addr) => self.jump_relative(addr),
            Opcode::Skp(x) => {
                let vx = self.v(x);
                self.skip_if(keypad.is_pressed(vx));
            },
            Opcode::Sknp(x) => {
                let vx = self.v(x);
                self.skip_if(!keypad.is_pressed(vx));
            },
            _ => {},
        }
        Ok(Action::Continue)
    }

    /// Executes an instruction that computes the value of a register.
    fn execute_arithmetic(
        &mut self,
        op: Opcode,
        display: &mut Display,
        keypad: &Keypad,
        random_byte: u8,
    ) -> (result: Result<Action, EmulationError>)
        requires
            is_arithmetic(op),
        ensures
            final(self)@ == execute_spec(
                old(self)@,
                old(display)@,
                keypad@,
                random_byte,
                op,
            ).machine,
            final(display)@ == execute_spec(
                old(self)@,
                old(display)@,
                keypad@,
                random_byte,
                op,
            ).display,
            result == execute_spec(old(self)@, old(display)@, keypad@, random_byte, op).result,
    {
        match op {
            Opcode::LdImm(x, kk) => self.assign(x, kk),
            Opcode::AddImm(x, kk) => {
                let (sum, _) = add_with_carry(self.v(x), kk);
                self.assign(x, sum);
            },
            Opcode::Ld(x, y) => {
                let vy = self.v(y);
                self.assign(x, vy);
            },
            Opcode::Or(x, y) => {
                let (vx, vy) = (self.v(x), self.v(y));
                self.assign(x, vx | vy);
            },
            Opcode::And(x, y) => {
                let (vx, vy) = (self.v(x), self.v(y));
                self.assign(x, vx & vy);
            },
            Opcode::Xor(x, y) => {
                let (vx, vy) = (self.v(x), self.v(y));
                self.assign(x, vx ^ vy);
            },
            Opcode::Add(x, y) => {
                let (sum, carry) = add_with_carry(self.v(x), self.v(y));
                self.assign_with_flag(x, sum, carry);
            },
            Opcode::Sub(x, y) => {
                let (difference, no_borrow) = subtract_with_borrow(self.v(x), self.v(y));
                self.assign_with_flag(x, difference, no_borrow);
            },
            Opcode::Shr(x) => {
                let vx = self.v(x);
                self.assign_with_flag(x, vx / 2, vx % 2);
            },
            Opcode::Subn(x, y) => {
                let (difference, no_borrow) = subtract_with_borrow(self.v(y), self.v(x));
                self.assign_with_flag(x, difference, no_borrow);
            },
            Opcode::Shl(x) => {
                let (shifted, top) = shift_left(self.v(x));
                self.assign_with_flag(x, shifted, top);
            },
            Opcode::Rnd(x, kk) => self.assign(x, random_byte & kk),
            Opcode::LdVDt(x) => {
                let dt = self.delay_timer();
                self.assign(x, dt);
            },
            _ => {},
        }
        Ok(Action::Continue)
    }

    /// Executes an instruction that works on the display, the timers, the
    /// address register or memory, or that waits for a key.
    fn execute_system(
        &mut self,
        op: Opcode,
        display: &mut Display,
        keypad: &Keypad,
        random_byte: u8,
    ) -> (result: Result<Action, EmulationError>)
        requires
            !is_flow(op),
            !is_arithmetic(op),
        ensures
            final(self)@ == execute_spec(
                old(self)@,
                old(display)@,
                keypad@,
                random_byte,
                op,
            ).machine,
            final(display)@ == execute_spec(
                old(self)@,
                old(display)@,
                keypad@,
                random_byte,
                op,
            ).display,
            result == execute_spec(old(self)@, old(display)@, keypad@, random_byte, op).result,
    {
        match op {
            Opcode::Cls => {
                display.clear();
                self.advance();
            },
            Opcode::Ldi(addr) => self.point(addr),
            Opcode::Drw(x, y, n) => {
                let (vx, vy) = (self.v(x), self.v(y));
                self.draw(display, vx, vy, n);
                self.advance();
            },
            Opcode::LdK(x) => {
                self.await_key(x);
                return Ok(Action::AwaitKey);
            },
            Opcode::LdDtV(x) => {
                let vx = self.v(x);
                self.set_delay(vx);
            },
            Opcode::LdStV(x) => {
                let vx = self.v(x);
                return Ok(self.set_sound(vx));
            },
            Opcode::AddI(x) => {
                let vx = self.v(x);
                self.advance_i(vx);
            },
            Opcode::LdF(x) => {
                let vx = self.v(x);
                self.point(GLYPH_SIZE * (vx % 16) as u16);
            },
            Opcode::LdB(x) => {
                let vx = self.v(x);
                self.store_digits(vx);
                self.advance();
            },
            Opcode::Dump(x) => {
                self.dump(x.0);
                self.advance();
            },
            Opcode::Restore(x) => {
                self.restore(x.0);
                self.advance();
            },
            _ => {},
        }
        Ok(Action::Continue)
    }

    /// Executes one instruction.
    fn execute(
        &mut self,
        op: Opcode,
        display: &mut Display,
        keypad: &Keypad,
        random_byte: u8,
    ) -> (result: Result<Action, EmulationError>)
        ensures
            final(self)@ == execute_spec(
                old(self)@,
                old(display)@,
                keypad@,
                random_byte,
                op,
            ).machine,
            final(display)@ == execute_spec(
                old(self)@,
                old(display)@,
                keypad@,
                random_byte,
                op,
            ).display,
            result == execute_spec(old(self)@, old(display)@, keypad@, random_byte, op).result,
    {
        match op {
            Opcode::Sys(_)
            | Opcode::Ret
            | Opcode::Jp(_)
            | Opcode::Call(_)
            | Opcode::Se(_, _)
            | Opcode::Sne(_, _)
            | Opcode::Sev(_, _)
            | Opcode::Snev(_, _)
            | Opcode::JpV0(_)
            | Opcode::Skp(_)
            | Opcode::Sknp(_) => self.execute_flow(op, display, keypad, random_byte),
            Opcode::LdImm(_, _)
            | Opcode::AddImm(_, _)
            | Opcode::Ld(_, _)
            | Opcode::Or(_, _)
            | Opcode::And(_, _)
            | Opcode::Xor(_, _)
            | Opcode::Add(_, _)
            | Opcode::Sub(_, _)
            | Opcode::Shr(_)
            | Opcode::Subn(_, _)
            | Opcode::Shl(_)
            | Opcode::Rnd(_, _)
            | Opcode::LdVDt(_) => self.execute_arithmetic(op, display, keypad, random_byte),
            _ => self.execute_system(op, display, keypad, random_byte),
        }
    }

    /// Executes one step.
    ///
    /// `random_byte` is the random byte drawn for this step and `key` the key
    /// press to report, if there is one. A machine that runs must have its
    /// program counter on a whole instruction word within memory:
    /// [`Emulator::can_step`] tells.
    pub fn step(
        &mut self,
        display: &mut Display,
        keypad: &Keypad,
        random_byte: u8,
        key: Option<Nibble>,
    ) -> (result: Result<Action, EmulationError>)
        requires
            old(self)@.can_step(),
        ensures
            final(self)@.wf(),
            final(self)@ == step_spec(old(self)@, old(display)@, keypad@, random_byte, key).machine,
            final(display)@ == step_spec(
                old(self)@,
                old(display)@,
                keypad@,
                random_byte,
                key,
            ).display,
            result == step_spec(old(self)@, old(display)@, keypad@, random_byte, key).result,
    {
        let result = match self.mode() {
            Mode::Halted(error) => Err(error),
            Mode::AwaitingKey(x) => match key {
                None => Ok(Action::AwaitKey),
                Some(k) => {
                    self.resume(x, k);
                    Ok(Action::Continue)
                },
            },
            Mode::Running => {
                let pc = self.program_counter();
                let opcode = Opcode::decode(self.fetch());
                match opcode {
                    None => self.halt(EmulationError::InvalidInstruction(pc)),
                    Some(op) => self.execute(op, display, keypad, random_byte),
                }
            },
        };
        proof {
            lemma_emulator_wf(*self);
        }
        result
    }
}

} // verus!
