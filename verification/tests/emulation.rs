use chip8::data::{Nibble, Register};
use chip8::display::Display;
use chip8::emulation::{Action, EmulationError, Emulator, Mode};
use chip8::keypad::Keypad;

fn v(index: u8) -> Register {
    Register(Nibble::from_low(index))
}

struct Host {
    emulator: Emulator,
    display: Display,
    keypad: Keypad,
}

fn load(program: &[u8]) -> Host {
    let mut emulator = Emulator::new();
    emulator.run(program).unwrap();
    Host { emulator, display: Display::new(), keypad: Keypad::new() }
}

impl Host {
    fn step(&mut self) -> Result<Action, EmulationError> {
        self.step_with(0, None)
    }

    fn step_with(&mut self, random_byte: u8, key: Option<Nibble>) -> Result<Action, EmulationError> {
        assert!(self.emulator.can_step());
        self.emulator.step(&mut self.display, &self.keypad, random_byte, key)
    }

    fn steps(&mut self, count: usize) {
        for _ in 0..count {
            assert_eq!(self.step(), Ok(Action::Continue));
        }
    }

    fn reg(&self, index: u8) -> u8 {
        self.emulator.register(v(index))
    }

    fn lit(&self) -> usize {
        let mut count = 0;
        for y in 0..32 {
            for x in 0..64 {
                if self.display.is_set(x, y) {
                    count += 1;
                }
            }
        }
        count
    }
}

#[test]
fn new_machine_is_all_zero_and_running() {
    let emulator = Emulator::new();
    assert_eq!(emulator.mode(), Mode::Running);
    assert_eq!(emulator.program_counter(), 0);
    assert_eq!(emulator.address_register(), 0);
    assert_eq!(emulator.delay_timer(), 0);
    assert_eq!(emulator.sound_timer(), 0);
    assert_eq!(emulator.stack_depth(), 0);
    for index in 0..16 {
        assert_eq!(emulator.register(v(index)), 0);
    }
    assert_eq!(emulator.memory_byte(0x200), Some(0));
    let same = Emulator::default();
    assert_eq!(same.mode(), Mode::Running);
    assert_eq!(same.program_counter(), 0);
}

#[test]
fn run_loads_the_program_at_0x200() {
    let host = load(&[0x12, 0x34, 0x56]);
    assert_eq!(host.emulator.program_counter(), 0x200);
    assert_eq!(host.emulator.mode(), Mode::Running);
    assert_eq!(host.emulator.memory_byte(0x1FF), Some(0));
    assert_eq!(host.emulator.memory_byte(0x200), Some(0x12));
    assert_eq!(host.emulator.memory_byte(0x201), Some(0x34));
    assert_eq!(host.emulator.memory_byte(0x202), Some(0x56));
    assert_eq!(host.emulator.memory_byte(0x203), Some(0));
    assert_eq!(host.emulator.memory_byte(0xFFF), Some(0));
    assert_eq!(host.emulator.memory_byte(0x1000), None);
}

#[test]
fn run_resets_the_machine() {
    let mut host = load(&[0x6A, 0x11, 0xA3, 0x00, 0xFA, 0x15, 0x22, 0x08, 0x00, 0x00]);
    host.steps(4);
    assert_eq!(host.reg(0xA), 0x11);
    assert_eq!(host.emulator.stack_depth(), 1);
    host.emulator.run(&[0x00, 0xE0]).unwrap();
    assert_eq!(host.reg(0xA), 0);
    assert_eq!(host.emulator.address_register(), 0);
    assert_eq!(host.emulator.delay_timer(), 0);
    assert_eq!(host.emulator.stack_depth(), 0);
    assert_eq!(host.emulator.program_counter(), 0x200);
    assert_eq!(host.emulator.memory_byte(0x202), Some(0));
    assert_eq!(host.emulator.memory_byte(0x201), Some(0xE0));
}

#[test]
fn program_that_fills_memory_fits() {
    let program = vec![0xAB; 4096 - 0x200];
    let host = load(&program);
    assert_eq!(host.emulator.memory_byte(0xFFF), Some(0xAB));
    assert_eq!(host.emulator.memory_byte(0x1FF), Some(0));
}

#[test]
fn program_that_does_not_fit_is_out_of_memory() {
    let program = vec![0xAB; 4096 - 0x200 + 1];
    let mut emulator = Emulator::new();
    assert_eq!(emulator.run(&program), Err(EmulationError::OutOfMemory));
    assert_eq!(emulator.mode(), Mode::Halted(EmulationError::OutOfMemory));
    assert_eq!(emulator.memory_byte(0x200), Some(0));
    let mut display = Display::new();
    let keypad = Keypad::new();
    assert!(emulator.can_step());
    assert_eq!(emulator.step(&mut display, &keypad, 0, None), Err(EmulationError::OutOfMemory));
}

#[test]
fn start_address_can_be_configured() {
    let mut emulator = Emulator::new().with_start_address(0x600);
    emulator.run(&[0x60, 0x07]).unwrap();
    assert_eq!(emulator.program_counter(), 0x600);
    assert_eq!(emulator.memory_byte(0x600), Some(0x60));
    assert_eq!(emulator.memory_byte(0x200), Some(0));
    let mut display = Display::new();
    let keypad = Keypad::new();
    assert_eq!(emulator.step(&mut display, &keypad, 0, None), Ok(Action::Continue));
    assert_eq!(emulator.register(v(0)), 7);
    assert_eq!(emulator.program_counter(), 0x602);

    let mut far = Emulator::new().with_start_address(0xFFF);
    assert_eq!(far.run(&[0x60, 0x07]), Err(EmulationError::OutOfMemory));
    assert_eq!(far.run(&[0x60]), Ok(()));
    assert!(!far.can_step());
}

#[test]
fn jump_to_self_runs_forever() {
    let mut host = load(&[0x12, 0x00]);
    for _ in 0..1000 {
        assert_eq!(host.step(), Ok(Action::Continue));
        assert_eq!(host.emulator.program_counter(), 0x200);
        assert_eq!(host.emulator.mode(), Mode::Running);
    }
}

#[test]
fn add_sets_carry() {
    // V0 = 0xFF, V1 = 0x01, V0 += V1
    let mut host = load(&[0x60, 0xFF, 0x61, 0x01, 0x80, 0x14]);
    host.steps(3);
    assert_eq!(host.reg(0), 0x00);
    assert_eq!(host.reg(0xF), 1);
    assert_eq!(host.emulator.program_counter(), 0x206);
}

#[test]
fn add_without_carry_clears_the_flag() {
    let mut host = load(&[0x6F, 0x01, 0x60, 0x0A, 0x61, 0x14, 0x80, 0x14]);
    host.steps(4);
    assert_eq!(host.reg(0), 0x1E);
    assert_eq!(host.reg(0xF), 0);
}

#[test]
fn subtract_without_borrow() {
    let mut host = load(&[0x60, 0x01, 0x61, 0x01, 0x80, 0x15]);
    host.steps(3);
    assert_eq!(host.reg(0), 0x00);
    assert_eq!(host.reg(0xF), 1);
}

#[test]
fn subtract_with_borrow() {
    let mut host = load(&[0x60, 0x01, 0x61, 0x02, 0x80, 0x15]);
    host.steps(3);
    assert_eq!(host.reg(0), 0xFF);
    assert_eq!(host.reg(0xF), 0);
}

#[test]
fn reverse_subtract() {
    // V0 = 3, V1 = 10, V0 = V1 - V0
    let mut host = load(&[0x60, 0x03, 0x61, 0x0A, 0x80, 0x17]);
    host.steps(3);
    assert_eq!(host.reg(0), 7);
    assert_eq!(host.reg(0xF), 1);
    // V0 = 10, V1 = 3, V0 = V1 - V0
    let mut host = load(&[0x60, 0x0A, 0x61, 0x03, 0x80, 0x17]);
    host.steps(3);
    assert_eq!(host.reg(0), 0xF9);
    assert_eq!(host.reg(0xF), 0);
}

#[test]
fn shift_left_boundary() {
    let mut host = load(&[0x60, 0x81, 0x80, 0x0E]);
    host.steps(2);
    assert_eq!(host.reg(0), 0x02);
    assert_eq!(host.reg(0xF), 1);
}

#[test]
fn shift_right_boundary() {
    let mut host = load(&[0x60, 0x81, 0x80, 0x06]);
    host.steps(2);
    assert_eq!(host.reg(0), 0x40);
    assert_eq!(host.reg(0xF), 1);
}

#[test]
fn shifts_that_shift_out_a_zero() {
    let mut host = load(&[0x6F, 0x01, 0x60, 0x7E, 0x80, 0x0E, 0x61, 0x7E, 0x81, 0x06]);
    host.steps(3);
    assert_eq!(host.reg(0), 0xFC);
    assert_eq!(host.reg(0xF), 0);
    host.steps(2);
    assert_eq!(host.reg(1), 0x3F);
    assert_eq!(host.reg(0xF), 0);
}

#[test]
fn flag_wins_when_the_target_is_the_flags_register() {
    // VF = 0xFF, V1 = 0x02, VF += V1: the sum 0x01 is replaced by the carry
    let mut host = load(&[0x6F, 0xFF, 0x61, 0x02, 0x8F, 0x14]);
    host.steps(3);
    assert_eq!(host.reg(0xF), 1);
    // VF = 0x04, VF >>= 1: the result 2 is replaced by the bit shifted out
    let mut host = load(&[0x6F, 0x04, 0x8F, 0x06]);
    host.steps(2);
    assert_eq!(host.reg(0xF), 0);
}

#[test]
fn load_and_logic() {
    // V0 = 0xCC, V1 = 0xAA, V2 = V0, V2 |= V1, V3 = V0, V3 &= V1, V4 = V0, V4 ^= V1
    let mut host = load(&[
        0x60, 0xCC, 0x61, 0xAA, 0x82, 0x00, 0x82, 0x11, 0x83, 0x00, 0x83, 0x12, 0x84, 0x00,
        0x84, 0x13,
    ]);
    host.steps(8);
    assert_eq!(host.reg(0), 0xCC);
    assert_eq!(host.reg(1), 0xAA);
    assert_eq!(host.reg(2), 0xEE);
    assert_eq!(host.reg(3), 0x88);
    assert_eq!(host.reg(4), 0x66);
    assert_eq!(host.reg(0xF), 0);
    assert_eq!(host.emulator.program_counter(), 0x210);
}

#[test]
fn add_immediate_wraps_and_leaves_the_flag() {
    let mut host = load(&[0x60, 0xF0, 0x70, 0x20]);
    host.steps(2);
    assert_eq!(host.reg(0), 0x10);
    assert_eq!(host.reg(0xF), 0);
}

#[test]
fn random_byte_is_masked() {
    let mut host = load(&[0xC0, 0x0F, 0xC1, 0xFF, 0xC2, 0x00]);
    assert_eq!(host.step_with(0xA7, None), Ok(Action::Continue));
    assert_eq!(host.step_with(0xA7, None), Ok(Action::Continue));
    assert_eq!(host.step_with(0xA7, None), Ok(Action::Continue));
    assert_eq!(host.reg(0), 0x07);
    assert_eq!(host.reg(1), 0xA7);
    assert_eq!(host.reg(2), 0x00);
}

#[test]
fn skip_if_equal_immediate() {
    let mut host = load(&[0x60, 0x42, 0x30, 0x42]);
    host.steps(2);
    assert_eq!(host.emulator.program_counter(), 0x206);
    let mut host = load(&[0x60, 0x42, 0x30, 0x43]);
    host.steps(2);
    assert_eq!(host.emulator.program_counter(), 0x204);
}

#[test]
fn skip_if_not_equal_immediate() {
    let mut host = load(&[0x60, 0x42, 0x40, 0x43]);
    host.steps(2);
    assert_eq!(host.emulator.program_counter(), 0x206);
    let mut host = load(&[0x60, 0x42, 0x40, 0x42]);
    host.steps(2);
    assert_eq!(host.emulator.program_counter(), 0x204);
}

#[test]
fn skip_on_register_comparison() {
    // V0 = 5, V1 = 5: 5xy0 skips, 9xy0 does not
    let mut host = load(&[0x60, 0x05, 0x61, 0x05, 0x50, 0x10]);
    host.steps(3);
    assert_eq!(host.emulator.program_counter(), 0x208);
    let mut host = load(&[0x60, 0x05, 0x61, 0x05, 0x90, 0x10]);
    host.steps(3);
    assert_eq!(host.emulator.program_counter(), 0x206);
    // V0 = 5, V1 = 6: 5xy0 does not skip, 9xy0 does
    let mut host = load(&[0x60, 0x05, 0x61, 0x06, 0x50, 0x10]);
    host.steps(3);
    assert_eq!(host.emulator.program_counter(), 0x206);
    let mut host = load(&[0x60, 0x05, 0x61, 0x06, 0x90, 0x10]);
    host.steps(3);
    assert_eq!(host.emulator.program_counter(), 0x208);
}

#[test]
fn skip_on_key_state() {
    let mut host = load(&[0x60, 0x0B, 0xE0, 0x9E, 0x00, 0x00, 0xE0, 0xA1]);
    host.keypad.set_key(Nibble::from_low(0xB), true);
    host.steps(2);
    assert_eq!(host.emulator.program_counter(), 0x206);
    host.steps(1);
    assert_eq!(host.emulator.program_counter(), 0x208);

    let mut host = load(&[0x60, 0x0B, 0xE0, 0x9E, 0xE0, 0xA1]);
    host.keypad.set_key(Nibble::from_low(0xB), true);
    host.keypad.set_key(Nibble::from_low(0xB), false);
    host.keypad.set_key(Nibble::from_low(0xA), true);
    host.steps(2);
    assert_eq!(host.emulator.program_counter(), 0x204);
    host.steps(1);
    assert_eq!(host.emulator.program_counter(), 0x208);
}

#[test]
fn no_key_has_a_value_above_fifteen() {
    let mut keypad = Keypad::new();
    for key in 0..16 {
        keypad.set_key(Nibble::from_low(key), true);
    }
    assert!(keypad.is_pressed(0));
    assert!(keypad.is_pressed(15));
    assert!(!keypad.is_pressed(16));
    assert!(!keypad.is_pressed(0x1B));
    assert!(!keypad.is_pressed(255));
    // V0 = 0x1B: no such key, so "skip if pressed" does not skip
    let mut host = load(&[0x60, 0x1B, 0xE0, 0x9E]);
    host.keypad.set_key(Nibble::from_low(0xB), true);
    host.steps(2);
    assert_eq!(host.emulator.program_counter(), 0x204);
}

#[test]
fn call_and_return() {
    // 0x200: call 0x206; 0x202: V0 = 1; 0x204: jump 0x204; 0x206: V1 = 2; 0x208: return
    let mut host = load(&[0x22, 0x06, 0x60, 0x01, 0x12, 0x04, 0x61, 0x02, 0x00, 0xEE]);
    host.steps(1);
    assert_eq!(host.emulator.program_counter(), 0x206);
    assert_eq!(host.emulator.stack_depth(), 1);
    host.steps(2);
    assert_eq!(host.emulator.program_counter(), 0x202);
    assert_eq!(host.emulator.stack_depth(), 0);
    host.steps(1);
    assert_eq!(host.reg(0), 1);
    assert_eq!(host.reg(1), 2);
}

#[test]
fn return_on_empty_stack_is_underflow() {
    let mut host = load(&[0x00, 0xEE]);
    assert_eq!(host.step(), Err(EmulationError::StackUnderflow));
    assert_eq!(host.emulator.mode(), Mode::Halted(EmulationError::StackUnderflow));
    assert_eq!(host.emulator.program_counter(), 0x200);
    assert_eq!(host.step(), Err(EmulationError::StackUnderflow));
    assert_eq!(host.emulator.program_counter(), 0x200);
}

#[test]
fn sixteenth_nested_call_is_overflow() {
    // call 0x200 forever
    let mut host = load(&[0x22, 0x00]);
    for depth in 1..=15 {
        assert_eq!(host.step(), Ok(Action::Continue));
        assert_eq!(host.emulator.stack_depth(), depth);
    }
    assert_eq!(host.step(), Err(EmulationError::StackOverflow));
    assert_eq!(host.emulator.mode(), Mode::Halted(EmulationError::StackOverflow));
    assert_eq!(host.emulator.stack_depth(), 15);
    assert_eq!(host.step(), Err(EmulationError::StackOverflow));
}

#[test]
fn unmapped_word_halts_with_its_address() {
    let mut host = load(&[0x60, 0x01, 0x50, 0x01]);
    host.steps(1);
    assert_eq!(host.step(), Err(EmulationError::InvalidInstruction(0x202)));
    assert_eq!(host.emulator.mode(), Mode::Halted(EmulationError::InvalidInstruction(0x202)));
    assert_eq!(host.emulator.program_counter(), 0x202);
    assert_eq!(host.reg(0), 1);
    assert_eq!(host.step(), Err(EmulationError::InvalidInstruction(0x202)));
}

#[test]
fn system_call_is_skipped_over() {
    let mut host = load(&[0x01, 0x23, 0x60, 0x09]);
    host.steps(2);
    assert_eq!(host.reg(0), 9);
    assert_eq!(host.emulator.program_counter(), 0x204);
}

#[test]
fn jump_relative_to_v0() {
    let mut host = load(&[0x60, 0x10, 0xB3, 0x00]);
    host.steps(2);
    assert_eq!(host.emulator.program_counter(), 0x310);
    let mut host = load(&[0x60, 0x02, 0xBF, 0xFF]);
    host.steps(2);
    assert_eq!(host.emulator.program_counter(), 0x001);
    assert!(!host.emulator.can_step());
}

#[test]
fn program_counter_wraps_at_the_end_of_memory() {
    let mut emulator = Emulator::new().with_start_address(0xFFE);
    emulator.run(&[0x60, 0x01]).unwrap();
    let mut display = Display::new();
    let keypad = Keypad::new();
    assert!(emulator.can_step());
    assert_eq!(emulator.step(&mut display, &keypad, 0, None), Ok(Action::Continue));
    assert_eq!(emulator.program_counter(), 0x000);
    assert!(emulator.can_step());
}

#[test]
fn address_register_operations() {
    // I = 0xFFE, V0 = 5, I += V0 (wraps), V1 = 0x1A, I = glyph of A
    let mut host = load(&[0xAF, 0xFE, 0x60, 0x05, 0xF0, 0x1E, 0x61, 0x1A, 0xF1, 0x29]);
    host.steps(1);
    assert_eq!(host.emulator.address_register(), 0xFFE);
    host.steps(2);
    assert_eq!(host.emulator.address_register(), 0x003);
    assert_eq!(host.reg(0xF), 0);
    host.steps(2);
    assert_eq!(host.emulator.address_register(), 50);
}

#[test]
fn bcd_of_255() {
    // V0 = 255, I = 0x300, store BCD
    let mut host = load(&[0x60, 0xFF, 0xA3, 0x00, 0xF0, 0x33]);
    host.steps(3);
    assert_eq!(host.emulator.memory_byte(0x300), Some(2));
    assert_eq!(host.emulator.memory_byte(0x301), Some(5));
    assert_eq!(host.emulator.memory_byte(0x302), Some(5));
    assert_eq!(host.emulator.memory_byte(0x303), Some(0));
    assert_eq!(host.emulator.address_register(), 0x300);
}

#[test]
fn bcd_of_small_numbers() {
    let mut host = load(&[0x60, 0x07, 0xA3, 0x00, 0xF0, 0x33, 0x61, 0x6D, 0xA3, 0x10, 0xF1, 0x33]);
    host.steps(6);
    assert_eq!(host.emulator.memory_byte(0x300), Some(0));
    assert_eq!(host.emulator.memory_byte(0x301), Some(0));
    assert_eq!(host.emulator.memory_byte(0x302), Some(7));
    assert_eq!(host.emulator.memory_byte(0x310), Some(1));
    assert_eq!(host.emulator.memory_byte(0x311), Some(0));
    assert_eq!(host.emulator.memory_byte(0x312), Some(9));
}

#[test]
fn bcd_wraps_around_the_end_of_memory() {
    let mut host = load(&[0x60, 0x7B, 0xAF, 0xFF, 0xF0, 0x33]);
    host.steps(3);
    assert_eq!(host.emulator.memory_byte(0xFFF), Some(1));
    assert_eq!(host.emulator.memory_byte(0x000), Some(2));
    assert_eq!(host.emulator.memory_byte(0x001), Some(3));
}

#[test]
fn dump_and_restore_registers() {
    // V0 = 0x11, V1 = 0x22, V2 = 0x33, V3 = 0x44, I = 0x400, dump V0..V2
    let mut host = load(&[
        0x60, 0x11, 0x61, 0x22, 0x62, 0x33, 0x63, 0x44, 0xA4, 0x00, 0xF2, 0x55, 0x60, 0x00,
        0x61, 0x00, 0x62, 0x00, 0x63, 0x00, 0xF1, 0x65,
    ]);
    host.steps(6);
    assert_eq!(host.emulator.memory_byte(0x3FF), Some(0));
    assert_eq!(host.emulator.memory_byte(0x400), Some(0x11));
    assert_eq!(host.emulator.memory_byte(0x401), Some(0x22));
    assert_eq!(host.emulator.memory_byte(0x402), Some(0x33));
    assert_eq!(host.emulator.memory_byte(0x403), Some(0));
    assert_eq!(host.emulator.address_register(), 0x400);
    host.steps(5);
    assert_eq!(host.reg(0), 0x11);
    assert_eq!(host.reg(1), 0x22);
    assert_eq!(host.reg(2), 0);
    assert_eq!(host.reg(3), 0);
    assert_eq!(host.emulator.address_register(), 0x400);
    assert_eq!(host.emulator.program_counter(), 0x216);
}

#[test]
fn dump_of_all_registers_wraps_around_memory() {
    // VF = 0xEE, V0 = 0xAA, V1 = 0xBB, I = 0xFFF, dump V0..VF
    let mut host = load(&[0x6F, 0xEE, 0x60, 0xAA, 0x61, 0xBB, 0xAF, 0xFF, 0xFF, 0x55]);
    host.steps(5);
    assert_eq!(host.emulator.memory_byte(0xFFF), Some(0xAA));
    assert_eq!(host.emulator.memory_byte(0x000), Some(0xBB));
    assert_eq!(host.emulator.memory_byte(0x001), Some(0));
    assert_eq!(host.emulator.memory_byte(0x00E), Some(0xEE));
    assert_eq!(host.emulator.memory_byte(0x00F), Some(0));
}

#[test]
fn timers_are_set_and_read() {
    // V0 = 3, DT = V0, V1 = DT
    let mut host = load(&[0x60, 0x03, 0xF0, 0x15, 0xF1, 0x07]);
    host.steps(2);
    assert_eq!(host.emulator.delay_timer(), 3);
    assert_eq!(host.emulator.tick(), None);
    assert_eq!(host.emulator.delay_timer(), 2);
    host.steps(1);
    assert_eq!(host.reg(1), 2);
}

#[test]
fn timers_decay_to_zero_and_stay() {
    let mut host = load(&[0x60, 0x02, 0xF0, 0x15, 0x61, 0x03, 0xF1, 0x18]);
    host.steps(3);
    assert_eq!(host.step(), Ok(Action::SetTone(true)));
    assert_eq!(host.emulator.tick(), None);
    assert_eq!((host.emulator.delay_timer(), host.emulator.sound_timer()), (1, 2));
    assert_eq!(host.emulator.tick(), None);
    assert_eq!((host.emulator.delay_timer(), host.emulator.sound_timer()), (0, 1));
    assert_eq!(host.emulator.tick(), Some(false));
    assert_eq!((host.emulator.delay_timer(), host.emulator.sound_timer()), (0, 0));
    assert_eq!(host.emulator.tick(), None);
    assert_eq!((host.emulator.delay_timer(), host.emulator.sound_timer()), (0, 0));
    assert_eq!(host.emulator.program_counter(), 0x208);
}

#[test]
fn step_does_not_touch_the_timers() {
    let mut host = load(&[0x60, 0x09, 0xF0, 0x15, 0xF0, 0x18, 0x12, 0x06]);
    host.steps(2);
    assert_eq!(host.step(), Ok(Action::SetTone(true)));
    host.steps(50);
    assert_eq!(host.emulator.delay_timer(), 9);
    assert_eq!(host.emulator.sound_timer(), 9);
}

#[test]
fn tone_follows_the_sound_timer() {
    // V0 = 5, ST = V0 (on), ST = V0 (no change), V0 = 0, ST = V0 (off), ST = V0 (no change)
    let mut host = load(&[0x60, 0x05, 0xF0, 0x18, 0xF0, 0x18, 0x60, 0x00, 0xF0, 0x18, 0xF0, 0x18]);
    assert_eq!(host.step(), Ok(Action::Continue));
    assert_eq!(host.step(), Ok(Action::SetTone(true)));
    assert_eq!(host.step(), Ok(Action::Continue));
    assert_eq!(host.step(), Ok(Action::Continue));
    assert_eq!(host.step(), Ok(Action::SetTone(false)));
    assert_eq!(host.step(), Ok(Action::Continue));
    assert_eq!(host.emulator.sound_timer(), 0);
}

#[test]
fn key_wait_suspends_until_a_key_is_reported() {
    // wait for key into V3, then V0 = 1
    let mut host = load(&[0xF3, 0x0A, 0x60, 0x01]);
    assert_eq!(host.step(), Ok(Action::AwaitKey));
    assert_eq!(host.emulator.mode(), Mode::AwaitingKey(v(3)));
    assert_eq!(host.emulator.program_counter(), 0x200);
    for _ in 0..10 {
        assert_eq!(host.step(), Ok(Action::AwaitKey));
        assert_eq!(host.emulator.program_counter(), 0x200);
        assert_eq!(host.reg(0), 0);
    }
    assert_eq!(host.emulator.tick(), None);
    assert_eq!(host.step_with(0, Some(Nibble::from_low(0xC))), Ok(Action::Continue));
    assert_eq!(host.emulator.mode(), Mode::Running);
    assert_eq!(host.reg(3), 0xC);
    assert_eq!(host.reg(0), 0);
    assert_eq!(host.emulator.program_counter(), 0x202);
    host.steps(1);
    assert_eq!(host.reg(0), 1);
}

#[test]
fn key_reported_to_a_running_machine_is_ignored() {
    let mut host = load(&[0x60, 0x01, 0x61, 0x02]);
    assert_eq!(host.step_with(0, Some(Nibble::from_low(0x5))), Ok(Action::Continue));
    assert_eq!(host.reg(0), 1);
    assert_eq!(host.emulator.program_counter(), 0x202);
}

#[test]
fn sprite_drawn_twice_collides_the_second_time() {
    // I = 0x20A, V0 = 4, V1 = 2, draw 1 row at (V0, V1), draw again; sprite row 0xFF
    let mut host = load(&[0xA2, 0x0A, 0x60, 0x04, 0x61, 0x02, 0xD0, 0x11, 0xD0, 0x11, 0xFF]);
    host.steps(4);
    assert_eq!(host.reg(0xF), 0);
    assert_eq!(host.lit(), 8);
    for x in 0..64 {
        assert_eq!(host.display.is_set(x, 2), (4..12).contains(&x));
    }
    host.steps(1);
    assert_eq!(host.reg(0xF), 1);
    assert_eq!(host.lit(), 0);
    assert_eq!(host.emulator.program_counter(), 0x20A);
}

#[test]
fn sprite_bits_map_to_pixels_left_to_right() {
    // rows 0x80, 0x01, 0xA5 at (0, 0)
    let mut host = load(&[0xA2, 0x04, 0xD0, 0x13, 0x80, 0x01, 0xA5]);
    host.steps(2);
    assert_eq!(host.lit(), 6);
    assert!(host.display.is_set(0, 0));
    assert!(host.display.is_set(7, 1));
    assert!(host.display.is_set(0, 2));
    assert!(host.display.is_set(2, 2));
    assert!(host.display.is_set(5, 2));
    assert!(host.display.is_set(7, 2));
    assert!(!host.display.is_set(1, 2));
    assert_eq!(host.reg(0xF), 0);
}

#[test]
fn sprite_wraps_around_the_edges() {
    // V0 = 62, V1 = 31, two rows of 0xFF at (62, 31)
    let mut host = load(&[0xA2, 0x08, 0x60, 0x3E, 0x61, 0x1F, 0xD0, 0x12, 0xFF, 0xFF]);
    host.steps(4);
    assert_eq!(host.lit(), 16);
    for &y in &[31usize, 0] {
        assert!(host.display.is_set(62, y));
        assert!(host.display.is_set(63, y));
        for x in 0..6 {
            assert!(host.display.is_set(x, y));
        }
        assert!(!host.display.is_set(6, y));
        assert!(!host.display.is_set(61, y));
    }
    assert_eq!(host.reg(0xF), 0);
}

#[test]
fn sprite_position_is_taken_modulo_the_display_size() {
    // V0 = 200 (200 % 64 = 8), V1 = 100 (100 % 32 = 4)
    let mut host = load(&[0xA2, 0x08, 0x60, 0xC8, 0x61, 0x64, 0xD0, 0x11, 0xC0]);
    host.steps(4);
    assert_eq!(host.lit(), 2);
    assert!(host.display.is_set(8, 4));
    assert!(host.display.is_set(9, 4));
}

#[test]
fn collision_is_computed_over_the_whole_sprite() {
    // first draw a single pixel at (0, 1); then a 2-row sprite at (0, 0) whose
    // second row hits it
    let mut host = load(&[
        0xA2, 0x0E, 0x61, 0x01, 0xD0, 0x11, 0xA2, 0x0F, 0xD0, 0x02, 0x00, 0x00, 0x00, 0x00,
        0x80, 0xC0, 0xC0,
    ]);
    host.steps(3);
    assert_eq!(host.reg(0xF), 0);
    assert!(host.display.is_set(0, 1));
    host.steps(2);
    assert_eq!(host.reg(0xF), 1);
    assert!(host.display.is_set(0, 0));
    assert!(host.display.is_set(1, 0));
    assert!(!host.display.is_set(0, 1));
    assert!(host.display.is_set(1, 1));
    assert_eq!(host.lit(), 3);
}

#[test]
fn sprite_of_height_zero_draws_nothing() {
    let mut host = load(&[0x6F, 0x01, 0xA2, 0x06, 0xD0, 0x00, 0xFF]);
    host.steps(3);
    assert_eq!(host.lit(), 0);
    assert_eq!(host.reg(0xF), 0);
}

#[test]
fn clear_display_unsets_every_pixel() {
    let mut host = load(&[0xA2, 0x06, 0xD0, 0x01, 0x00, 0xE0, 0xFF]);
    host.steps(2);
    assert_eq!(host.lit(), 8);
    host.steps(1);
    assert_eq!(host.lit(), 0);
    assert_eq!(host.emulator.program_counter(), 0x206);
}

#[test]
fn display_pixels_flip() {
    let mut display = Display::new();
    assert!(!display.is_set(3, 5));
    assert!(!display.xor_pixel(3, 5));
    assert!(display.is_set(3, 5));
    assert!(!display.is_set(5, 3));
    assert!(display.xor_pixel(3 + 64, 5 + 32));
    assert!(!display.is_set(3, 5));
    assert!(!display.xor_pixel(63, 31));
    assert!(display.is_set(63, 31));
    assert!(!display.is_set(64, 31));
    assert!(!display.is_set(63, 32));
    display.clear();
    assert!(!display.is_set(63, 31));
}
