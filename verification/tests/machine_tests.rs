use chip8::emulator::Chip8Error;
use chip8::emulator::Emulator;
use chip8::instruction::Operation;
use chip8::instruction::decode;
use chip8::keyboard::init_hashset;
use chip8::keyboard::parse_character;
use chip8::screen::Screen;
use chip8::timer::Timer;

#[test]
fn decode_dispatches_on_both_levels() {
    assert_eq!(decode(0x00E0).unwrap().operation, Operation::ClearScreen00E0);
    assert_eq!(decode(0x00EE).unwrap().operation, Operation::SubroutineReturn00EE);
    assert_eq!(decode(0x1ABC).unwrap().operation, Operation::Jump1NNN);
    assert_eq!(decode(0x2ABC).unwrap().operation, Operation::Subroutine2NNN);
    assert_eq!(decode(0x3A12).unwrap().operation, Operation::SkipIfEqual3XNN);
    assert_eq!(decode(0x4A12).unwrap().operation, Operation::SkipIfNotEqual4XNN);
    assert_eq!(decode(0x5AB0).unwrap().operation, Operation::SkipIfRegistersEqual5XY0);
    assert_eq!(decode(0x6A12).unwrap().operation, Operation::SetRegisterTo6XNN);
    assert_eq!(decode(0x7A12).unwrap().operation, Operation::AddNumToRegister7XNN);
    assert_eq!(decode(0x8AB4).unwrap().operation, Operation::AddRegisterToRegister8XY4);
    assert_eq!(decode(0x8AB6).unwrap().operation, Operation::ShiftRight8XY6);
    assert_eq!(decode(0x8ABE).unwrap().operation, Operation::ShiftLeft8XYE);
    assert_eq!(decode(0x9AB0).unwrap().operation, Operation::SkipIfRegistersNotEqual9XY0);
    assert_eq!(decode(0xAABC).unwrap().operation, Operation::SetIndexANNN);
    assert_eq!(decode(0xBABC).unwrap().operation, Operation::JumpWithOffsetBNNN);
    assert_eq!(decode(0xCA12).unwrap().operation, Operation::RandomCXNN);
    assert_eq!(decode(0xDAB5).unwrap().operation, Operation::DisplayDXYN);
    assert_eq!(decode(0xEA9E).unwrap().operation, Operation::SkipIfPressedEX9E);
    assert_eq!(decode(0xEAA1).unwrap().operation, Operation::SkipIfNotPressedEXA1);
    assert_eq!(decode(0xFA07).unwrap().operation, Operation::SetToDelayTimerFX07);
    assert_eq!(decode(0xFA0A).unwrap().operation, Operation::GetKeyFX0A);
    assert_eq!(decode(0xFA33).unwrap().operation, Operation::BinaryCodedDecimalConversionFX33);
    assert_eq!(decode(0xFA55).unwrap().operation, Operation::StoreToMemoryFX55);
    assert_eq!(decode(0xFA65).unwrap().operation, Operation::LoadFromMemoryFX65);
}

#[test]
fn decode_extracts_arguments() {
    let sig = decode(0xD7B5).unwrap();
    assert_eq!(sig.arguments.x(), 0x7);
    assert_eq!(sig.arguments.y(), 0xB);
    assert_eq!(sig.arguments.n(), 0x5);
    let sig = decode(0x6A12).unwrap();
    assert_eq!(sig.arguments.x(), 0xA);
    assert_eq!(sig.arguments.nn(), 0x12);
    let sig = decode(0x1ABC).unwrap();
    assert_eq!(sig.arguments.nnn(), 0xABC);
}

#[test]
fn decode_rejects_unknown_words() {
    assert_eq!(decode(0x5123), Err(Chip8Error::UnknownOpcode));
    assert_eq!(decode(0x9AB7), Err(Chip8Error::UnknownOpcode));
    assert_eq!(decode(0x8AB8), Err(Chip8Error::UnknownOpcode));
    assert_eq!(decode(0x00E1), Err(Chip8Error::UnknownOpcode));
    assert_eq!(decode(0xEA00), Err(Chip8Error::UnknownOpcode));
    assert_eq!(decode(0xFA99), Err(Chip8Error::UnknownOpcode));
}

#[test]
fn unknown_opcode_advances_and_changes_nothing() {
    let mut emulator = Emulator::new(false);
    let mut screen = Screen::new();
    emulator.memory[0x200] = 0x51;
    emulator.memory[0x201] = 0x23;
    emulator.registers[3] = 77;
    emulator.index_register = 0x345;
    emulator.stack.push(0x222);
    let registers_before = emulator.registers.clone();
    let memory_before = emulator.memory.clone();
    assert_eq!(emulator.cycle(&mut screen), Ok(()));
    assert_eq!(emulator.program_counter, 0x202);
    assert_eq!(emulator.registers, registers_before);
    assert_eq!(emulator.memory, memory_before);
    assert_eq!(emulator.index_register, 0x345);
    assert_eq!(emulator.stack.size(), 1);
}

#[test]
fn bcd_of_156_writes_its_digits() {
    let mut emulator = Emulator::new(false);
    let mut screen = Screen::new();
    emulator.index_register = 0x400;
    emulator.registers[6] = 156;
    emulator.program_counter = 0x202;
    // FX33 with X = 6
    assert_eq!(emulator.parse_instruction(&[0xF6, 0x33], &mut screen), Ok(()));
    assert_eq!(&emulator.memory[0x400..0x403], &[1, 5, 6]);
}

#[test]
fn font_address_of_digit_a() {
    let mut emulator = Emulator::new(false);
    let mut screen = Screen::new();
    emulator.registers[2] = 0x0A;
    emulator.program_counter = 0x202;
    // FX29 with X = 2
    assert_eq!(emulator.parse_instruction(&[0xF2, 0x29], &mut screen), Ok(()));
    assert_eq!(emulator.index_register, 0x50 + 50);
}

#[test]
fn drawing_a_sprite_twice_clears_it_and_collides() {
    let mut emulator = Emulator::new(false);
    let mut screen = Screen::new();
    emulator.index_register = 0x300;
    emulator.memory[0x300] = 0xFF;
    emulator.registers[0] = 5;
    emulator.registers[1] = 7;

    assert_eq!(emulator.draw_to_screen(0, 1, 1, &mut screen), Ok(()));
    assert_eq!(emulator.registers[0xF], 0);
    for col in 0..8 {
        assert!(screen.get(5 + col, 7));
    }
    assert!(!screen.get(4, 7));
    assert!(!screen.get(13, 7));

    assert_eq!(emulator.draw_to_screen(0, 1, 1, &mut screen), Ok(()));
    assert_eq!(emulator.registers[0xF], 1);
    for x in 0..64 {
        for y in 0..32 {
            assert!(!screen.get(x, y));
        }
    }
}

#[test]
fn drawing_clips_at_both_edges() {
    let mut emulator = Emulator::new(false);
    let mut screen = Screen::new();
    emulator.index_register = 0x300;
    emulator.memory[0x300] = 0xFF;
    emulator.memory[0x301] = 0xFF;
    // origin at the bottom-right corner: one visible row, four visible bits
    emulator.registers[0] = 60;
    emulator.registers[1] = 31;
    assert_eq!(emulator.draw_to_screen(0, 1, 2, &mut screen), Ok(()));
    for col in 60..64 {
        assert!(screen.get(col, 31));
    }
    let mut lit = 0;
    for x in 0..64 {
        for y in 0..32 {
            if screen.get(x, y) {
                lit += 1;
            }
        }
    }
    assert_eq!(lit, 4);
}

#[test]
fn draw_coordinates_wrap_at_the_origin() {
    let mut emulator = Emulator::new(false);
    let mut screen = Screen::new();
    emulator.index_register = 0x300;
    emulator.memory[0x300] = 0x80;
    emulator.registers[0] = 64 + 3;
    emulator.registers[1] = 32 + 2;
    assert_eq!(emulator.draw_to_screen(0, 1, 1, &mut screen), Ok(()));
    assert!(screen.get(3, 2));
}

#[test]
fn call_then_return_restores_the_following_instruction() {
    let mut emulator = Emulator::new(false);
    let mut screen = Screen::new();
    // as dispatched, the program counter has already advanced past 2NNN
    emulator.program_counter = 0x202;
    assert_eq!(emulator.parse_instruction(&[0x23, 0x00], &mut screen), Ok(()));
    assert_eq!(emulator.program_counter, 0x300);
    assert_eq!(*emulator.stack.top().unwrap(), 0x202);
    assert_eq!(emulator.parse_instruction(&[0x00, 0xEE], &mut screen), Ok(()));
    assert_eq!(emulator.program_counter, 0x202);
    assert!(emulator.stack.is_empty());
}

#[test]
fn return_on_empty_stack_is_an_error() {
    let mut emulator = Emulator::new(false);
    let mut screen = Screen::new();
    emulator.program_counter = 0x202;
    assert_eq!(
        emulator.parse_instruction(&[0x00, 0xEE], &mut screen),
        Err(Chip8Error::StackUnderflow)
    );
    assert_eq!(emulator.stack_return(), Err(Chip8Error::StackUnderflow));
}

#[test]
fn vip_right_shift_takes_source_from_vy() {
    let mut emulator = Emulator::new(true);
    emulator.registers[0] = 0b1000;
    emulator.registers[1] = 0b0101;
    emulator.right_shift_on_register(0, 1);
    assert_eq!(emulator.registers[0], 0b0010);
    assert_eq!(emulator.registers[0xF], 1);
}

#[test]
fn bcd_past_memory_end_is_an_overrun() {
    let mut emulator = Emulator::new(false);
    emulator.index_register = 4094;
    emulator.registers[0] = 42;
    assert_eq!(
        emulator.binary_coded_decimal_conversion(0),
        Err(Chip8Error::MemoryOverrun)
    );
    assert_eq!(emulator.memory[4094], 0);
}

#[test]
fn register_block_past_memory_end_is_an_overrun() {
    let mut emulator = Emulator::new(false);
    emulator.index_register = 4090;
    assert_eq!(
        emulator.store_registers_to_memory(8),
        Err(Chip8Error::MemoryOverrun)
    );
    assert_eq!(
        emulator.store_memory_to_registers(8),
        Err(Chip8Error::MemoryOverrun)
    );
    assert_eq!(emulator.index_register, 4090);
}

#[test]
fn sprite_rows_past_memory_end_are_an_overrun() {
    let mut emulator = Emulator::new(false);
    let mut screen = Screen::new();
    emulator.index_register = 4090;
    assert_eq!(
        emulator.draw_to_screen(0, 1, 15, &mut screen),
        Err(Chip8Error::MemoryOverrun)
    );
    assert_eq!(emulator.registers[0xF], 0);
}

#[test]
fn fetch_past_memory_end_is_an_overrun() {
    let mut emulator = Emulator::new(false);
    let mut screen = Screen::new();
    emulator.program_counter = 4095;
    assert_eq!(emulator.cycle(&mut screen), Err(Chip8Error::MemoryOverrun));
}

#[test]
fn too_large_rom_is_refused() {
    let mut emulator = Emulator::new(false);
    let rom = vec![0xAB; 4096 - 0x200 + 1];
    assert_eq!(
        emulator.load_memory_from_rom(&rom),
        Err(Chip8Error::RomTooLarge)
    );
    assert_eq!(emulator.memory[0x200], 0);
}

#[test]
fn rom_bytes_land_at_the_program_start() {
    let mut emulator = Emulator::new(false);
    let rom = vec![0x12, 0x34, 0x56];
    assert_eq!(emulator.load_memory_from_rom(&rom), Ok(()));
    assert_eq!(&emulator.memory[0x200..0x203], &[0x12, 0x34, 0x56]);
    assert_eq!(emulator.memory[0x203], 0);
}

#[test]
fn fetch_composes_big_endian_and_advances() {
    let mut emulator = Emulator::new(false);
    emulator.memory[0x200] = 0xAB;
    emulator.memory[0x201] = 0xCD;
    let word = emulator.fetch();
    assert_eq!(word, 0xABCD);
    assert_eq!(emulator.program_counter, 0x202);
}

#[test]
fn tick_decrements_timers_once() {
    let mut emulator = Emulator::new(false);
    let mut screen = Screen::new();
    emulator.delay_timer.counter = 5;
    emulator.sound_timer.counter = 0;
    assert_eq!(emulator.tick(&mut screen, 1), Ok(()));
    assert_eq!(emulator.delay_timer.counter, 4);
    assert_eq!(emulator.sound_timer.counter, 0);
    assert_eq!(emulator.program_counter, 0x202);
}

#[test]
fn timer_saturates_at_zero() {
    let mut timer = Timer::new();
    assert_eq!(timer.counter, 0);
    timer.decrement();
    assert_eq!(timer.counter, 0);
    timer.counter = 2;
    timer.decrement();
    timer.decrement();
    timer.decrement();
    assert_eq!(timer.counter, 0);
}

#[test]
fn key_wait_rewinds_until_a_key_arrives() {
    let mut emulator = Emulator::new(false);
    let mut screen = Screen::new();
    // F30A at 0x200: wait for a key into register 3
    emulator.memory[0x200] = 0xF3;
    emulator.memory[0x201] = 0x0A;
    assert_eq!(emulator.cycle(&mut screen), Ok(()));
    assert_eq!(emulator.program_counter, 0x200);

    emulator.set_key_state(0xA, true);
    assert_eq!(emulator.newly_pressed, Some(0xA));
    assert_eq!(emulator.cycle(&mut screen), Ok(()));
    assert_eq!(emulator.program_counter, 0x202);
    assert_eq!(emulator.registers[3], 0xA);
    assert_eq!(emulator.newly_pressed, None);
}

#[test]
fn key_state_transitions_are_recorded_once() {
    let mut emulator = Emulator::new(false);
    emulator.set_key_state(0x5, true);
    assert!(emulator.is_down(0x5));
    assert_eq!(emulator.newly_pressed, Some(0x5));
    emulator.newly_pressed = None;
    // holding the key down is not a new transition
    emulator.set_key_state(0x5, true);
    assert_eq!(emulator.newly_pressed, None);
    emulator.set_key_state(0x5, false);
    assert!(!emulator.is_down(0x5));
    assert_eq!(emulator.newly_pressed, None);
}

#[test]
fn random_masks_with_the_immediate() {
    let mut emulator = Emulator::new(false);
    emulator.registers[4] = 0xFF;
    emulator.random(4, 0x00);
    assert_eq!(emulator.registers[4], 0);
    emulator.random(4, 0x0F);
    assert_eq!(emulator.registers[4] & 0xF0, 0);
}

#[test]
fn vip_jump_with_offset_uses_v0() {
    let mut emulator = Emulator::new(true);
    let mut screen = Screen::new();
    emulator.registers[0] = 2;
    emulator.registers[3] = 0x50;
    emulator.program_counter = 0x202;
    // B3AB: with the VIP convention the offset register is V0
    assert_eq!(emulator.parse_instruction(&[0xB3, 0xAB], &mut screen), Ok(()));
    assert_eq!(emulator.program_counter, 0x3AB + 2);

    let mut modern = Emulator::new(false);
    modern.registers[0] = 2;
    modern.registers[3] = 0x50;
    modern.program_counter = 0x202;
    // with the modern convention the top nibble of NNN picks the register
    assert_eq!(modern.parse_instruction(&[0xB3, 0xAB], &mut screen), Ok(()));
    assert_eq!(modern.program_counter, 0x3AB + 0x50);
}

#[test]
fn clear_screen_turns_every_cell_off() {
    let mut emulator = Emulator::new(false);
    let mut screen = Screen::new();
    screen.set(10, 20, true);
    screen.set(0, 0, true);
    emulator.program_counter = 0x202;
    assert_eq!(emulator.parse_instruction(&[0x00, 0xE0], &mut screen), Ok(()));
    for x in 0..64 {
        for y in 0..32 {
            assert!(!screen.get(x, y));
        }
    }
}

#[test]
fn screen_set_and_get_agree() {
    let mut screen = Screen::new();
    assert!(!screen.get(63, 31));
    screen.set(63, 31, true);
    assert!(screen.get(63, 31));
    assert!(!screen.get(62, 31));
    assert!(!screen.get(63, 30));
    assert_eq!(
        chip8::screen::SCREEN_WIDTH * chip8::screen::SCREEN_HEIGHT,
        screen.pixels.len() as u32
    );
}

#[test]
fn keypad_characters_are_validated() {
    let valid = init_hashset();
    assert_eq!(valid.len(), 17);
    assert_eq!(parse_character('q', &valid), Some('q'));
    assert_eq!(parse_character('p', &valid), Some('p'));
    assert_eq!(parse_character('o', &valid), None);
    assert_eq!(parse_character('5', &valid), None);
}

#[test]
fn add_with_carry_overwrites_the_flag_last() {
    // an add targeting VF keeps the result, not the flag
    let mut emulator = Emulator::new(false);
    emulator.registers[0xF] = 200;
    emulator.registers[2] = 100;
    emulator.add_registers(0xF, 2);
    assert_eq!(emulator.registers[0xF], 44);
}

#[test]
fn instruction_format_splits_all_views() {
    let format = chip8::instruction_format::InstructionFormat::new(&[0xD7, 0xB5]);
    assert_eq!(format.first_nibble, 0xD);
    assert_eq!(format.second_nibble, 0x7);
    assert_eq!(format.third_nibble, 0xB);
    assert_eq!(format.fourth_nibble, 0x5);
    assert_eq!(format.nibbles_3_to_4, 0xB5);
    assert_eq!(format.nibbles_2_to_4, 0x7B5);
}

#[test]
fn bcd_fits_exactly_at_the_memory_end() {
    let mut emulator = Emulator::new(false);
    emulator.index_register = 4093;
    emulator.registers[0] = 207;
    assert_eq!(emulator.binary_coded_decimal_conversion(0), Ok(()));
    assert_eq!(&emulator.memory[4093..4096], &[2, 0, 7]);
}

#[test]
fn register_block_fits_exactly_at_the_memory_end() {
    let mut emulator = Emulator::new(false);
    emulator.index_register = 4080;
    emulator.registers[15] = 9;
    assert_eq!(emulator.store_registers_to_memory(15), Ok(()));
    assert_eq!(emulator.memory[4095], 9);
    emulator.index_register = 4081;
    assert_eq!(
        emulator.store_registers_to_memory(15),
        Err(Chip8Error::MemoryOverrun)
    );
}

#[test]
fn drawing_zero_rows_reads_nothing() {
    let mut emulator = Emulator::new(false);
    let mut screen = Screen::new();
    emulator.index_register = u16::MAX;
    assert_eq!(emulator.draw_to_screen(0, 1, 0, &mut screen), Ok(()));
    assert_eq!(emulator.registers[0xF], 0);
    for x in 0..64 {
        for y in 0..32 {
            assert!(!screen.get(x, y));
        }
    }
}

#[test]
fn key_skip_selects_by_the_low_nibble() {
    let mut emulator = Emulator::new(false);
    emulator.program_counter = 0x200;
    emulator.registers[0] = 0x12;
    emulator.set_key_state(0x2, true);
    emulator.skip_if_press_status(0, true);
    assert_eq!(emulator.program_counter, 0x202);
}
