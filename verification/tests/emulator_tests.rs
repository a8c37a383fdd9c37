use chip8::emulator::Emulator;

#[test]
fn test_jump() {
    let mut emulator = Emulator::new(true);
    emulator.jump(0x210);
    assert_eq!(emulator.program_counter, 0x210);
}

#[test]
fn test_set_register() {
    let mut emulator = Emulator::new(true);
    emulator.set_register(12, 41);
    assert_eq!(emulator.registers[12], 41);
}

#[test]
fn test_add_to_register() {
    let mut emulator = Emulator::new(true);
    emulator.add_to_register(11, 15);
    assert_eq!(emulator.registers[11], 15);
    emulator.add_to_register(11, 215);
    assert_eq!(emulator.registers[11], 230);
}

#[test]
fn test_set_index_register() {
    let mut emulator = Emulator::new(true);
    emulator.set_index_register(1411);
    assert_eq!(emulator.index_register, 1411);
}

#[test]
fn test_stack_return() {
    let mut emulator = Emulator::new(true);
    emulator.stack.push(100);
    emulator.stack.push(200);
    emulator.stack_return().unwrap();
    assert_eq!(emulator.program_counter, 200);
    assert_eq!(*emulator.stack.top().unwrap(), 100);
}

#[test]
fn test_call_subroutine() {
    let mut emulator = Emulator::new(true);
    emulator.program_counter = 200;
    emulator.call_subroutine(400);
    assert_eq!(*emulator.stack.top().unwrap(), 200);
    assert_eq!(emulator.program_counter, 400);
}

#[test]
fn test_skip_if_register_equals_value() {
    let mut emulator = Emulator::new(true);
    emulator.program_counter = 200;
    emulator.registers[0] = 1;
    emulator.skip_if_register_equals_value(0, 1);
    assert_eq!(emulator.program_counter, 202);
    emulator.skip_if_register_equals_value(0, 2);
    assert_eq!(emulator.program_counter, 202);
}

#[test]
fn test_skip_if_register_not_equal_to_value() {
    let mut emulator = Emulator::new(true);
    emulator.program_counter = 200;
    emulator.registers[0] = 1;
    emulator.skip_if_register_not_equal_to_value(0, 2);
    assert_eq!(emulator.program_counter, 202);
    emulator.skip_if_register_not_equal_to_value(0, 1);
    assert_eq!(emulator.program_counter, 202);
}

#[test]
fn test_skip_if_registers_equal() {
    let mut emulator = Emulator::new(true);
    emulator.program_counter = 200;
    emulator.registers[0] = 1;
    emulator.registers[1] = 1;
    emulator.skip_if_registers_equal(0, 1);
    assert_eq!(emulator.program_counter, 202);
    emulator.registers[0] = 2;
    emulator.skip_if_registers_equal(0, 1);
    assert_eq!(emulator.program_counter, 202);
}

#[test]
fn test_skip_if_registers_not_equal() {
    let mut emulator = Emulator::new(true);
    emulator.program_counter = 200;
    emulator.registers[0] = 1;
    emulator.registers[1] = 2;
    emulator.skip_if_registers_not_equal(0, 1);
    assert_eq!(emulator.program_counter, 202);
    emulator.registers[0] = 2;
    emulator.skip_if_registers_not_equal(0, 1);
    assert_eq!(emulator.program_counter, 202);
}

#[test]
fn test_set_register_to_other() {
    let mut emulator = Emulator::new(true);
    emulator.registers[0] = 1;
    emulator.registers[1] = 15;
    emulator.set_register_to_other(0, 1);
    assert_eq!(emulator.registers[0], emulator.registers[1]);
}

#[test]
fn test_binary_or() {
    let mut emulator = Emulator::new(true);
    emulator.registers[0] = 0b1000;
    emulator.registers[1] = 0b0111;
    emulator.binary_or(0, 1);
    assert_eq!(emulator.registers[0], 0b1111);

    emulator.registers[2] = 0b1010;
    emulator.registers[3] = 0b0011;
    emulator.binary_or(2, 3);
    assert_eq!(emulator.registers[2], 0b1011);
}

#[test]
fn test_binary_and() {
    let mut emulator = Emulator::new(true);
    emulator.registers[0] = 0b1000;
    emulator.registers[1] = 0b1011;
    emulator.binary_and(0, 1);
    assert_eq!(emulator.registers[0], 0b1000);

    emulator.registers[3] = 0b1101;
    emulator.registers[4] = 0b1100;
    emulator.binary_and(3, 4);
    assert_eq!(emulator.registers[3], 0b1100);
}

#[test]
fn test_binary_xor() {
    let mut emulator = Emulator::new(true);
    emulator.registers[0] = 0b0110;
    emulator.registers[1] = 0b1101;
    emulator.binary_xor(0, 1);
    assert_eq!(emulator.registers[0], 0b1011);

    emulator.registers[4] = 0b1010;
    emulator.registers[5] = 0b0100;
    emulator.binary_xor(4, 5);
    assert_eq!(emulator.registers[4], 0b1110);
}

#[test]
fn test_add_registers() {
    let mut emulator = Emulator::new(true);
    emulator.registers[0] = 100;
    emulator.registers[1] = 50;
    emulator.add_registers(0, 1);
    assert_eq!(emulator.registers[0], 150);

    emulator.registers[13] = 200;
    emulator.registers[14] = 100;
    emulator.add_registers(13, 14);
    assert_eq!(emulator.registers[13], 44);
    assert_eq!(emulator.registers[15], 1);

    emulator.registers[3] = 200;
    emulator.registers[4] = 10;
    emulator.add_registers(3, 4);
    assert_eq!(emulator.registers[3], 210);
    assert_eq!(emulator.registers[15], 0);
}

#[test]
fn test_subtract_registers() {
    let mut emulator = Emulator::new(true);
    emulator.registers[0] = 100;
    emulator.registers[1] = 40;
    emulator.subtract_registers(0, 1);
    assert_eq!(emulator.registers[0], 60);
    assert_eq!(emulator.registers[15], 1);

    emulator.registers[3] = 40;
    emulator.registers[4] = 200;
    emulator.subtract_registers(3, 4);
    assert_eq!(emulator.registers[3], 96);
    assert_eq!(emulator.registers[15], 0);
}

#[test]
fn test_right_shift_on_register() {
    let mut emulator = Emulator::new(true);

    emulator.registers[0] = 0b100;
    emulator.registers[1] = 0b101;
    emulator.right_shift_on_register(0, 1);
    assert_eq!(emulator.registers[0], 0b10);
    assert_eq!(emulator.registers[15], 1);

    emulator.registers[0] = 0b101;
    emulator.registers[1] = 0b1000;
    emulator.right_shift_on_register(0, 1);
    assert_eq!(emulator.registers[0], 0b100);
    assert_eq!(emulator.registers[15], 0);

    emulator = Emulator::new(false);

    emulator.registers[0] = 0b1000;
    emulator.registers[1] = 0b110110;
    emulator.right_shift_on_register(0, 1);
    assert_eq!(emulator.registers[0], 0b100);
    assert_eq!(emulator.registers[15], 0);

    emulator.registers[0] = 0b101;
    emulator.registers[1] = 0b110110;
    emulator.right_shift_on_register(0, 1);
    assert_eq!(emulator.registers[0], 0b10);
    assert_eq!(emulator.registers[15], 1);
}

#[test]
fn test_left_shift_on_register() {
    let mut emulator = Emulator::new(true);

    emulator.registers[0] = 0b100;
    emulator.registers[1] = 0b101;
    emulator.left_shift_on_register(0, 1);
    assert_eq!(emulator.registers[0], 0b1010);
    assert_eq!(emulator.registers[15], 0);

    emulator.registers[0] = 0b101;
    emulator.registers[1] = 0b10001101;
    emulator.left_shift_on_register(0, 1);
    assert_eq!(emulator.registers[0], 0b00011010);
    assert_eq!(emulator.registers[15], 1);

    emulator = Emulator::new(false);

    emulator.registers[0] = 0b10001;
    emulator.registers[1] = 0b111010;
    emulator.left_shift_on_register(0, 1);
    assert_eq!(emulator.registers[0], 0b100010);
    assert_eq!(emulator.registers[15], 0);

    emulator.registers[0] = 0b10001101;
    emulator.registers[1] = 0b10;
    emulator.left_shift_on_register(0, 1);
    assert_eq!(emulator.registers[0], 0b00011010);
    assert_eq!(emulator.registers[15], 1);
}

#[test]
fn test_jump_with_offset() {
    let mut emulator = Emulator::new(true);
    emulator.program_counter = 200;
    emulator.registers[0] = 10;
    emulator.jump_with_offset(None, 100);
    assert_eq!(emulator.program_counter, 110);

    emulator = Emulator::new(false);
    emulator.program_counter = 200;
    emulator.registers[4] = 10;
    emulator.jump_with_offset(Some(4), 1000);
    assert_eq!(emulator.program_counter, 1010);
}

#[test]
fn test_skip_if_press_status() {
    let mut emulator = Emulator::new(true);
    emulator.program_counter = 200;
    emulator.registers[0] = 0x2;
    emulator.set_key_state(0x2, true);
    emulator.skip_if_press_status(0, true);
    assert_eq!(emulator.program_counter, 202);

    emulator.program_counter = 200;
    emulator.registers[1] = 0xE;
    emulator.set_key_state(0xE, true);
    emulator.skip_if_press_status(1, true);
    assert_eq!(emulator.program_counter, 202);

    emulator.program_counter = 200;
    emulator.registers[2] = 0xF;
    emulator.set_key_state(0xF, false);
    emulator.skip_if_press_status(2, false);
    assert_eq!(emulator.program_counter, 202);
}

#[test]
fn test_set_register_to_delay_timer() {
    let mut emulator = Emulator::new(true);
    emulator.delay_timer.counter = 100;
    emulator.set_register_to_delay_timer(1);
    assert_eq!(emulator.registers[1], 100);
}

#[test]
fn test_set_delay_timer_to_register() {
    let mut emulator = Emulator::new(true);
    emulator.registers[1] = 100;
    emulator.set_delay_timer_to_register(1);
    assert_eq!(emulator.delay_timer.counter, 100);
}

#[test]
fn test_set_sound_timer_to_register() {
    let mut emulator = Emulator::new(true);
    emulator.registers[1] = 100;
    emulator.set_sound_timer_to_register(1);
    assert_eq!(emulator.sound_timer.counter, 100);
}

#[test]
fn test_add_to_index() {
    let mut emulator = Emulator::new(true);
    emulator.index_register = 100;
    emulator.registers[1] = 21;
    emulator.add_to_index(1);
    assert_eq!(emulator.registers[0xF], 0);
    assert_eq!(emulator.index_register, 121);

    emulator.index_register = u16::MAX;
    emulator.registers[1] = 11;
    emulator.add_to_index(1);
    assert_eq!(emulator.registers[0xF], 1);
    assert_eq!(emulator.index_register, 10);
}

#[test]
fn test_get_key() {
    let mut emulator = Emulator::new(true);
    emulator.program_counter = 102;
    emulator.get_key(1, None);
    assert_eq!(emulator.program_counter, 100);

    emulator.program_counter = 100;
    emulator.get_key(1, Some(0x2));
    assert_eq!(emulator.registers[1], 0x2);
    assert_eq!(emulator.program_counter, 100);
}

#[test]
fn test_set_index_register_to_font_character() {
    let mut emulator = Emulator::new(true);
    emulator.registers[0] = 0xAB;
    emulator.set_index_register_to_font_character(0);
    let casted_index_register = emulator.index_register as usize;
    assert_eq!(
        &emulator.memory[casted_index_register..casted_index_register + 5],
        &[0xE0, 0x90, 0xE0, 0x90, 0xE0]
    );

    emulator.registers[0] = 0xA9;
    emulator.set_index_register_to_font_character(0);
    let casted_index_register = emulator.index_register as usize;
    assert_eq!(
        &emulator.memory[casted_index_register..casted_index_register + 5],
        &[0xF0, 0x90, 0xF0, 0x10, 0xF0]
    );
    assert_ne!(
        &emulator.memory[casted_index_register..casted_index_register + 5],
        &[0xF0, 0x90, 0xF0, 0x10, 0xF1]
    );
}

#[test]
fn test_binary_coded_decimal_conversion() {
    let mut emulator = Emulator::new(true);
    emulator.index_register = 0x300;
    emulator.registers[0] = 156;
    emulator.binary_coded_decimal_conversion(0).unwrap();

    let casted_index_register = emulator.index_register as usize;
    assert_eq!(
        &emulator.memory[casted_index_register..casted_index_register + 3],
        &[1, 5, 6]
    );
}

#[test]
fn test_store_registers_to_memory() {
    let mut emulator = Emulator::new(true);
    emulator.registers[0] = 4;
    emulator.registers[1] = 2;
    emulator.index_register = 0x200;
    emulator.store_registers_to_memory(1).unwrap();
    assert_eq!(emulator.memory[0x200], 4);
    assert_eq!(emulator.memory[0x201], 2);
    assert_eq!(emulator.index_register, 0x202);

    emulator = Emulator::new(false);
    emulator.registers[0] = 4;
    emulator.registers[1] = 2;
    emulator.index_register = 0x200;
    emulator.store_registers_to_memory(1).unwrap();
    assert_eq!(emulator.memory[0x200], 4);
    assert_eq!(emulator.memory[0x201], 2);
    assert_eq!(emulator.index_register, 0x200);
}

#[test]
fn test_store_memory_to_registers() {
    let mut emulator = Emulator::new(true);
    emulator.memory[0x200] = 4;
    emulator.memory[0x201] = 2;
    emulator.index_register = 0x200;
    emulator.store_memory_to_registers(1).unwrap();
    assert_eq!(emulator.registers[0], 4);
    assert_eq!(emulator.registers[1], 2);
    assert_eq!(emulator.index_register, 0x202);

    emulator = Emulator::new(false);
    emulator.memory[0x200] = 4;
    emulator.memory[0x201] = 2;
    emulator.index_register = 0x200;
    emulator.store_memory_to_registers(1).unwrap();
    assert_eq!(emulator.registers[0], 4);
    assert_eq!(emulator.registers[1], 2);
    assert_eq!(emulator.index_register, 0x200);
}

#[test]
fn memory_init() {
    let emulator = Emulator::new(true);
    assert_eq!(emulator.memory.len(), chip8::emulator::MEMORY_SIZE);
}

#[test]
fn stack_init() {
    let emulator = Emulator::new(true);
    assert_eq!(emulator.stack.size(), 0);
}

#[test]
fn timer_init() {
    let emulator = Emulator::new(true);
    assert_eq!(emulator.delay_timer.counter, 0);
    assert_eq!(emulator.sound_timer.counter, 0);
}

#[test]
fn program_counter_init() {
    let emulator = Emulator::new(true);
    assert_eq!(emulator.program_counter, chip8::emulator::PROGRAM_START);
}

#[test]
fn font_init() {
    let emulator = Emulator::new(true);
    assert_eq!(
        &emulator.memory[0x50..0x55],
        &[0xF0, 0x90, 0x90, 0x90, 0xF0]
    );
    assert_eq!(
        &emulator.memory[0x9B..0xA0],
        &[0xF0, 0x80, 0xF0, 0x80, 0x80]
    );
}
