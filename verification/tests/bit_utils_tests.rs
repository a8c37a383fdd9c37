use chip8::bit_utils::append_number_bits;
use chip8::bit_utils::bit_range_to_num;
use chip8::bit_utils::get_value_from_bit_range;

#[test]
fn test_append_number_bits() {
    let nums = [0b10000101, 0b01101100];
    assert_eq!(append_number_bits(&nums), 0b1000010101101100);
    let nums = [0b10000101, 0b11101101];
    assert_eq!(append_number_bits(&nums), 0b1000010111101101);
}

#[test]
fn test_bit_range_to_num() {
    assert_eq!(bit_range_to_num(0b01101101, 0, 4), Some(0b1101));
    assert_eq!(bit_range_to_num(0b01101101, 4, 8), Some(0b0110));
    assert_eq!(bit_range_to_num(0b01101101, 5, 2), None);
    assert_eq!(bit_range_to_num(0b01101101, 16, 20), None);
    assert_eq!(bit_range_to_num(0b01101101, 14, 17), None);
}

#[test]
fn test_get_value_from_bit_range() {
    let instruction: u16 = 0b1000_0000_0000_0000;
    let result = get_value_from_bit_range(instruction, 12, 15);
    assert_eq!(result, 0b0000_0000_0000_1000);

    let instruction: u16 = 0b0000_1101_0101_0000;
    let result = get_value_from_bit_range(instruction, 4, 11);
    assert_eq!(result, 0b0000_0000_1101_0101);

    let instruction: u16 = 0b0000_0110_1011_0111;
    let result = get_value_from_bit_range(instruction, 0, 11);
    assert_eq!(result, 0b0000_0110_1011_0111);
}

#[test]
fn whole_range_returns_value_unchanged() {
    assert_eq!(bit_range_to_num(0xBEEF, 0, 16), Some(0xBEEF));
    assert_eq!(get_value_from_bit_range(0xBEEF, 0, 15), 0xBEEF);
}

#[test]
fn single_bit_range_is_zero_or_one() {
    assert_eq!(bit_range_to_num(0b10, 1, 2), Some(1));
    assert_eq!(bit_range_to_num(0b10, 0, 1), Some(0));
}

#[test]
fn append_is_big_endian() {
    assert_eq!(append_number_bits(&[0x12, 0x34]), 0x1234);
    assert_eq!(append_number_bits(&[0x00, 0xE0]), 0x00E0);
}
