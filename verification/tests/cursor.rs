use mvt_reader::cursor::{
    advance_cursor, decode_command, saturating_add, zigzag_decode, CLOSE_PATH, LINE_TO, MOVE_TO,
};
use mvt_reader::text::{bool_to_string, i64_to_string, u64_to_string};

#[test]
fn zigzag_decoding() {
    assert_eq!(zigzag_decode(0), 0);
    assert_eq!(zigzag_decode(1), -1);
    assert_eq!(zigzag_decode(2), 1);
    assert_eq!(zigzag_decode(3), -2);
    assert_eq!(zigzag_decode(4), 2);
    assert_eq!(zigzag_decode(20), 10);
    assert_eq!(zigzag_decode(u32::MAX - 1), i32::MAX);
    assert_eq!(zigzag_decode(u32::MAX), i32::MIN);
}

#[test]
fn zigzag_decoding_is_the_bit_formula() {
    for raw in [0u32, 1, 2, 3, 4, 5, 1000, 1001, 0x7fff_ffff, 0x8000_0000, u32::MAX - 1, u32::MAX] {
        let expected = ((raw >> 1) as i32) ^ -((raw & 1) as i32);
        assert_eq!(zigzag_decode(raw), expected);
    }
}

#[test]
fn command_decoding() {
    assert_eq!(decode_command(9), (MOVE_TO, 2));
    assert_eq!(decode_command(18), (LINE_TO, 4));
    assert_eq!(decode_command(15), (CLOSE_PATH, 2));
    assert_eq!(decode_command(7), (7, 0));
    assert_eq!(decode_command(0), (0, 0));
    assert_eq!(decode_command(u32::MAX), (7, 0x3fff_fffe));
    assert_eq!((MOVE_TO, LINE_TO, CLOSE_PATH), (1, 2, 7));
}

#[test]
fn saturating_addition() {
    assert_eq!(saturating_add(1, 2), 3);
    assert_eq!(saturating_add(-5, 2), -3);
    assert_eq!(saturating_add(i32::MAX, 1), i32::MAX);
    assert_eq!(saturating_add(i32::MAX - 1, 1), i32::MAX);
    assert_eq!(saturating_add(i32::MAX, i32::MAX), i32::MAX);
    assert_eq!(saturating_add(i32::MIN, -1), i32::MIN);
    assert_eq!(saturating_add(i32::MIN, i32::MIN), i32::MIN);
    assert_eq!(saturating_add(i32::MIN, i32::MAX), -1);
}

#[test]
fn cursor_advances_by_zigzag_deltas() {
    assert_eq!(advance_cursor(0, 4), 2);
    assert_eq!(advance_cursor(2, 3), 0);
    assert_eq!(advance_cursor(i32::MAX, 2), i32::MAX);
    assert_eq!(advance_cursor(i32::MAX, 1), i32::MAX - 1);
    assert_eq!(advance_cursor(i32::MIN, 1), i32::MIN);
    let mut cursor = 0;
    let mut sum: i64 = 0;
    for raw in [10u32, 7, 200, 3, 1, 98] {
        cursor = advance_cursor(cursor, raw);
        sum += zigzag_decode(raw) as i64;
        assert_eq!(cursor as i64, sum);
    }
}

#[test]
fn decimal_text_of_integers() {
    assert_eq!(u64_to_string(0), "0");
    assert_eq!(u64_to_string(7), "7");
    assert_eq!(u64_to_string(10), "10");
    assert_eq!(u64_to_string(4096), "4096");
    assert_eq!(u64_to_string(u64::MAX), "18446744073709551615");
    assert_eq!(i64_to_string(0), "0");
    assert_eq!(i64_to_string(-1), "-1");
    assert_eq!(i64_to_string(1234567890), "1234567890");
    assert_eq!(i64_to_string(i64::MAX), "9223372036854775807");
    assert_eq!(i64_to_string(i64::MIN), "-9223372036854775808");
    for value in [0i64, 5, -5, 99, -100, 1 << 40, -(1 << 40)] {
        assert_eq!(i64_to_string(value), value.to_string());
    }
}

#[test]
fn text_of_booleans() {
    assert_eq!(bool_to_string(true), "true");
    assert_eq!(bool_to_string(false), "false");
}
