use esp32s3_ffi::bmp180::{compensate, word_from_bytes, Coeffs};
use esp32s3_ffi::sr04::echo_distance_um;

fn coeffs(ac5: i16, ac6: i16, mc: i16, md: i16) -> Coeffs {
    Coeffs { ac5, ac6, mc, md }
}

#[test]
fn compensate_datasheet_example() {
    // AC5 = 32757 is the datasheet's value: the formula then gives 15.0 °C.
    assert_eq!(compensate(27898, coeffs(32757, 23153, -8711, 2868)), Some(150));
}

#[test]
fn compensate_with_ac5_408() {
    // x1 = 59, x2 = -6095 (rounded toward zero), (59 - 6095 + 8) >> 4 = -377.
    assert_eq!(compensate(27898, coeffs(408, 23153, -8711, 2868)), Some(-377));
}

#[test]
fn compensate_shift_rounds_down_and_division_toward_zero() {
    // x1 = -1 >> 15 = -1; x2 = -2048 / 3 = -682; (-1 - 682 + 8) >> 4 = -43.
    assert_eq!(compensate(0, coeffs(1, 1, -1, 4)), Some(-43));
    // x1 = -1, x2 = 2048 / 1; (2055) >> 4 = 128.
    assert_eq!(compensate(0, coeffs(1, 1, 1, 2)), Some(128));
}

#[test]
fn compensate_zero_divisor_is_none() {
    assert_eq!(compensate(100, coeffs(5, 100, -8711, 0)), None);
    assert_eq!(compensate(0, coeffs(1, 1, 7, 1)), None);
}

#[test]
fn compensate_extreme_inputs_do_not_overflow() {
    assert_eq!(compensate(i16::MAX, coeffs(i16::MIN, i16::MIN, i16::MIN, i16::MAX)), {
        let x1: i32 = ((i16::MAX as i32 - i16::MIN as i32) * i16::MIN as i32) >> 15;
        let x2: i32 = ((i16::MIN as i32) << 11) / (x1 + i16::MAX as i32);
        Some((x1 + x2 + 8) >> 4)
    });
}

#[test]
fn word_from_bytes_is_big_endian_signed() {
    assert_eq!(word_from_bytes(0x12, 0x34), 0x1234);
    assert_eq!(word_from_bytes(0xFF, 0xFE), -2);
    assert_eq!(word_from_bytes(0x80, 0x00), i16::MIN);
    assert_eq!(word_from_bytes(0x7F, 0xFF), i16::MAX);
    assert_eq!(word_from_bytes(0x00, 0x00), 0);
}

#[test]
fn echo_distance_from_ticks() {
    // 100 ticks = 10 µs round trip at 340 m/s: 1.7 mm one way.
    assert_eq!(echo_distance_um(1000, 1100), 1700);
    assert_eq!(echo_distance_um(5, 5), 0);
    assert_eq!(echo_distance_um(100, 0), -1700);
    assert_eq!(echo_distance_um(0, u64::MAX), 17 * u64::MAX as i128);
}
