use measure_home_env_fs::digits::fmt_milli;
use measure_home_env_fs::digits::fmt_u64;

#[test]
fn decimal_rendering_of_whole_numbers() {
    assert_eq!(fmt_u64(0), "0");
    assert_eq!(fmt_u64(7), "7");
    assert_eq!(fmt_u64(101325), "101325");
    assert_eq!(fmt_u64(u64::MAX), "18446744073709551615");
}

#[test]
fn milli_rendering_has_exactly_three_decimals() {
    assert_eq!(fmt_milli(0), "0.000");
    assert_eq!(fmt_milli(21500), "21.500");
    assert_eq!(fmt_milli(1013250), "1013.250");
    assert_eq!(fmt_milli(999), "0.999");
    assert_eq!(fmt_milli(1000), "1.000");
}

#[test]
fn milli_rendering_of_negative_values() {
    assert_eq!(fmt_milli(-1), "-0.001");
    assert_eq!(fmt_milli(-2500), "-2.500");
    assert_eq!(fmt_milli(i64::MIN + 1), "-9223372036854775.807");
}
