use redact_data::data::{DataValue, Float64, UnencryptedDataValue};
use redact_data::text::{i64_of_text, is_float_text, same_text, u64_of_text};

fn float(text: &str) -> UnencryptedDataValue {
    UnencryptedDataValue::F64(Float64::parse(text).unwrap())
}

fn string(text: &str) -> UnencryptedDataValue {
    UnencryptedDataValue::String(text.to_owned())
}

#[test]
fn texts_of_scalars_are_read_back_in_their_kind() {
    assert_eq!(UnencryptedDataValue::infer("true"), UnencryptedDataValue::Bool(true));
    assert_eq!(UnencryptedDataValue::infer("0"), UnencryptedDataValue::U64(0));
    assert_eq!(UnencryptedDataValue::infer("-1"), UnencryptedDataValue::I64(-1));
    assert_eq!(UnencryptedDataValue::infer("10.52"), float("10.52"));
    assert_eq!(UnencryptedDataValue::infer("abc"), string("abc"));
    for text in ["true", "0", "-1", "10.52", "abc"] {
        assert_eq!(UnencryptedDataValue::infer(text).to_string(), text);
        assert_eq!(DataValue::infer(text).to_string(), text);
    }
}

#[test]
fn more_texts_and_their_kinds() {
    assert_eq!(UnencryptedDataValue::infer("false"), UnencryptedDataValue::Bool(false));
    assert_eq!(UnencryptedDataValue::infer("100"), UnencryptedDataValue::U64(100));
    assert_eq!(UnencryptedDataValue::infer("24"), UnencryptedDataValue::U64(24));
    assert_eq!(UnencryptedDataValue::infer("-10"), UnencryptedDataValue::I64(-10));
    assert_eq!(UnencryptedDataValue::infer("-4.38"), float("-4.38"));
    assert_eq!(UnencryptedDataValue::infer("10.3"), float("10.3"));
    assert_eq!(UnencryptedDataValue::infer("10.52a"), string("10.52a"));
    assert_eq!(UnencryptedDataValue::infer("somestr"), string("somestr"));
    assert_eq!(UnencryptedDataValue::infer(""), string(""));
    assert_eq!(UnencryptedDataValue::infer("True"), string("True"));
    assert_eq!(UnencryptedDataValue::infer(" 1"), string(" 1"));
    assert_eq!(UnencryptedDataValue::infer("+5"), UnencryptedDataValue::U64(5));
    assert_eq!(UnencryptedDataValue::infer("007"), UnencryptedDataValue::U64(7));
    assert_eq!(UnencryptedDataValue::infer("-0"), UnencryptedDataValue::I64(0));
    assert_eq!(UnencryptedDataValue::infer("18446744073709551615"), UnencryptedDataValue::U64(u64::MAX));
    assert_eq!(UnencryptedDataValue::infer("18446744073709551616"), float("18446744073709551616"));
    assert_eq!(UnencryptedDataValue::infer("-9223372036854775808"), UnencryptedDataValue::I64(i64::MIN));
    assert_eq!(UnencryptedDataValue::infer("-9223372036854775809"), float("-9223372036854775809"));
    assert_eq!(UnencryptedDataValue::infer("nan"), float("nan"));
    assert_eq!(UnencryptedDataValue::infer("1e3"), float("1e3"));
    assert_eq!(UnencryptedDataValue::infer("-"), string("-"));
    assert_eq!(UnencryptedDataValue::infer("+"), string("+"));
}

#[test]
fn rendering_then_inferring_gives_the_value_back() {
    let values = vec![
        UnencryptedDataValue::Bool(true),
        UnencryptedDataValue::Bool(false),
        UnencryptedDataValue::U64(0),
        UnencryptedDataValue::U64(7),
        UnencryptedDataValue::U64(u64::MAX),
        UnencryptedDataValue::I64(-1),
        UnencryptedDataValue::I64(i64::MIN),
        float("10.52"),
        float("-0.5"),
        float("inf"),
        string("abc"),
        string(""),
        string("1.2.3"),
    ];
    for v in values {
        assert_eq!(UnencryptedDataValue::infer(&v.to_string()), v);
    }
}

#[test]
fn a_signed_integer_that_is_not_negative_reads_back_unsigned() {
    let v = UnencryptedDataValue::I64(5);
    assert_eq!(UnencryptedDataValue::infer(&v.to_string()), UnencryptedDataValue::U64(5));
}

#[test]
fn integers_are_read_as_std_reads_them() {
    for text in [
        "", "0", "1", "+1", "-1", "+", "-", "00", "-00", "+-1", "1 ", " 1", "1_0", "12a", "a12",
        "18446744073709551615", "18446744073709551616", "9223372036854775807", "9223372036854775808",
        "-9223372036854775808", "-9223372036854775809", "99999999999999999999999", "١٢", "-+1", "0x1",
        "4294967296", "+0", "-0",
    ] {
        assert_eq!(u64_of_text(text), text.parse::<u64>().ok(), "{:?}", text);
        assert_eq!(i64_of_text(text), text.parse::<i64>().ok(), "{:?}", text);
    }
}

#[test]
fn floats_are_recognised_as_std_recognises_them() {
    for text in [
        "", "0", "1.5", "-1.5", "+1.5", ".", "1.", ".1", "1e1", "1e", "e1", "1e+1", "1e-1", "1e+-1",
        "inf", "-inf", "+inf", "infinity", "INFINITY", "iNf", "nan", "NAN", "-nan", "in", "na", "infi",
        "1.2.3", "1..2", "--1", "1f", "0x1p3", "1,5", "１", "1e1e1", "1.5E10", "1.5E", "+.5E-07",
    ] {
        assert_eq!(is_float_text(text), text.parse::<f64>().is_ok(), "{:?}", text);
    }
}

#[test]
fn texts_are_compared_character_by_character() {
    assert!(same_text("", ""));
    assert!(same_text("true", "true"));
    assert!(!same_text("true", "tru"));
    assert!(!same_text("true", "trues"));
    assert!(!same_text("true", "trüe"));
    assert!(same_text("日本", "日本"));
}
