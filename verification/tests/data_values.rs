use redact_data::data::{
    Data, DataCollection, DataType, DataValue, DataValueCollection, EncryptedDataValue, Float64,
    UnencryptedDataValue,
};

#[test]
fn test_default_is_empty_vec() {
    let dvc = DataValueCollection::default();
    assert!(dvc.0.is_empty());
}

#[test]
fn test_to_string_empty() {
    let dvc = DataValueCollection::default();
    assert!(dvc.0.is_empty());
    assert_eq!("", dvc.to_string());
}

#[test]
fn test_to_string_encrypted() {
    let dv = DataValue::Encrypted(EncryptedDataValue {
        value: "hello".into(),
        datatype: DataType::String,
        keyname: "somekey".to_owned(),
    });

    assert_eq!(
        "encrypted(key: \"somekey\", type: \"string\", value: \"hello\")",
        dv.to_string()
    )
}

#[test]
fn data_test_to_string_encrypted() {
    let dv = DataValue::Encrypted(EncryptedDataValue {
        value: "hello".into(),
        datatype: DataType::String,
        keyname: "somekey".to_owned(),
    });

    assert_eq!(
        "encrypted(key: \"somekey\", type: \"string\", value: \"hello\")",
        dv.to_string()
    )
}

#[test]
fn test_to_string_unencrypted() {
    let dv = DataValue::Unencrypted(UnencryptedDataValue::Bool(true));

    assert_eq!("true", dv.to_string())
}

#[test]
fn test_to_string_bool() {
    let dt = DataType::Bool;

    assert_eq!("bool", dt.to_string())
}

#[test]
fn test_to_string_u64() {
    let dt = DataType::U64;

    assert_eq!("u64", dt.to_string())
}

#[test]
fn test_to_string_i64() {
    let dt = DataType::I64;

    assert_eq!("i64", dt.to_string())
}

#[test]
fn test_to_string_f64() {
    let dt = DataType::F64;

    assert_eq!("f64", dt.to_string())
}

#[test]
fn test_to_string_string() {
    let dt = DataType::String;

    assert_eq!("string", dt.to_string())
}

#[test]
fn test_to_string_unencrypted_bool_true() {
    let dv = DataValue::Unencrypted(UnencryptedDataValue::Bool(true));

    assert_eq!("true", dv.to_string())
}

#[test]
fn test_to_string_unencrypted_bool_false() {
    let dv = DataValue::Unencrypted(UnencryptedDataValue::Bool(false));

    assert_eq!("false", dv.to_string())
}

#[test]
fn test_to_string_unencrypted_u64() {
    let dv = DataValue::Unencrypted(UnencryptedDataValue::U64(0));

    assert_eq!("0", dv.to_string())
}

#[test]
fn test_to_string_unencrypted_i64() {
    let dv = DataValue::Unencrypted(UnencryptedDataValue::I64(-10));

    assert_eq!("-10", dv.to_string())
}

#[test]
fn test_to_string_unencrypted_f64() {
    let number = Float64::parse(&(-390.321f64).to_string()).unwrap();
    let dv = DataValue::Unencrypted(UnencryptedDataValue::F64(number));

    assert_eq!("-390.321", dv.to_string())
}

#[test]
fn test_to_string_unencrypted_string() {
    let dv = DataValue::Unencrypted(UnencryptedDataValue::String("hello".to_owned()));

    assert_eq!("hello", dv.to_string())
}

#[test]
fn encrypted_value_with_key_k1() {
    let e = EncryptedDataValue {
        value: "hello".as_bytes().to_vec(),
        datatype: DataType::String,
        keyname: "k1".to_owned(),
    };
    assert_eq!(e.to_string(), "encrypted(key: \"k1\", type: \"string\", value: \"hello\")");
    assert_eq!(e.render(), Some("encrypted(key: \"k1\", type: \"string\", value: \"hello\")".to_owned()));
}

#[test]
fn encrypted_value_of_each_kind() {
    for (kind, name) in [
        (DataType::Bool, "bool"),
        (DataType::U64, "u64"),
        (DataType::I64, "i64"),
        (DataType::F64, "f64"),
        (DataType::String, "string"),
    ] {
        let e = EncryptedDataValue { value: vec![0xc3, 0xa9], datatype: kind, keyname: String::new() };
        assert_eq!(e.to_string(), format!("encrypted(key: \"\", type: \"{}\", value: \"é\")", name));
        assert_eq!(kind.as_str(), name);
    }
}

#[test]
fn encrypted_payload_that_is_not_text_has_no_rendering() {
    let e = EncryptedDataValue {
        value: vec![0xff, 0xfe, 0x00],
        datatype: DataType::U64,
        keyname: "k".to_owned(),
    };
    assert_eq!(e.render(), None);
    let dv = DataValue::Encrypted(e.clone());
    assert_eq!(dv.render(), None);
    let d = Data::new(".p.", dv.clone(), None);
    assert_eq!(d.render(), None);
    let both = DataValueCollection(vec![DataValue::from("a"), dv]);
    assert_eq!(both.render(), None);
    let truncated = EncryptedDataValue { value: vec![0xe6, 0x97], datatype: DataType::String, keyname: "k".to_owned() };
    assert_eq!(truncated.render(), None);
}

#[test]
fn integers_at_their_limits() {
    assert_eq!(UnencryptedDataValue::U64(u64::MAX).to_string(), "18446744073709551615");
    assert_eq!(UnencryptedDataValue::U64(10).to_string(), "10");
    assert_eq!(UnencryptedDataValue::U64(9).to_string(), "9");
    assert_eq!(UnencryptedDataValue::U64(1234567890).to_string(), "1234567890");
    assert_eq!(UnencryptedDataValue::I64(i64::MIN).to_string(), "-9223372036854775808");
    assert_eq!(UnencryptedDataValue::I64(i64::MAX).to_string(), "9223372036854775807");
    assert_eq!(UnencryptedDataValue::I64(0).to_string(), "0");
    assert_eq!(UnencryptedDataValue::I64(-1).to_string(), "-1");
    assert_eq!(UnencryptedDataValue::I64(10).to_string(), "10");
}

#[test]
fn integers_render_as_std_renders_them() {
    for n in [0u64, 1, 9, 10, 11, 99, 100, 101, 4096, 65535, 1 << 40, u64::MAX - 1, u64::MAX] {
        assert_eq!(UnencryptedDataValue::U64(n).to_string(), n.to_string());
    }
    for n in [0i64, 1, -1, 9, -9, 10, -10, 12345, -12345, i64::MAX, i64::MIN, i64::MIN + 1] {
        assert_eq!(UnencryptedDataValue::I64(n).to_string(), n.to_string());
    }
}

#[test]
fn kinds_of_unencrypted_values() {
    assert_eq!(UnencryptedDataValue::Bool(true).datatype(), DataType::Bool);
    assert_eq!(UnencryptedDataValue::U64(1).datatype(), DataType::U64);
    assert_eq!(UnencryptedDataValue::I64(1).datatype(), DataType::I64);
    assert_eq!(UnencryptedDataValue::F64(Float64::parse("1.5").unwrap()).datatype(), DataType::F64);
    assert_eq!(UnencryptedDataValue::String("s".to_owned()).datatype(), DataType::String);
}

#[test]
fn float_literals() {
    for ok in [
        "0", "1", "-1", "+1", "10.52", "-4.38", ".5", "5.", "-.5", "1e5", "1E5", "1e+5", "1.5e-3",
        "inf", "-inf", "+infinity", "NaN", "nan", "INF", "Infinity", "-390.321", "007", "1.e2", ".1e1",
    ] {
        let f = Float64::parse(ok);
        assert!(f.is_some(), "{}", ok);
        assert_eq!(f.unwrap().to_string(), ok);
        assert!(ok.parse::<f64>().is_ok(), "{}", ok);
    }
    for bad in [
        "", ".", "-", "+", "e5", "1e", "1e+", "1.2.3", "10.52a", "abc", " 1", "1 ", "--1", "in",
        "infinit", "nanx", "1_000", "0x10", "1e5.0", ".e1", "+-1", "١",
    ] {
        assert!(Float64::parse(bad).is_none(), "{}", bad);
        assert!(bad.parse::<f64>().is_err(), "{}", bad);
    }
}

#[test]
fn floats_render_as_their_literal() {
    for x in [0.0f64, -0.0, 1.0, 10.52, -4.38, 1e21, 1e-7, f64::MAX, f64::MIN_POSITIVE, f64::INFINITY, f64::NEG_INFINITY, f64::NAN] {
        let text = x.to_string();
        let f = Float64::parse(&text).unwrap();
        assert_eq!(f.as_str(), text);
        assert_eq!(f.clone(), f);
        assert_eq!(UnencryptedDataValue::F64(f).to_string(), text);
    }
}

#[test]
fn default_value_is_false() {
    assert_eq!(DataValue::default(), DataValue::Unencrypted(UnencryptedDataValue::Bool(false)));
    assert_eq!(DataValue::default().to_string(), "false");
}

#[test]
fn strings_become_string_values() {
    assert_eq!(
        DataValue::from("true"),
        DataValue::Unencrypted(UnencryptedDataValue::String("true".to_owned()))
    );
    assert_eq!(
        DataValue::from("10".to_owned()),
        DataValue::Unencrypted(UnencryptedDataValue::String("10".to_owned()))
    );
}

#[test]
fn data_renders_its_values_in_order() {
    let values = vec![
        DataValue::Unencrypted(UnencryptedDataValue::Bool(true)),
        DataValue::Unencrypted(UnencryptedDataValue::I64(-7)),
        DataValue::from("x"),
        DataValue::Encrypted(EncryptedDataValue {
            value: "p".as_bytes().to_vec(),
            datatype: DataType::Bool,
            keyname: "k".to_owned(),
        }),
        DataValue::Unencrypted(UnencryptedDataValue::U64(42)),
    ];
    let d = Data::with_values("a.b", values.clone(), None).unwrap();
    let expected = "true-7xencrypted(key: \"k\", type: \"bool\", value: \"p\")42";
    assert_eq!(d.to_string(), expected);
    assert_eq!(d.render(), Some(expected.to_owned()));
    assert_eq!(d.values(), &DataValueCollection(values.clone()));
    assert_eq!(DataValueCollection(values).to_string(), expected);
    assert_eq!(d.path(), ".a.b.");
}

#[test]
fn data_with_one_value_renders_as_the_value() {
    let d = Data::new(".path.", DataValue::Unencrypted(UnencryptedDataValue::I64(1)), None);
    assert_eq!(d.to_string(), "1");
    assert_eq!(d.values().0.len(), 1);
}

#[test]
fn data_needs_a_value() {
    assert!(Data::with_values(".p.", Vec::new(), None).is_none());
    assert!(Data::with_values(".p.", vec![DataValue::default()], None).is_some());
}

#[test]
fn clones_are_equal() {
    let e = DataValue::Encrypted(EncryptedDataValue {
        value: vec![1, 2, 3],
        datatype: DataType::I64,
        keyname: "k".to_owned(),
    });
    assert_eq!(e.clone(), e);
    let c = DataValueCollection(vec![e.clone(), DataValue::from("s"), DataValue::default()]);
    assert_eq!(c.clone(), c);
    let d = Data::with_values("p", c.0.clone(), Some(vec!["k".to_owned()])).unwrap();
    assert_eq!(d.clone(), d);
    let many = DataCollection { data: vec![d.clone(), d] };
    assert_eq!(many.data.len(), 2);
    assert_eq!(many.data[0], many.data[1]);
}
