use redact_data::data::{Data, DataPath, DataValue, UnencryptedDataValue};
use std::convert::From;

#[test]
fn test_new_with_valid_path() {
    let dp = DataPath::new(".my.path.");
    assert_eq!(dp.to_string(), ".my.path.");
}

#[test]
fn test_new_with_path_missing_first_period() {
    let dp = DataPath::new("my.path.");
    assert_eq!(dp.to_string(), ".my.path.");
}

#[test]
fn test_new_with_path_missing_last_period() {
    let dp = DataPath::new(".my.path");
    assert_eq!(dp.to_string(), ".my.path.");
}

#[test]
fn test_new_with_path_missing_first_and_last_period() {
    let dp = DataPath::new("my.path");
    assert_eq!(dp.to_string(), ".my.path.");
}

#[test]
fn test_new_with_path_with_no_periods() {
    let dp = DataPath::new("my");
    assert_eq!(dp.to_string(), ".my.");
}

#[test]
fn test_new_with_empty_path() {
    let dp = DataPath::new("");
    assert_eq!(dp.to_string(), ".");
}

#[test]
fn test_new_with_path_is_single_period() {
    let dp = DataPath::new(".");
    assert_eq!(dp.to_string(), ".");
}

#[test]
fn test_new_with_path_is_double_period() {
    let dp = DataPath::new("..");
    assert_eq!(dp.to_string(), "..");
}

#[test]
fn test_from_string() {
    let dp: DataPath = From::<String>::from("my.path".to_owned());
    assert_eq!(dp.to_string(), ".my.path.");
}

#[test]
fn test_from_str() {
    let dp: DataPath = From::<&str>::from("my.path.");
    assert_eq!(dp.to_string(), ".my.path.");
}

#[test]
fn test_from_datapath_for_string() {
    let dp = DataPath::new(".my.path");
    let s: String = From::<DataPath>::from(dp);
    assert_eq!(s, ".my.path.");
}

#[test]
fn single_character_paths() {
    assert_eq!(DataPath::new("a").to_string(), ".a.");
    assert_eq!(DataPath::validate_path("a"), ".a.");
    assert_eq!(DataPath::validate_path("."), ".");
}

#[test]
fn periods_inside_a_path_are_kept() {
    assert_eq!(DataPath::new("...").to_string(), "...");
    assert_eq!(DataPath::new("a..b").to_string(), ".a..b.");
    assert_eq!(DataPath::new(".a..").to_string(), ".a..");
    assert_eq!(DataPath::new("..a").to_string(), "..a.");
}

#[test]
fn paths_outside_ascii() {
    assert_eq!(DataPath::new("é").to_string(), ".é.");
    assert_eq!(DataPath::new("日本.語").to_string(), ".日本.語.");
    assert_eq!(DataPath::new(".日本").to_string(), ".日本.");
}

#[test]
fn normalizing_twice_is_normalizing_once() {
    for p in ["", ".", "..", "a", "my", "my.path", ".my.path", "my.path.", ".my.path.", "a..b", "é"] {
        let once = DataPath::validate_path(p);
        let twice = DataPath::validate_path(&once);
        assert_eq!(once, twice);
        assert!(once.starts_with('.') && once.ends_with('.'));
    }
}

#[test]
fn default_path_is_a_single_period() {
    assert_eq!(DataPath::default().to_string(), ".");
    assert_eq!(DataPath::default(), DataPath::new(""));
}

#[test]
fn a_cloned_path_is_the_same_path() {
    let dp = DataPath::new("my.path");
    assert_eq!(dp.clone(), dp);
    assert_eq!(dp.as_str(), ".my.path.");
}

#[test]
fn data_keeps_its_path_in_stored_form() {
    let d = Data::new("my.path", DataValue::Unencrypted(UnencryptedDataValue::Bool(true)), None);
    assert_eq!(d.path(), ".my.path.");
    assert_eq!(d.encryptedby(), &None);
    let keyed = Data::new(".k.", DataValue::from("v"), Some(vec!["k1".to_owned(), "k2".to_owned()]));
    assert_eq!(keyed.encryptedby(), &Some(vec!["k1".to_owned(), "k2".to_owned()]));
    assert_eq!(keyed.clone(), keyed);
}
