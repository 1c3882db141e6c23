use antiquar::filename::{parse_record_name, record_identifier};

#[test]
fn rejects_names_that_are_no_records() {
    assert_eq!(record_identifier("abc.toml"), None);
    assert_eq!(record_identifier("1234.toml"), None);
    assert_eq!(record_identifier("123456.toml"), None);
    assert_eq!(record_identifier("00001.txt"), None);
}

#[test]
fn identifier_is_the_value_of_the_digits() {
    assert_eq!(record_identifier("00042.toml"), Some(42));
    assert_eq!(record_identifier("00000.toml"), Some(0));
    assert_eq!(record_identifier("99999.toml"), Some(99999));
    assert_eq!(record_identifier("12345.toml"), Some(12345));
    assert_eq!(record_identifier("01020.toml"), Some(1020));
}

#[test]
fn rejects_near_misses() {
    assert_eq!(record_identifier(""), None);
    assert_eq!(record_identifier("00001"), None);
    assert_eq!(record_identifier("00001."), None);
    assert_eq!(record_identifier("00001xtoml"), None);
    assert_eq!(record_identifier("00001.tom"), None);
    assert_eq!(record_identifier("00001.tomlx"), None);
    assert_eq!(record_identifier("00001.TOML"), None);
    assert_eq!(record_identifier("00001.toml\n"), None);
    assert_eq!(record_identifier(" 00001.toml"), None);
    assert_eq!(record_identifier("+0001.toml"), None);
    assert_eq!(record_identifier("-0001.toml"), None);
    assert_eq!(record_identifier("0000a.toml"), None);
    assert_eq!(record_identifier(".toml"), None);
}

#[test]
fn rejects_digits_outside_ascii() {
    assert_eq!(record_identifier("\u{0660}\u{0661}\u{0662}\u{0663}\u{0664}.toml"), None);
    assert_eq!(record_identifier("0000\u{0669}.toml"), None);
    assert_eq!(record_identifier("\u{ff11}2345.toml"), None);
}

#[test]
fn other_extensions_can_be_configured() {
    assert_eq!(parse_record_name("00007.book", "book"), Some(7));
    assert_eq!(parse_record_name("00007.toml", "book"), None);
    assert_eq!(parse_record_name("00007.book", "toml"), None);
    assert_eq!(parse_record_name("00007.", ""), Some(7));
    assert_eq!(parse_record_name("00007", ""), None);
    assert_eq!(parse_record_name("00123.b\u{00fc}ch", "b\u{00fc}ch"), Some(123));
}
