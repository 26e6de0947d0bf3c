use csv_schema::classify::{classify, is_null};
use csv_schema::lattice::ColumnType;

#[test]
fn empty_field_is_null() {
    assert!(is_null(""));
    assert!(!is_null(" "));
    assert!(!is_null("0"));
}

#[test]
fn booleans_in_any_letter_case() {
    for value in ["true", "false", "TRUE", "FALSE", "True", "fAlSe", "tRUe"] {
        assert_eq!(classify(value), ColumnType::Boolean, "{}", value);
    }
}

#[test]
fn near_booleans_are_text() {
    for value in ["tru", "truee", "yes", "no", "t", "f", "falsy", " true", "true "] {
        assert_eq!(classify(value), ColumnType::Text, "{}", value);
    }
}

#[test]
fn whole_numbers_are_integers() {
    for value in ["0", "1", "-1", "42", "007", "-0", "1234567890123456789"] {
        assert_eq!(classify(value), ColumnType::Integer, "{}", value);
    }
}

#[test]
fn integers_end_where_64_bits_end() {
    assert_eq!(classify("9223372036854775807"), ColumnType::Integer);
    assert_eq!(classify("9223372036854775808"), ColumnType::Text);
    assert_eq!(classify("-9223372036854775808"), ColumnType::Integer);
    assert_eq!(classify("-9223372036854775809"), ColumnType::Text);
    assert_eq!(classify("0000000000000000000000000000001"), ColumnType::Integer);
    assert_eq!(classify("99999999999999999999999999"), ColumnType::Text);
    assert_eq!(classify("18446744073709551616"), ColumnType::Text);
}

#[test]
fn decimals_and_exponents_are_floats() {
    for value in [
        "1.5", "-1.5", ".5", "5.", "-.5", "0.0", "1e5", "1E5", "1e+5", "1e-5", "1.5e10", "-2.5E-3",
        ".5e1", "5.e1", "123456789012345678901234567890.0",
    ] {
        assert_eq!(classify(value), ColumnType::Float, "{}", value);
    }
}

#[test]
fn broken_numbers_are_text() {
    for value in [
        "-", ".", "-.", "+1", "+1.5", "1.2.3", "1e", "e5", "1e+", "1e5.5", "1.5e", "1ee5", "--1",
        "1-", "1,5", "1 000", "0x10", "NaN", "nan", "inf", "-inf", "1.5f", "1e5e5", ".e5", "1_000",
    ] {
        assert_eq!(classify(value), ColumnType::Text, "{}", value);
    }
}

#[test]
fn other_values_are_text() {
    for value in ["a", "hello world", "2020-01-01", "12:30", "\"1\"", " 1", "1 ", "\u{0661}\u{0662}", "caf\u{e9}", "1\u{a0}"] {
        assert_eq!(classify(value), ColumnType::Text, "{}", value);
    }
}

#[test]
fn empty_value_classifies_as_text() {
    assert_eq!(classify(""), ColumnType::Text);
}
