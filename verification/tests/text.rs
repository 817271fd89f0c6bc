use mlflow::text::{int_to_text, join, same, text_to_int};

#[test]
fn integers_are_written_in_decimal() {
    assert_eq!(int_to_text(0), "0");
    assert_eq!(int_to_text(7), "7");
    assert_eq!(int_to_text(10), "10");
    assert_eq!(int_to_text(-1), "-1");
    assert_eq!(int_to_text(1600000000000), "1600000000000");
    assert_eq!(int_to_text(i64::MAX), "9223372036854775807");
    assert_eq!(int_to_text(i64::MIN), "-9223372036854775808");
}

#[test]
fn integers_are_read_from_decimal() {
    assert_eq!(text_to_int("0"), Some(0));
    assert_eq!(text_to_int("42"), Some(42));
    assert_eq!(text_to_int("-42"), Some(-42));
    assert_eq!(text_to_int("+42"), Some(42));
    assert_eq!(text_to_int("-0"), Some(0));
    assert_eq!(text_to_int("007"), Some(7));
    assert_eq!(text_to_int("9223372036854775807"), Some(i64::MAX));
    assert_eq!(text_to_int("-9223372036854775808"), Some(i64::MIN));
    assert_eq!(text_to_int("00000000000000000000000000000000000000012"), Some(12));
}

#[test]
fn what_is_no_integer_is_not_read() {
    assert_eq!(text_to_int(""), None);
    assert_eq!(text_to_int("-"), None);
    assert_eq!(text_to_int("+"), None);
    assert_eq!(text_to_int(" 1"), None);
    assert_eq!(text_to_int("1 "), None);
    assert_eq!(text_to_int("1.0"), None);
    assert_eq!(text_to_int("1e3"), None);
    assert_eq!(text_to_int("--1"), None);
    assert_eq!(text_to_int("1-"), None);
    assert_eq!(text_to_int("0x10"), None);
    assert_eq!(text_to_int("١٢"), None);
    assert_eq!(text_to_int("12a"), None);
}

#[test]
fn an_integer_out_of_range_is_not_read() {
    assert_eq!(text_to_int("9223372036854775808"), None);
    assert_eq!(text_to_int("-9223372036854775809"), None);
    assert_eq!(text_to_int("18446744073709551616"), None);
    assert_eq!(text_to_int("99999999999999999999999999999999999999"), None);
    assert_eq!(text_to_int("-99999999999999999999999999999999999999"), None);
}

#[test]
fn reading_agrees_with_the_standard_library() {
    let samples = [
        "0", "-0", "+0", "1", "-1", "+1", "12345", "-12345", "9223372036854775807",
        "9223372036854775808", "-9223372036854775808", "-9223372036854775809", "", "+", "-", "a",
        "1a", "00", "+-1", "1_000",
    ];
    for sample in samples {
        assert_eq!(text_to_int(sample), sample.parse::<i64>().ok(), "{}", sample);
    }
}

#[test]
fn writing_and_reading_an_integer_gives_it_back() {
    let samples = [0i64, 1, -1, 9, 10, 99, 100, -100, 1234567890123, i64::MAX, i64::MIN, i64::MIN + 1];
    for sample in samples {
        assert_eq!(int_to_text(sample), format!("{}", sample));
        assert_eq!(text_to_int(&int_to_text(sample)), Some(sample));
    }
}

#[test]
fn texts_are_compared_by_their_characters() {
    assert!(same("abc", "abc"));
    assert!(!same("abc", "abd"));
    assert!(!same("abc", "ab"));
    assert!(same("", ""));
}

#[test]
fn a_base_and_a_path_are_joined_by_a_slash() {
    assert_eq!(join("http://host/api", "2.0/mlflow/runs/create"), "http://host/api/2.0/mlflow/runs/create");
    assert_eq!(join("http://host/api", ""), "http://host/api/");
    assert_eq!(join("", "x"), "/x");
}
