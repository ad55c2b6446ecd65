use apptidying::text::{
    chars_of, chars_rfind, concat3, decimal_string, join_strings, parse_bool_chars, parse_i32_chars,
    split_chars, str_contains, str_starts_with, string_from_chars, trim_chars,
};

#[test]
fn characters_round_trip() {
    let cs = chars_of("héllo");
    assert_eq!(cs.len(), 5);
    assert_eq!(string_from_chars(&cs), "héllo");
    assert_eq!(concat3("a", "b", "c"), "abc");
}

#[test]
fn trimming_and_searching() {
    assert_eq!(string_from_chars(&trim_chars(&chars_of(" \t a b \n"))), "a b");
    assert_eq!(string_from_chars(&trim_chars(&chars_of("   "))), "");
    assert!(str_contains("Notification Center", "Center"));
    assert!(!str_contains("abc", "abd"));
    assert!(str_starts_with("error: x", "error:"));
    assert_eq!(chars_rfind(&chars_of("a|b|c"), '|'), Some(3));
    assert_eq!(chars_rfind(&chars_of("abc"), '|'), None);
}

#[test]
fn splitting() {
    let parts = split_chars(&chars_of("a,,b"), ',');
    let texts: Vec<String> = parts.iter().map(|p| string_from_chars(p)).collect();
    assert_eq!(texts, vec!["a".to_string(), "".to_string(), "b".to_string()]);
    assert_eq!(split_chars(&chars_of(""), ',').len(), 1);
}

#[test]
fn numbers() {
    assert_eq!(parse_i32_chars(&chars_of("-12")), Some(-12));
    assert_eq!(parse_i32_chars(&chars_of("+7")), Some(7));
    assert_eq!(parse_i32_chars(&chars_of("2147483647")), Some(i32::MAX));
    assert_eq!(parse_i32_chars(&chars_of("2147483648")), None);
    assert_eq!(parse_i32_chars(&chars_of("-2147483648")), Some(i32::MIN));
    assert_eq!(parse_i32_chars(&chars_of("")), None);
    assert_eq!(parse_i32_chars(&chars_of("1a")), None);
    assert_eq!(decimal_string(-42), "-42");
    assert_eq!(decimal_string(0), "0");
    assert_eq!(decimal_string(i64::MIN), "-9223372036854775808");
    assert_eq!(parse_bool_chars(&chars_of("true")), Some(true));
    assert_eq!(parse_bool_chars(&chars_of("True")), None);
}

#[test]
fn joining() {
    assert_eq!(join_strings(&vec!["a".to_string(), "b".to_string()], ", "), "a, b");
    assert_eq!(join_strings(&vec![], ", "), "");
}
