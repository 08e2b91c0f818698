use schedscan::parse::parse_task_from_filename;

#[test]
fn plain_numerals_parse() {
    assert_eq!(parse_task_from_filename("0"), Some(0));
    assert_eq!(parse_task_from_filename("1"), Some(1));
    assert_eq!(parse_task_from_filename("123"), Some(123));
    assert_eq!(parse_task_from_filename("40713"), Some(40713));
}

#[test]
fn signed_numerals_parse() {
    assert_eq!(parse_task_from_filename("+7"), Some(7));
    assert_eq!(parse_task_from_filename("-5"), Some(-5));
    assert_eq!(parse_task_from_filename("-0"), Some(0));
}

#[test]
fn leading_zeros_are_accepted() {
    assert_eq!(parse_task_from_filename("000042"), Some(42));
    assert_eq!(parse_task_from_filename("0000000000000000009"), Some(9));
}

#[test]
fn range_boundaries() {
    assert_eq!(parse_task_from_filename("2147483647"), Some(i32::MAX));
    assert_eq!(parse_task_from_filename("-2147483648"), Some(i32::MIN));
    assert_eq!(parse_task_from_filename("2147483648"), None);
    assert_eq!(parse_task_from_filename("-2147483649"), None);
    assert_eq!(parse_task_from_filename("99999999999999999999"), None);
}

#[test]
fn non_numeric_entries_are_rejected() {
    assert_eq!(parse_task_from_filename(""), None);
    assert_eq!(parse_task_from_filename("+"), None);
    assert_eq!(parse_task_from_filename("-"), None);
    assert_eq!(parse_task_from_filename("self"), None);
    assert_eq!(parse_task_from_filename("thread-self"), None);
    assert_eq!(parse_task_from_filename("12a"), None);
    assert_eq!(parse_task_from_filename("a12"), None);
    assert_eq!(parse_task_from_filename(" 12"), None);
    assert_eq!(parse_task_from_filename("1 2"), None);
    assert_eq!(parse_task_from_filename("--1"), None);
}
