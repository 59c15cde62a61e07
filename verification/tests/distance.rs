use miobot::distance::levenshtein;
use miobot::text::{chars_of, decimal_of, lowercase, read_int, string_of, uppercase};

fn d(a: &str, b: &str) -> usize {
    levenshtein(&chars_of(a), &chars_of(b))
}

#[test]
fn edit_distances() {
    assert_eq!(d("", ""), 0);
    assert_eq!(d("", "abc"), 3);
    assert_eq!(d("abc", ""), 3);
    assert_eq!(d("fetch", "fetch"), 0);
    assert_eq!(d("fetchx", "fetch"), 1);
    assert_eq!(d("fetch", "fetchx"), 1);
    assert_eq!(d("kitten", "sitting"), 3);
    assert_eq!(d("flaw", "lawn"), 2);
    assert_eq!(d("abc", "xyz"), 3);
    assert_eq!(d("héllo", "hello"), 1);
}

#[test]
fn decimal_numerals() {
    assert_eq!(string_of(&decimal_of(0)), "0");
    assert_eq!(string_of(&decimal_of(7)), "7");
    assert_eq!(string_of(&decimal_of(10)), "10");
    assert_eq!(string_of(&decimal_of(1203)), "1203");
    assert_eq!(string_of(&decimal_of(u64::MAX)), "18446744073709551615");
}

#[test]
fn integers_from_text() {
    assert_eq!(read_int(&chars_of("0")), Some(0));
    assert_eq!(read_int(&chars_of("-0")), Some(0));
    assert_eq!(read_int(&chars_of("007")), Some(7));
    assert_eq!(read_int(&chars_of("9223372036854775807")), Some(i64::MAX));
    assert_eq!(read_int(&chars_of("9223372036854775808")), None);
    assert_eq!(read_int(&chars_of("-9223372036854775808")), Some(i64::MIN));
    assert_eq!(read_int(&chars_of("-9223372036854775809")), None);
    assert_eq!(read_int(&chars_of("99999999999999999999999999")), None);
    assert_eq!(read_int(&chars_of("")), None);
    assert_eq!(read_int(&chars_of("-")), None);
    assert_eq!(read_int(&chars_of("+")), None);
    assert_eq!(read_int(&chars_of("1a")), None);
    assert_eq!(read_int(&chars_of("--1")), None);
}

#[test]
fn ascii_case() {
    assert_eq!(string_of(&lowercase(&chars_of("Zh-CN ÄB"))), "zh-cn Äb");
    assert_eq!(string_of(&uppercase(&chars_of("en-us äb"))), "EN-US äB");
}
