use miobot::cursor::{ArgumentCursor, ParseError};

#[test]
fn tokens_rewind_and_rest() {
    let mut c = ArgumentCursor::new("en auto hello world");
    assert_eq!(c.len(), 4);
    assert_eq!(c.single(), Ok("en".to_string()));
    assert_eq!(c.single(), Ok("auto".to_string()));
    assert!(c.rewind());
    assert_eq!(c.single(), Ok("auto".to_string()));
    assert_eq!(c.rest(), "hello world");
    assert_eq!(c.rest(), "hello world");
    assert_eq!(c.len(), 2);
    assert!(!c.is_empty());
}

#[test]
fn second_rewind_does_not_move() {
    let mut c = ArgumentCursor::new("one two three");
    assert!(!c.rewind());
    assert_eq!(c.single(), Ok("one".to_string()));
    assert_eq!(c.single(), Ok("two".to_string()));
    assert!(c.rewind());
    assert!(!c.rewind());
    assert_eq!(c.rest(), "two three");
    assert_eq!(c.single(), Ok("two".to_string()));
}

#[test]
fn empty_text_has_no_tokens() {
    let mut c = ArgumentCursor::new("");
    assert!(c.is_empty());
    assert_eq!(c.len(), 0);
    assert_eq!(c.rest(), "");
    assert_eq!(c.single(), Err(ParseError::Missing));
    let mut blank = ArgumentCursor::new(" \t \n");
    assert!(blank.is_empty());
    assert_eq!(blank.len(), 0);
    assert_eq!(blank.single(), Err(ParseError::Missing));
}

#[test]
fn white_space_collapses() {
    let mut c = ArgumentCursor::new("  alpha \t  beta\u{3000}gamma  ");
    assert_eq!(c.len(), 3);
    assert_eq!(c.rest(), "alpha \t  beta\u{3000}gamma");
    assert_eq!(c.single(), Ok("alpha".to_string()));
    assert_eq!(c.rest(), "beta\u{3000}gamma");
    assert_eq!(c.single(), Ok("beta".to_string()));
    assert_eq!(c.single(), Ok("gamma".to_string()));
    assert!(c.is_empty());
    assert_eq!(c.rest(), "");
    assert_eq!(c.message(), "  alpha \t  beta\u{3000}gamma  ");
}

#[test]
fn integers_are_read_or_left() {
    let mut c = ArgumentCursor::new("42 -7 +9 x1 9223372036854775808 -9223372036854775808");
    assert_eq!(c.single_int(), Ok(42));
    assert_eq!(c.single_int(), Ok(-7));
    assert_eq!(c.single_int(), Ok(9));
    assert_eq!(c.single_int(), Err(ParseError::Invalid));
    assert_eq!(c.single(), Ok("x1".to_string()));
    assert_eq!(c.single_int(), Err(ParseError::Invalid));
    assert_eq!(c.single(), Ok("9223372036854775808".to_string()));
    assert_eq!(c.single_int(), Ok(i64::MIN));
    assert_eq!(c.single_int(), Err(ParseError::Missing));
}
