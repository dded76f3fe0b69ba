use webdev_access::decimal::{parse_i64, push_i64};
use webdev_access::error::{StoreError, WebdevError, WebdevErrorKind};
use webdev_access::search::{NullableSearch, Search};

#[test]
fn parses_signed_decimals() {
    assert_eq!(parse_i64("42"), Some(42));
    assert_eq!(parse_i64("+7"), Some(7));
    assert_eq!(parse_i64("-0"), Some(0));
    assert_eq!(parse_i64("9223372036854775807"), Some(i64::MAX));
    assert_eq!(parse_i64("-9223372036854775808"), Some(i64::MIN));
}

#[test]
fn rejects_malformed_decimals() {
    for s in ["", "-", "+", "4a", " 4", "9223372036854775808", "-9223372036854775809", "1.0", "99999999999999999999999"] {
        assert_eq!(parse_i64(s), None, "{}", s);
    }
}

#[test]
fn writes_decimals() {
    for n in [0i64, 7, -7, 120, i64::MAX, i64::MIN] {
        let mut s = String::from("x");
        push_i64(&mut s, n);
        assert_eq!(s, format!("x{}", n));
    }
}

#[test]
fn integer_filter_parses_or_fails() {
    assert!(matches!(Search::<i64>::from_query("15"), Ok(Search::Exact(15))));
    assert_eq!(Search::<i64>::from_query("fifteen").unwrap_err().kind, WebdevErrorKind::Format);
}

#[test]
fn text_filter_reads_null_word() {
    assert!(matches!(NullableSearch::<String>::from_query("null"), Ok(NullableSearch::Null)));
    match NullableSearch::<String>::from_query("Null") {
        Ok(NullableSearch::Exact(t)) => assert_eq!(t, "Null"),
        _ => panic!("expected an exact filter"),
    }
}

#[test]
fn error_statuses() {
    assert_eq!(WebdevError::new(WebdevErrorKind::Format).status(), 400);
    assert_eq!(WebdevError::new(WebdevErrorKind::NotFound).status(), 404);
    assert_eq!(WebdevError::new(WebdevErrorKind::Internal).encode().status, 500);
    assert_eq!(WebdevError::from_store(StoreError::NotFound).kind, WebdevErrorKind::NotFound);
    assert_eq!(WebdevError::from_store(StoreError::Failure).kind, WebdevErrorKind::Internal);
}
