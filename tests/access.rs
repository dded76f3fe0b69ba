use webdev_access::access::{Access, AccessRequest, AccessResponse};
use webdev_access::body::{Body, BodyFields};
use webdev_access::error::{StoreError, WebdevErrorKind};
use webdev_access::wire::BodyKind;

fn name_body(name: &str) -> Body {
    Body::Fields(BodyFields {
        access_name: Some(name.to_string()),
        access_id: None,
        user_id: None,
        permission_level: None,
    })
}

#[test]
fn get_by_id_classifies_to_lookup() {
    let r = AccessRequest::classify("GET", "/7", &Body::Absent);
    assert!(matches!(r, Ok(AccessRequest::GetAccess(7))));
}

#[test]
fn get_by_percent_encoded_id() {
    let r = AccessRequest::classify("GET", "/%34%32", &Body::Absent);
    assert!(matches!(r, Ok(AccessRequest::GetAccess(42))));
}

#[test]
fn get_found_encodes_json() {
    let a = Access { id: 1, access_name: "admin".to_string() };
    let w = AccessResponse::OneAccess(a).encode();
    assert_eq!(w.status, 200);
    assert_eq!(w.kind, BodyKind::Json);
    assert_eq!(w.body, "{\"id\":1,\"access_name\":\"admin\"}");
}

#[test]
fn json_escapes_access_name() {
    let a = Access { id: -3, access_name: "a\"b\\c".to_string() };
    assert_eq!(a.to_json(), "{\"id\":-3,\"access_name\":\"a\\\"b\\\\c\"}");
}

#[test]
fn post_root_with_name_creates() {
    let r = AccessRequest::classify("POST", "/", &name_body("admin"));
    match r {
        Ok(AccessRequest::CreateAccess(n)) => assert_eq!(n.access_name, "admin"),
        _ => panic!("expected a create"),
    }
}

#[test]
fn post_id_with_name_updates() {
    let r = AccessRequest::classify("POST", "/9", &name_body("staff"));
    match r {
        Ok(AccessRequest::UpdateAccess(9, p)) => assert_eq!(p.access_name, "staff"),
        _ => panic!("expected an update"),
    }
}

#[test]
fn post_without_body_is_format() {
    let r = AccessRequest::classify("POST", "/", &Body::Absent);
    assert_eq!(r.unwrap_err().kind, WebdevErrorKind::Format);
}

#[test]
fn post_with_malformed_body_is_format() {
    let r = AccessRequest::classify("POST", "/4", &Body::Malformed);
    assert_eq!(r.unwrap_err().kind, WebdevErrorKind::Format);
}

#[test]
fn post_without_name_is_format() {
    let body = Body::Fields(BodyFields {
        access_name: None,
        access_id: Some(1),
        user_id: None,
        permission_level: None,
    });
    let r = AccessRequest::classify("POST", "/", &body);
    assert_eq!(r.unwrap_err().kind, WebdevErrorKind::Format);
}

#[test]
fn delete_access_by_id() {
    let r = AccessRequest::classify("DELETE", "/42", &Body::Absent);
    assert!(matches!(r, Ok(AccessRequest::DeleteAccess(42))));
}

#[test]
fn unknown_routes_are_not_found() {
    for (m, p) in [("PUT", "/1"), ("GET", "/abc"), ("GET", "/5/"), ("GET", "/"), ("DELETE", "/"), ("get", "/1"), ("GET", "/1/2")] {
        let r = AccessRequest::classify(m, p, &Body::Absent);
        assert_eq!(r.unwrap_err().kind, WebdevErrorKind::NotFound, "{} {}", m, p);
    }
}

#[test]
fn id_out_of_range_is_not_found() {
    let r = AccessRequest::classify("GET", "/9223372036854775808", &Body::Absent);
    assert_eq!(r.unwrap_err().kind, WebdevErrorKind::NotFound);
    let r = AccessRequest::classify("GET", "/-9223372036854775808", &Body::Absent);
    assert!(matches!(r, Ok(AccessRequest::GetAccess(i64::MIN))));
}

#[test]
fn missing_row_is_not_found() {
    let o = AccessResponse::from_store_entity(Err(StoreError::NotFound));
    let w = AccessResponse::respond(&o);
    assert_eq!(w.status, 404);
    assert_eq!(w.kind, BodyKind::Empty);
    assert_eq!(w.body, "");
}

#[test]
fn delete_missing_row_is_not_found() {
    let o = AccessResponse::from_store_unit(Err(StoreError::NotFound));
    assert_eq!(o.unwrap_err().kind, WebdevErrorKind::NotFound);
}

#[test]
fn store_failure_is_internal() {
    let o = AccessResponse::from_store_unit(Err(StoreError::Failure));
    let w = AccessResponse::respond(&o);
    assert_eq!(w.status, 500);
}

#[test]
fn no_content_is_204() {
    let w = AccessResponse::respond(&AccessResponse::from_store_unit(Ok(())));
    assert_eq!(w.status, 204);
    assert_eq!(w.kind, BodyKind::Empty);
    assert_eq!(w.body, "");
}

#[test]
fn repeated_get_is_byte_identical() {
    let run = || {
        let r = AccessRequest::classify("GET", "/12", &Body::Absent);
        assert!(matches!(r, Ok(AccessRequest::GetAccess(12))));
        let o = AccessResponse::from_store_entity(Ok(Access { id: 12, access_name: "ops".to_string() }));
        AccessResponse::respond(&o)
    };
    let a = run();
    let b = run();
    assert_eq!(a.status, b.status);
    assert_eq!(a.kind, b.kind);
    assert_eq!(a.body, b.body);
}
