use webdev_access::body::{Body, BodyFields};
use webdev_access::error::{StoreError, WebdevErrorKind};
use webdev_access::search::{NullableSearch, Search, SearchUserAccess};
use webdev_access::user_access::{UserAccess, UserAccessRequest, UserAccessResponse};
use webdev_access::wire::BodyKind;

fn grant_body(access_id: Option<i64>, user_id: Option<i64>, level: Option<Option<&str>>) -> Body {
    Body::Fields(BodyFields {
        access_name: None,
        access_id,
        user_id,
        permission_level: level.map(|l| l.map(|s| s.to_string())),
    })
}

fn grant(id: i64, access_id: i64, user_id: i64, level: Option<&str>) -> UserAccess {
    UserAccess {
        permission_id: id,
        access_id,
        user_id,
        permission_level: level.map(|s| s.to_string()),
    }
}

#[test]
fn search_with_unknown_key_is_format() {
    let r = UserAccessRequest::classify("GET", "/", "access_id=5&bogus=1", &Body::Absent);
    assert_eq!(r.unwrap_err().kind, WebdevErrorKind::Format);
}

#[test]
fn search_with_bad_number_is_format() {
    let r = UserAccessRequest::classify("GET", "/", "user_id=x", &Body::Absent);
    assert_eq!(r.unwrap_err().kind, WebdevErrorKind::Format);
}

#[test]
fn search_without_query_has_no_filters() {
    let r = UserAccessRequest::classify("GET", "/", "", &Body::Absent);
    match r {
        Ok(UserAccessRequest::SearchAccess(s)) => {
            assert!(matches!(s.access_id, Search::NoSearch));
            assert!(matches!(s.user_id, Search::NoSearch));
            assert!(matches!(s.permission_level, NullableSearch::NoSearch));
        }
        _ => panic!("expected a search"),
    }
}

#[test]
fn search_reads_each_filter() {
    let r = UserAccessRequest::classify("GET", "/", "access_id=5&user_id=-2&permission_level=null", &Body::Absent);
    match r {
        Ok(UserAccessRequest::SearchAccess(s)) => {
            assert!(matches!(s.access_id, Search::Exact(5)));
            assert!(matches!(s.user_id, Search::Exact(-2)));
            assert!(matches!(s.permission_level, NullableSearch::Null));
        }
        _ => panic!("expected a search"),
    }
}

#[test]
fn search_decodes_query_text() {
    let r = UserAccessRequest::classify("GET", "/", "permission_level=read+write%21&access_id=1&access_id=3", &Body::Absent);
    match r {
        Ok(UserAccessRequest::SearchAccess(s)) => {
            assert!(matches!(s.access_id, Search::Exact(3)));
            match s.permission_level {
                NullableSearch::Exact(t) => assert_eq!(t, "read write!"),
                _ => panic!("expected an exact filter"),
            }
        }
        _ => panic!("expected a search"),
    }
}

#[test]
fn search_from_pairs_rejects_unknown_key() {
    let pairs = vec![("access_id".to_string(), "5".to_string()), ("bogus".to_string(), "1".to_string())];
    assert_eq!(SearchUserAccess::from_pairs(&pairs).unwrap_err().kind, WebdevErrorKind::Format);
}

#[test]
fn check_route_classifies_pair() {
    let r = UserAccessRequest::classify("GET", "/7/3", "", &Body::Absent);
    assert!(matches!(r, Ok(UserAccessRequest::CheckAccess(7, 3))));
}

#[test]
fn check_without_grant_reads_false() {
    let rows = vec![grant(1, 3, 8, None), grant(2, 4, 7, Some("rw"))];
    let found = UserAccess::check_access(&rows, 7, 3);
    assert!(!found);
    let w = UserAccessResponse::AccessState(found).encode();
    assert_eq!(w.status, 200);
    assert_eq!(w.kind, BodyKind::Text);
    assert_eq!(w.body, "false");
}

#[test]
fn check_with_grant_reads_true() {
    let rows = vec![grant(1, 3, 8, None), grant(2, 3, 7, Some("rw"))];
    let found = UserAccess::check_access(&rows, 7, 3);
    assert!(found);
    let w = UserAccessResponse::respond(&UserAccessResponse::from_store_check(Ok(found)));
    assert_eq!(w.body, "true");
}

#[test]
fn create_grant_flattens_null_level() {
    let r = UserAccessRequest::classify("POST", "/", "", &grant_body(Some(3), Some(7), Some(None)));
    match r {
        Ok(UserAccessRequest::CreateAccess(n)) => {
            assert_eq!((n.access_id, n.user_id), (3, 7));
            assert!(n.permission_level.is_none());
        }
        _ => panic!("expected a create"),
    }
    let r = UserAccessRequest::classify("POST", "/", "", &grant_body(Some(3), Some(7), Some(Some("admin"))));
    match r {
        Ok(UserAccessRequest::CreateAccess(n)) => assert_eq!(n.permission_level.as_deref(), Some("admin")),
        _ => panic!("expected a create"),
    }
}

#[test]
fn update_grant_keeps_three_states() {
    for (level, expected) in [(None, None), (Some(None), Some(None)), (Some(Some("x")), Some(Some("x")))] {
        let r = UserAccessRequest::classify("POST", "/11", "", &grant_body(Some(1), Some(2), level));
        match r {
            Ok(UserAccessRequest::UpdateAccess(11, p)) => {
                assert_eq!((p.access_id, p.user_id), (1, 2));
                assert_eq!(p.permission_level.as_ref().map(|o| o.as_deref()), expected);
            }
            _ => panic!("expected an update"),
        }
    }
}

#[test]
fn create_grant_without_ids_is_format() {
    let r = UserAccessRequest::classify("POST", "/", "", &grant_body(Some(3), None, None));
    assert_eq!(r.unwrap_err().kind, WebdevErrorKind::Format);
    let r = UserAccessRequest::classify("POST", "/", "", &Body::Malformed);
    assert_eq!(r.unwrap_err().kind, WebdevErrorKind::Format);
}

#[test]
fn delete_grant_by_id() {
    let r = UserAccessRequest::classify("DELETE", "/42", "", &Body::Absent);
    assert!(matches!(r, Ok(UserAccessRequest::DeleteAccess(42))));
    let o = UserAccessResponse::from_store_unit(Err(StoreError::NotFound));
    assert_eq!(UserAccessResponse::respond(&o).status, 404);
}

#[test]
fn unknown_grant_routes_are_not_found() {
    for (m, p) in [("PATCH", "/1"), ("GET", "/1"), ("GET", "/1/2/3"), ("GET", "/a/2"), ("DELETE", "/1/2")] {
        let r = UserAccessRequest::classify(m, p, "", &Body::Absent);
        assert_eq!(r.unwrap_err().kind, WebdevErrorKind::NotFound, "{} {}", m, p);
    }
}

#[test]
fn grant_json_shapes() {
    assert_eq!(
        grant(1, 2, 3, None).to_json(),
        "{\"permission_id\":1,\"access_id\":2,\"user_id\":3,\"permission_level\":null}"
    );
    assert_eq!(
        grant(4, 5, 6, Some("r\nw")).to_json(),
        "{\"permission_id\":4,\"access_id\":5,\"user_id\":6,\"permission_level\":\"r\\nw\"}"
    );
}

#[test]
fn grant_list_is_json_array_in_order() {
    let w = UserAccessResponse::ManyUsers(vec![grant(2, 1, 1, None), grant(1, 1, 2, Some("a"))]).encode();
    assert_eq!(w.status, 200);
    assert_eq!(w.kind, BodyKind::Json);
    assert_eq!(
        w.body,
        "[{\"permission_id\":2,\"access_id\":1,\"user_id\":1,\"permission_level\":null},{\"permission_id\":1,\"access_id\":1,\"user_id\":2,\"permission_level\":\"a\"}]"
    );
    assert_eq!(UserAccessResponse::ManyUsers(vec![]).encode().body, "[]");
}

#[test]
fn one_grant_encodes_json() {
    let o = UserAccessResponse::from_store_entity(Ok(grant(9, 8, 7, None)));
    let w = UserAccessResponse::respond(&o);
    assert_eq!(w.status, 200);
    assert_eq!(w.body, "{\"permission_id\":9,\"access_id\":8,\"user_id\":7,\"permission_level\":null}");
}
