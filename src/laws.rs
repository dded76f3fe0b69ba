use vstd::prelude::*;
use crate::access::{
    access_classified, access_json, access_outcome_wire, access_route, access_wire, Access,
    AccessRequest, AccessResponse, AccessRoute,
};
use crate::body::Body;
use crate::decimal::{
    all_digits, digit_char, digit_value, digits_value, i64_of, int_text, is_digit, nat_text,
    signed_value,
};
use crate::error::{not_found_error, store_kind, StoreError, WebdevError};
use crate::route::{has_percent, id_segment, one_id, segment_text, slash_from};
use crate::search::{apply_pair, lemma_failed_prefix, search_of};
use crate::user_access::{
    has_access, user_access_route, user_access_wire, UserAccess, UserAccessResponse, UserAccessRoute,
};
use crate::wire::{error_wire, BodyKind};

verus! {

proof fn lemma_digit_char(d: nat)
    requires
        d < 10,
    ensures
        is_digit(digit_char(d)),
        digit_value(digit_char(d)) == d,
{
}

proof fn lemma_nat_text(m: nat)
    ensures
        nat_text(m).len() > 0,
        all_digits(nat_text(m)),
        digits_value(nat_text(m)) == m,
    decreases m,
{
    let s = nat_text(m);
    if m < 10 {
        lemma_digit_char(m);
        assert(s.drop_last() =~= Seq::<char>::empty());
        assert(digits_value(s.drop_last()) == 0);
        assert(s.last() == digit_char(m));
    } else {
        lemma_nat_text(m / 10);
        lemma_digit_char(m % 10);
        let t = nat_text(m / 10);
        assert(s.drop_last() =~= t);
        assert(s.last() == digit_char(m % 10));
        assert(digits_value(s) == digits_value(t) * 10 + digit_value(s.last()));
        assert((m / 10) * 10 + m % 10 == m);
        assert forall|i: int| 0 <= i < s.len() implies is_digit(#[trigger] s[i]) by {
            if i < t.len() {
                assert(s[i] == t[i]);
            }
        }
    }
}

/// Every character of a number written in decimal is a digit or `-`.
proof fn lemma_int_text_chars(n: int)
    ensures
        int_text(n).len() > 0,
        forall|i: int|
            0 <= i < int_text(n).len() ==> is_digit(#[trigger] int_text(n)[i]) || int_text(n)[i]
                == '-',
{
    if n < 0 {
        lemma_nat_text((-n) as nat);
        let t = nat_text((-n) as nat);
        assert forall|i: int| 0 <= i < int_text(n).len() implies is_digit(#[trigger] int_text(n)[i])
            || int_text(n)[i] == '-' by {
            if i > 0 {
                assert(int_text(n)[i] == t[i - 1]);
            }
        }
    } else {
        lemma_nat_text(n as nat);
    }
}

/// Reading back an `i64` written in decimal gives the same number.
pub proof fn law_decimal_round_trip(n: i64)
    ensures
        i64_of(int_text(n as int)) == Some(n),
{
    let s = int_text(n as int);
    if n < 0 {
        let t = nat_text((-n) as nat);
        lemma_nat_text((-n) as nat);
        assert(s.drop_first() =~= t);
        assert(signed_value(s) == Some(n as int));
    } else {
        lemma_nat_text(n as nat);
        let t = nat_text(n as nat);
        assert(is_digit(t[0]));
    }
}

proof fn lemma_slash_from_at(s: Seq<char>, i: int, k: int)
    requires
        0 <= i <= k <= s.len(),
        k == s.len() || s[k] == '/',
        forall|j: int| i <= j < k ==> s[j] != '/',
    ensures
        slash_from(s, i) == k,
    decreases k - i,
{
    if i < k {
        lemma_slash_from_at(s, i + 1, k);
    }
}

/// `/{id}` written in decimal, followed by a rest that starts a new segment
/// or is empty, reads back as that id and that rest.
proof fn lemma_id_segment(id: i64, tail: Seq<char>)
    requires
        tail.len() == 0 || tail[0] == '/',
    ensures
        id_segment("/"@ + int_text(id as int) + tail) == Some((id, tail)),
{
    reveal_strlit("/");
    let t = int_text(id as int);
    let url = "/"@ + t + tail;
    lemma_int_text_chars(id as int);
    law_decimal_round_trip(id);
    assert forall|j: int| 1 <= j < 1 + t.len() as int implies url[j] != '/' by {
        assert(url[j] == t[j - 1]);
    }
    lemma_slash_from_at(url, 1, 1 + t.len() as int);
    assert(url.subrange(1, 1 + t.len() as int) =~= t);
    assert(!has_percent(t)) by {
        if has_percent(t) {
            let i = choose|i: int| 0 <= i < t.len() && t[i] == '%';
            assert(is_digit(t[i]) || t[i] == '-');
        }
    }
    assert(segment_text(t) == t);
    assert(url.subrange(1 + t.len() as int, url.len() as int) =~= tail);
}

proof fn lemma_one_id(id: i64)
    ensures
        one_id("/"@ + int_text(id as int)) == Some(id),
{
    lemma_id_segment(id, Seq::empty());
    assert("/"@ + int_text(id as int) + Seq::<char>::empty() =~= "/"@ + int_text(id as int));
}

proof fn lemma_methods_differ()
    ensures
        "GET"@ != "POST"@,
        "DELETE"@ != "GET"@,
        "DELETE"@ != "POST"@,
{
    reveal_strlit("GET");
    reveal_strlit("POST");
    reveal_strlit("DELETE");
    assert("GET"@.len() == 3);
    assert("POST"@.len() == 4);
    assert("DELETE"@.len() == 6);
}

/// `GET /{id}` on access levels leads to the lookup of that id, and a found
/// access level is answered with status 200 and its JSON.
pub proof fn law_get_access(id: i64, a: Access)
    ensures
        access_route("GET"@, "/"@ + int_text(id as int)) == AccessRoute::Get(id),
        access_wire(AccessResponse::OneAccess(a)) == (200u16, BodyKind::Json, access_json(a)),
{
    lemma_one_id(id);
}

/// When the store finds no row for the targeted id, the outcome is a
/// not-found failure, answered with status 404, on either resource.
pub proof fn law_missing_row_not_found(
    a: Result<AccessResponse, WebdevError>,
    g: Result<UserAccessResponse, WebdevError>,
)
    requires
        a == Err::<AccessResponse, WebdevError>(WebdevError { kind: store_kind(StoreError::NotFound) }),
        g == Err::<UserAccessResponse, WebdevError>(
            WebdevError { kind: store_kind(StoreError::NotFound) },
        ),
    ensures
        a == Err::<AccessResponse, WebdevError>(not_found_error()),
        g == Err::<UserAccessResponse, WebdevError>(not_found_error()),
        access_outcome_wire(a).0 == 404,
        error_wire(not_found_error()).0 == 404,
{
}

/// A search whose query holds a key other than `access_id`, `user_id` and
/// `permission_level` fails, whatever the other pairs hold.
pub proof fn law_unknown_key_fails(pairs: Seq<(Seq<char>, Seq<char>)>, k: int)
    requires
        0 <= k < pairs.len(),
        pairs[k].0 != "access_id"@,
        pairs[k].0 != "user_id"@,
        pairs[k].0 != "permission_level"@,
    ensures
        search_of(pairs) is None,
{
    let p = pairs.subrange(0, k + 1);
    assert(p.drop_last() =~= pairs.subrange(0, k));
    assert(p.last() == pairs[k]);
    match search_of(pairs.subrange(0, k)) {
        Some(s) => {
            assert(apply_pair(s, pairs[k].0, pairs[k].1) is None);
        },
        None => {},
    }
    lemma_failed_prefix(pairs, k + 1);
}

/// `GET /{user_id}/{access_id}` on grants leads to the check of that pair,
/// and when no grant holds the pair the answer is the plain text `false`
/// with status 200.
pub proof fn law_check_absent_reads_false(grants: Seq<UserAccess>, u: i64, a: i64)
    requires
        !has_access(grants, u, a),
    ensures
        user_access_route("GET"@, "/"@ + int_text(u as int) + "/"@ + int_text(a as int))
            == UserAccessRoute::Check(u, a),
        user_access_wire(UserAccessResponse::AccessState(has_access(grants, u, a))) == (
            200u16,
            BodyKind::Text,
            "false"@,
        ),
{
    reveal_strlit("/");
    let tail = "/"@ + int_text(a as int);
    lemma_id_segment(u, tail);
    lemma_one_id(a);
    let path = "/"@ + int_text(u as int) + tail;
    assert("/"@ + int_text(u as int) + "/"@ + int_text(a as int) =~= path);
    assert(path.len() > 1);
}

/// `DELETE /{id}` leads to the deletion of that id on either resource.
pub proof fn law_delete_routes(id: i64)
    ensures
        access_route("DELETE"@, "/"@ + int_text(id as int)) == AccessRoute::Delete(id),
        user_access_route("DELETE"@, "/"@ + int_text(id as int)) == UserAccessRoute::Delete(id),
{
    lemma_one_id(id);
    lemma_methods_differ();
}

/// A `GET` on access levels classifies and is answered the same way each
/// time: two results that meet the contracts for the same request and the
/// same store answer are equal, byte for byte.
pub proof fn law_get_repeatable(
    path: Seq<char>,
    body: Body,
    r1: Result<AccessRequest, WebdevError>,
    r2: Result<AccessRequest, WebdevError>,
    o: Result<AccessResponse, WebdevError>,
    w1: (u16, BodyKind, Seq<char>),
    w2: (u16, BodyKind, Seq<char>),
)
    requires
        access_classified("GET"@, path, body, r1),
        access_classified("GET"@, path, body, r2),
        w1 == access_outcome_wire(o),
        w2 == access_outcome_wire(o),
    ensures
        r1 == r2,
        w1 == w2,
{
    lemma_methods_differ();
}

} // verus!
