use vstd::prelude::*;
use crate::body::{fields_of, opt_view, Body};
use crate::decimal::{int_text, push_i64};
use crate::error::{
    format_error, not_found_error, store_kind, StoreError, WebdevError, WebdevErrorKind,
};
use crate::outside::{form_pairs, query_pairs};
use crate::route::{match_one_id, match_two_ids, one_id, two_ids};
use crate::search::{pairs_view, search_of, SearchUserAccess};
use crate::text::str_eq;
use crate::wire::{
    bool_response, bool_wire, error_wire, json_opt_str, json_response, json_wire, no_content,
    no_content_wire, push_json_opt_str, BodyKind, WireResponse,
};

verus! {

/// A grant: a user holds an access level, at a permission level or none.
#[derive(Debug)]
pub struct UserAccess {
    pub permission_id: i64,
    pub access_id: i64,
    pub user_id: i64,
    pub permission_level: Option<String>,
}

/// A grant to create; the store picks its id.
#[derive(Debug)]
pub struct NewUserAccess {
    pub access_id: i64,
    pub user_id: i64,
    pub permission_level: Option<String>,
}

/// New values for a grant. `permission_level` is `None` when the body left
/// it out, `Some(None)` when the body set it to null.
#[derive(Debug)]
pub struct PartialUserAccess {
    pub access_id: i64,
    pub user_id: i64,
    pub permission_level: Option<Option<String>>,
}

/// An operation on grants.
#[derive(Debug)]
pub enum UserAccessRequest {
    SearchAccess(SearchUserAccess),
    CheckAccess(i64, i64),
    CreateAccess(NewUserAccess),
    UpdateAccess(i64, PartialUserAccess),
    DeleteAccess(i64),
}

/// The result of an operation on grants.
#[derive(Debug)]
pub enum UserAccessResponse {
    ManyUsers(Vec<UserAccess>),
    AccessState(bool),
    OneUserAccess(UserAccess),
    NoResponse,
}

/// Where a method and path lead among the grant routes.
pub enum UserAccessRoute {
    Search,
    Check(i64, i64),
    Create,
    Update(i64),
    Delete(i64),
    Unmatched,
}

/// The routes, tried in order: `GET /`, `GET /{user_id}/{access_id}`,
/// `POST /`, `POST /{id}`, `DELETE /{id}`; anything else matches none.
pub open spec fn user_access_route(method: Seq<char>, path: Seq<char>) -> UserAccessRoute {
    if method == "GET"@ && path == "/"@ {
        UserAccessRoute::Search
    } else if method == "GET"@ && two_ids(path) is Some {
        UserAccessRoute::Check(two_ids(path).unwrap().0, two_ids(path).unwrap().1)
    } else if method == "POST"@ && path == "/"@ {
        UserAccessRoute::Create
    } else if method == "POST"@ && one_id(path) is Some {
        UserAccessRoute::Update(one_id(path).unwrap())
    } else if method == "DELETE"@ && one_id(path) is Some {
        UserAccessRoute::Delete(one_id(path).unwrap())
    } else {
        UserAccessRoute::Unmatched
    }
}

/// The access and user ids of a body, when it decoded and holds both.
pub open spec fn body_ids(b: Body) -> Option<(i64, i64)> {
    match fields_of(b) {
        Some(f) => match (f.access_id, f.user_id) {
            (Some(a), Some(u)) => Some((a, u)),
            _ => None,
        },
        None => None,
    }
}

/// Whether `r` is what a request classifies to, given the pairs that its
/// query string decodes to.
pub open spec fn user_access_classified(
    method: Seq<char>,
    path: Seq<char>,
    pairs: Seq<(Seq<char>, Seq<char>)>,
    body: Body,
    r: Result<UserAccessRequest, WebdevError>,
) -> bool {
    match user_access_route(method, path) {
        UserAccessRoute::Search => match search_of(pairs) {
            Some(v) => r matches Ok(UserAccessRequest::SearchAccess(s)) && s@ == v,
            None => r == Err::<UserAccessRequest, WebdevError>(format_error()),
        },
        UserAccessRoute::Check(u, a) => r == Ok::<UserAccessRequest, WebdevError>(
            UserAccessRequest::CheckAccess(u, a),
        ),
        UserAccessRoute::Create => match body_ids(body) {
            Some((a, u)) => r matches Ok(UserAccessRequest::CreateAccess(n)) && n.access_id == a
                && n.user_id == u && opt_view(n.permission_level) == match fields_of(
                body,
            ).unwrap().permission_level {
                Some(Some(p)) => Some(p@),
                _ => None,
            },
            None => r == Err::<UserAccessRequest, WebdevError>(format_error()),
        },
        UserAccessRoute::Update(id) => match body_ids(body) {
            Some((a, u)) => r matches Ok(UserAccessRequest::UpdateAccess(i, p)) && i == id
                && p.access_id == a && p.user_id == u && match (
                p.permission_level,
                fields_of(body).unwrap().permission_level,
            ) {
                (None, None) => true,
                (Some(x), Some(y)) => opt_view(x) == opt_view(y),
                _ => false,
            },
            None => r == Err::<UserAccessRequest, WebdevError>(format_error()),
        },
        UserAccessRoute::Delete(id) => r == Ok::<UserAccessRequest, WebdevError>(
            UserAccessRequest::DeleteAccess(id),
        ),
        UserAccessRoute::Unmatched => r == Err::<UserAccessRequest, WebdevError>(not_found_error()),
    }
}

/// Whether some grant gives this user this access level, at any permission level.
pub open spec fn has_access(grants: Seq<UserAccess>, user_id: i64, access_id: i64) -> bool {
    exists|i: int|
        0 <= i < grants.len() && (#[trigger] grants[i]).user_id == user_id && grants[i].access_id
            == access_id
}

/// A grant as JSON, fields in declaration order.
pub open spec fn user_access_json(g: UserAccess) -> Seq<char> {
    "{\"permission_id\":"@ + int_text(g.permission_id as int) + ",\"access_id\":"@ + int_text(
        g.access_id as int,
    ) + ",\"user_id\":"@ + int_text(g.user_id as int) + ",\"permission_level\":"@ + json_opt_str(
        opt_view(g.permission_level),
    ) + "}"@
}

/// Grants as the items of a JSON array, separated by commas.
pub open spec fn user_access_items(gs: Seq<UserAccess>) -> Seq<char>
    decreases gs.len(),
{
    if gs.len() == 0 {
        Seq::empty()
    } else if gs.len() == 1 {
        user_access_json(gs[0])
    } else {
        user_access_items(gs.drop_last()) + ","@ + user_access_json(gs.last())
    }
}

/// Grants as a JSON array, in the order given.
pub open spec fn user_access_list_json(gs: Seq<UserAccess>) -> Seq<char> {
    "["@ + user_access_items(gs) + "]"@
}

/// The response that an outcome is sent as.
pub open spec fn user_access_wire(r: UserAccessResponse) -> (u16, BodyKind, Seq<char>) {
    match r {
        UserAccessResponse::ManyUsers(gs) => json_wire(user_access_list_json(gs@)),
        UserAccessResponse::AccessState(b) => bool_wire(b),
        UserAccessResponse::OneUserAccess(g) => json_wire(user_access_json(g)),
        UserAccessResponse::NoResponse => no_content_wire(),
    }
}

/// The response for an outcome or a failure.
pub open spec fn user_access_outcome_wire(o: Result<UserAccessResponse, WebdevError>) -> (
    u16,
    BodyKind,
    Seq<char>,
) {
    match o {
        Ok(r) => user_access_wire(r),
        Err(e) => error_wire(e),
    }
}

fn clone_opt(s: &Option<String>) -> (r: Option<String>)
    ensures
        opt_view(r) == opt_view(*s),
{
    match s {
        Some(t) => Some(t.clone()),
        None => None,
    }
}

impl UserAccessRequest {
    /// Classifies a request on grants, given the pairs that its query string
    /// decodes to.
    pub fn classify_with_pairs(
        method: &str,
        path: &str,
        pairs: &Vec<(String, String)>,
        body: &Body,
    ) -> (r: Result<UserAccessRequest, WebdevError>)
        ensures
            user_access_classified(method@, path@, pairs_view(pairs@), *body, r),
    {
        let get = str_eq(method, "GET");
        let post = str_eq(method, "POST");
        let root = str_eq(path, "/");
        let id = match_one_id(path);
        let ids = match_two_ids(path);
        if get && root {
            match SearchUserAccess::from_pairs(pairs) {
                Ok(s) => Ok(UserAccessRequest::SearchAccess(s)),
                Err(e) => Err(e),
            }
        } else if get && ids.is_some() {
            let (u, a) = ids.unwrap();
            Ok(UserAccessRequest::CheckAccess(u, a))
        } else if post && (root || id.is_some()) {
            let f = match body {
                Body::Fields(f) => f,
                _ => {
                    return Err(WebdevError::new(WebdevErrorKind::Format));
                },
            };
            if f.access_id.is_none() || f.user_id.is_none() {
                return Err(WebdevError::new(WebdevErrorKind::Format));
            }
            let a = f.access_id.unwrap();
            let u = f.user_id.unwrap();
            if root {
                let level = match &f.permission_level {
                    Some(p) => clone_opt(p),
                    None => None,
                };
                Ok(
                    UserAccessRequest::CreateAccess(
                        NewUserAccess { access_id: a, user_id: u, permission_level: level },
                    ),
                )
            } else {
                let level = match &f.permission_level {
                    Some(p) => Some(clone_opt(p)),
                    None => None,
                };
                Ok(
                    UserAccessRequest::UpdateAccess(
                        id.unwrap(),
                        PartialUserAccess { access_id: a, user_id: u, permission_level: level },
                    ),
                )
            }
        } else if str_eq(method, "DELETE") && id.is_some() {
            Ok(UserAccessRequest::DeleteAccess(id.unwrap()))
        } else {
            Err(WebdevError::new(WebdevErrorKind::NotFound))
        }
    }

    /// Classifies a request on grants into one operation; `query` is the raw
    /// query string, read only by the search route.
    pub fn classify(method: &str, path: &str, query: &str, body: &Body) -> (r: Result<
        UserAccessRequest,
        WebdevError,
    >)
        ensures
            user_access_classified(method@, path@, form_pairs(query@), *body, r),
    {
        let pairs = query_pairs(query);
        assert(pairs_view(pairs@) =~= form_pairs(query@));
        UserAccessRequest::classify_with_pairs(method, path, &pairs, body)
    }
}

impl UserAccess {
    /// Whether some grant gives this user this access level, whatever its
    /// permission level; no such grant is `false`, not a failure.
    pub fn check_access(grants: &Vec<UserAccess>, user_id: i64, access_id: i64) -> (r: bool)
        ensures
            r == has_access(grants@, user_id, access_id),
    {
        let mut i: usize = 0;
        while i < grants.len()
            invariant
                i <= grants@.len(),
                forall|k: int|
                    0 <= k < i ==> !((#[trigger] grants@[k]).user_id == user_id
                        && grants@[k].access_id == access_id),
            decreases grants@.len() - i,
        {
            if grants[i].user_id == user_id && grants[i].access_id == access_id {
                return true;
            }
            i = i + 1;
        }
        false
    }

    /// This grant as JSON.
    pub fn to_json(&self) -> (r: String)
        ensures
            r@ == user_access_json(*self),
    {
        let mut out = String::new();
        out.append("{\"permission_id\":");
        push_i64(&mut out, self.permission_id);
        out.append(",\"access_id\":");
        push_i64(&mut out, self.access_id);
        out.append(",\"user_id\":");
        push_i64(&mut out, self.user_id);
        out.append(",\"permission_level\":");
        push_json_opt_str(&mut out, &self.permission_level);
        out.append("}");
        out
    }

    /// Grants as a JSON array, in the order given.
    pub fn list_to_json(gs: &Vec<UserAccess>) -> (r: String)
        ensures
            r@ == user_access_list_json(gs@),
    {
        let mut out = String::new();
        out.append("[");
        let mut i: usize = 0;
        while i < gs.len()
            invariant
                i <= gs@.len(),
                out@ == "["@ + user_access_items(gs@.subrange(0, i as int)),
            decreases gs@.len() - i,
        {
            let ghost pre = gs@.subrange(0, i as int);
            let ghost cur = gs@.subrange(0, i + 1);
            proof {
                assert(cur.drop_last() =~= pre);
            }
            if i > 0 {
                out.append(",");
            }
            let item = gs[i].to_json();
            out.append(item.as_str());
            proof {
                if i == 0 {
                    assert(user_access_items(pre) =~= Seq::<char>::empty());
                }
            }
            assert(out@ =~= "["@ + user_access_items(cur));
            i = i + 1;
        }
        assert(gs@.subrange(0, gs@.len() as int) =~= gs@);
        out.append("]");
        out
    }
}

impl UserAccessResponse {
    /// The outcome of an operation that yields one grant.
    pub fn from_store_entity(r: Result<UserAccess, StoreError>) -> (o: Result<
        UserAccessResponse,
        WebdevError,
    >)
        ensures
            match r {
                Ok(g) => o matches Ok(UserAccessResponse::OneUserAccess(h)) && h == g,
                Err(e) => o == Err::<UserAccessResponse, WebdevError>(
                    WebdevError { kind: store_kind(e) },
                ),
            },
    {
        match r {
            Ok(g) => Ok(UserAccessResponse::OneUserAccess(g)),
            Err(e) => Err(WebdevError::from_store(e)),
        }
    }

    /// The outcome of a search, in the order the store gave.
    pub fn from_store_list(r: Result<Vec<UserAccess>, StoreError>) -> (o: Result<
        UserAccessResponse,
        WebdevError,
    >)
        ensures
            match r {
                Ok(gs) => o matches Ok(UserAccessResponse::ManyUsers(hs)) && hs@ == gs@,
                Err(e) => o == Err::<UserAccessResponse, WebdevError>(
                    WebdevError { kind: store_kind(e) },
                ),
            },
    {
        match r {
            Ok(gs) => Ok(UserAccessResponse::ManyUsers(gs)),
            Err(e) => Err(WebdevError::from_store(e)),
        }
    }

    /// The outcome of an access check.
    pub fn from_store_check(r: Result<bool, StoreError>) -> (o: Result<
        UserAccessResponse,
        WebdevError,
    >)
        ensures
            match r {
                Ok(b) => o matches Ok(UserAccessResponse::AccessState(c)) && c == b,
                Err(e) => o == Err::<UserAccessResponse, WebdevError>(
                    WebdevError { kind: store_kind(e) },
                ),
            },
    {
        match r {
            Ok(b) => Ok(UserAccessResponse::AccessState(b)),
            Err(e) => Err(WebdevError::from_store(e)),
        }
    }

    /// The outcome of an operation that yields nothing.
    pub fn from_store_unit(r: Result<(), StoreError>) -> (o: Result<
        UserAccessResponse,
        WebdevError,
    >)
        ensures
            match r {
                Ok(_) => o matches Ok(UserAccessResponse::NoResponse),
                Err(e) => o == Err::<UserAccessResponse, WebdevError>(
                    WebdevError { kind: store_kind(e) },
                ),
            },
    {
        match r {
            Ok(_) => Ok(UserAccessResponse::NoResponse),
            Err(e) => Err(WebdevError::from_store(e)),
        }
    }

    /// The response that this outcome is sent as.
    pub fn encode(&self) -> (r: WireResponse)
        ensures
            r@ == user_access_wire(*self),
    {
        match self {
            UserAccessResponse::ManyUsers(gs) => json_response(UserAccess::list_to_json(gs)),
            UserAccessResponse::AccessState(b) => bool_response(*b),
            UserAccessResponse::OneUserAccess(g) => json_response(g.to_json()),
            UserAccessResponse::NoResponse => no_content(),
        }
    }

    /// The response for an outcome or a failure.
    pub fn respond(o: &Result<UserAccessResponse, WebdevError>) -> (r: WireResponse)
        ensures
            r@ == user_access_outcome_wire(*o),
    {
        match o {
            Ok(a) => a.encode(),
            Err(e) => e.encode(),
        }
    }
}

} // verus!
