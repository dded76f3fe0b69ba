use vstd::prelude::*;
use crate::body::{fields_of, Body};
use crate::decimal::{int_text, push_i64};
use crate::error::{
    format_error, not_found_error, store_kind, StoreError, WebdevError, WebdevErrorKind,
};
use crate::outside::json_str;
use crate::route::{match_one_id, one_id};
use crate::text::str_eq;
use crate::wire::{
    error_wire, json_response, json_wire, no_content, no_content_wire, push_json_str, BodyKind,
    WireResponse,
};

verus! {

/// A named access level.
#[derive(Debug)]
pub struct Access {
    pub id: i64,
    pub access_name: String,
}

/// An access level to create; the store picks its id.
#[derive(Debug)]
pub struct NewAccess {
    pub access_name: String,
}

/// The new name of an access level.
#[derive(Debug)]
pub struct PartialAccess {
    pub access_name: String,
}

/// An operation on access levels.
#[derive(Debug)]
pub enum AccessRequest {
    GetAccess(i64),
    CreateAccess(NewAccess),
    UpdateAccess(i64, PartialAccess),
    DeleteAccess(i64),
}

/// The result of an operation on access levels.
#[derive(Debug)]
pub enum AccessResponse {
    OneAccess(Access),
    NoResponse,
}

/// Where a method and path lead among the access-level routes.
pub enum AccessRoute {
    Get(i64),
    Create,
    Update(i64),
    Delete(i64),
    Unmatched,
}

/// The routes, tried in order: `GET /{id}`, `POST /`, `POST /{id}`,
/// `DELETE /{id}`; anything else matches none.
pub open spec fn access_route(method: Seq<char>, path: Seq<char>) -> AccessRoute {
    if method == "GET"@ && one_id(path) is Some {
        AccessRoute::Get(one_id(path).unwrap())
    } else if method == "POST"@ && path == "/"@ {
        AccessRoute::Create
    } else if method == "POST"@ && one_id(path) is Some {
        AccessRoute::Update(one_id(path).unwrap())
    } else if method == "DELETE"@ && one_id(path) is Some {
        AccessRoute::Delete(one_id(path).unwrap())
    } else {
        AccessRoute::Unmatched
    }
}

/// The name that a create or update body carries, if it decoded and has one.
pub open spec fn body_access_name(b: Body) -> Option<Seq<char>> {
    match fields_of(b) {
        Some(f) => match f.access_name {
            Some(n) => Some(n@),
            None => None,
        },
        None => None,
    }
}

/// Whether `r` is what a request with this method, path and body classifies to.
pub open spec fn access_classified(
    method: Seq<char>,
    path: Seq<char>,
    body: Body,
    r: Result<AccessRequest, WebdevError>,
) -> bool {
    match access_route(method, path) {
        AccessRoute::Get(id) => r == Ok::<AccessRequest, WebdevError>(AccessRequest::GetAccess(id)),
        AccessRoute::Delete(id) => r == Ok::<AccessRequest, WebdevError>(
            AccessRequest::DeleteAccess(id),
        ),
        AccessRoute::Create => match body_access_name(body) {
            Some(n) => r matches Ok(AccessRequest::CreateAccess(c)) && c.access_name@ == n,
            None => r == Err::<AccessRequest, WebdevError>(format_error()),
        },
        AccessRoute::Update(id) => match body_access_name(body) {
            Some(n) => r matches Ok(AccessRequest::UpdateAccess(i, p)) && i == id
                && p.access_name@ == n,
            None => r == Err::<AccessRequest, WebdevError>(format_error()),
        },
        AccessRoute::Unmatched => r == Err::<AccessRequest, WebdevError>(not_found_error()),
    }
}

/// An access level as JSON: `{"id":..,"access_name":".."}`.
pub open spec fn access_json(a: Access) -> Seq<char> {
    "{\"id\":"@ + int_text(a.id as int) + ",\"access_name\":"@ + json_str(a.access_name@) + "}"@
}

/// The response that an outcome is sent as.
pub open spec fn access_wire(r: AccessResponse) -> (u16, BodyKind, Seq<char>) {
    match r {
        AccessResponse::OneAccess(a) => json_wire(access_json(a)),
        AccessResponse::NoResponse => no_content_wire(),
    }
}

/// The response for an outcome or a failure.
pub open spec fn access_outcome_wire(o: Result<AccessResponse, WebdevError>) -> (
    u16,
    BodyKind,
    Seq<char>,
) {
    match o {
        Ok(r) => access_wire(r),
        Err(e) => error_wire(e),
    }
}

fn body_name(body: &Body) -> (r: Option<String>)
    ensures
        match r {
            Some(n) => body_access_name(*body) == Some(n@),
            None => body_access_name(*body) is None,
        },
{
    match body {
        Body::Fields(f) => match &f.access_name {
            Some(n) => Some(n.clone()),
            None => None,
        },
        _ => None,
    }
}

impl AccessRequest {
    /// Classifies a request on access levels into one operation.
    pub fn classify(method: &str, path: &str, body: &Body) -> (r: Result<AccessRequest, WebdevError>)
        ensures
            access_classified(method@, path@, *body, r),
    {
        let id = match_one_id(path);
        if str_eq(method, "GET") && id.is_some() {
            Ok(AccessRequest::GetAccess(id.unwrap()))
        } else if str_eq(method, "POST") && str_eq(path, "/") {
            match body_name(body) {
                Some(n) => Ok(AccessRequest::CreateAccess(NewAccess { access_name: n })),
                None => Err(WebdevError::new(WebdevErrorKind::Format)),
            }
        } else if str_eq(method, "POST") && id.is_some() {
            match body_name(body) {
                Some(n) => Ok(
                    AccessRequest::UpdateAccess(id.unwrap(), PartialAccess { access_name: n }),
                ),
                None => Err(WebdevError::new(WebdevErrorKind::Format)),
            }
        } else if str_eq(method, "DELETE") && id.is_some() {
            Ok(AccessRequest::DeleteAccess(id.unwrap()))
        } else {
            Err(WebdevError::new(WebdevErrorKind::NotFound))
        }
    }
}

impl Access {
    /// This access level as JSON.
    pub fn to_json(&self) -> (r: String)
        ensures
            r@ == access_json(*self),
    {
        let mut out = String::new();
        out.append("{\"id\":");
        push_i64(&mut out, self.id);
        out.append(",\"access_name\":");
        push_json_str(&mut out, self.access_name.as_str());
        out.append("}");
        out
    }
}

impl AccessResponse {
    /// The outcome of a lookup, create or update that yields one access level.
    pub fn from_store_entity(r: Result<Access, StoreError>) -> (o: Result<
        AccessResponse,
        WebdevError,
    >)
        ensures
            match r {
                Ok(a) => o matches Ok(AccessResponse::OneAccess(b)) && b == a,
                Err(e) => o == Err::<AccessResponse, WebdevError>(WebdevError { kind: store_kind(e) }),
            },
    {
        match r {
            Ok(a) => Ok(AccessResponse::OneAccess(a)),
            Err(e) => Err(WebdevError::from_store(e)),
        }
    }

    /// The outcome of an operation that yields nothing.
    pub fn from_store_unit(r: Result<(), StoreError>) -> (o: Result<AccessResponse, WebdevError>)
        ensures
            match r {
                Ok(_) => o matches Ok(AccessResponse::NoResponse),
                Err(e) => o == Err::<AccessResponse, WebdevError>(WebdevError { kind: store_kind(e) }),
            },
    {
        match r {
            Ok(_) => Ok(AccessResponse::NoResponse),
            Err(e) => Err(WebdevError::from_store(e)),
        }
    }

    /// The response that this outcome is sent as.
    pub fn encode(&self) -> (r: WireResponse)
        ensures
            r@ == access_wire(*self),
    {
        match self {
            AccessResponse::OneAccess(a) => json_response(a.to_json()),
            AccessResponse::NoResponse => no_content(),
        }
    }

    /// The response for an outcome or a failure.
    pub fn respond(o: &Result<AccessResponse, WebdevError>) -> (r: WireResponse)
        ensures
            r@ == access_outcome_wire(*o),
    {
        match o {
            Ok(a) => a.encode(),
            Err(e) => e.encode(),
        }
    }
}

} // verus!
