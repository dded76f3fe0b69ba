use vstd::prelude::*;
use vstd::string::*;
use crate::error::{kind_status, WebdevError};
use crate::outside::{json_str, json_string};

verus! {

/// What the body of a response holds.
#[derive(Clone, Copy, Debug, PartialEq, Eq, Structural)]
pub enum BodyKind {
    /// JSON text.
    Json,
    /// Plain text.
    Text,
    /// Nothing.
    Empty,
}

/// A response as it goes out: a status, what the body holds, and the body.
#[derive(Debug)]
pub struct WireResponse {
    pub status: u16,
    pub kind: BodyKind,
    pub body: String,
}

impl View for WireResponse {
    type V = (u16, BodyKind, Seq<char>);

    open spec fn view(&self) -> (u16, BodyKind, Seq<char>) {
        (self.status, self.kind, self.body@)
    }
}

/// A JSON body with status 200.
pub open spec fn json_wire(body: Seq<char>) -> (u16, BodyKind, Seq<char>) {
    (200, BodyKind::Json, body)
}

/// The answer to a successful operation that returns nothing.
pub open spec fn no_content_wire() -> (u16, BodyKind, Seq<char>) {
    (204, BodyKind::Empty, Seq::empty())
}

/// The answer to a boolean check: the bare word, not a JSON value.
pub open spec fn bool_wire(b: bool) -> (u16, BodyKind, Seq<char>) {
    (200, BodyKind::Text, if b { "true"@ } else { "false"@ })
}

/// The answer to a failure: its status and no body.
pub open spec fn error_wire(e: WebdevError) -> (u16, BodyKind, Seq<char>) {
    (kind_status(e.kind), BodyKind::Empty, Seq::empty())
}

/// A JSON string literal, or `null` when there is none.
pub open spec fn json_opt_str(s: Option<Seq<char>>) -> Seq<char> {
    match s {
        Some(t) => json_str(t),
        None => "null"@,
    }
}

/// Appends `s` written as a JSON string literal.
pub fn push_json_str(out: &mut String, s: &str)
    ensures
        final(out)@ == old(out)@ + json_str(s@),
{
    match json_string(s) {
        Ok(t) => out.append(t.as_str()),
        Err(_) => {},
    }
}

/// Appends an optional string as JSON: a string literal, or `null`.
pub fn push_json_opt_str(out: &mut String, s: &Option<String>)
    ensures
        final(out)@ == old(out)@ + json_opt_str(match s {
            Some(t) => Some(t@),
            None => None,
        }),
{
    match s {
        Some(t) => push_json_str(out, t.as_str()),
        None => out.append("null"),
    }
}

pub fn json_response(body: String) -> (r: WireResponse)
    ensures
        r@ == json_wire(body@),
{
    WireResponse { status: 200, kind: BodyKind::Json, body }
}

pub fn no_content() -> (r: WireResponse)
    ensures
        r@ == no_content_wire(),
{
    WireResponse { status: 204, kind: BodyKind::Empty, body: String::new() }
}

pub fn bool_response(b: bool) -> (r: WireResponse)
    ensures
        r@ == bool_wire(b),
{
    let text = if b { "true" } else { "false" };
    WireResponse { status: 200, kind: BodyKind::Text, body: text.to_string() }
}

impl WebdevError {
    /// The response that reports this failure.
    pub fn encode(&self) -> (r: WireResponse)
        ensures
            r@ == error_wire(*self),
    {
        WireResponse { status: self.status(), kind: BodyKind::Empty, body: String::new() }
    }
}

} // verus!
