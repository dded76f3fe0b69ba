use vstd::prelude::*;

verus! {

/// The fields of a JSON request body that the resources read. A field is
/// `None` when the body does not hold it; `permission_level` tells a field
/// that is absent (`None`) from one that is `null` (`Some(None)`).
#[derive(Debug)]
pub struct BodyFields {
    pub access_name: Option<String>,
    pub access_id: Option<i64>,
    pub user_id: Option<i64>,
    pub permission_level: Option<Option<String>>,
}

/// A request body as it arrived.
#[derive(Debug)]
pub enum Body {
    /// The request has no body.
    Absent,
    /// The body is not JSON, or a field has the wrong type.
    Malformed,
    /// The body decoded to these fields.
    Fields(BodyFields),
}

pub open spec fn opt_view(s: Option<String>) -> Option<Seq<char>> {
    match s {
        Some(t) => Some(t@),
        None => None,
    }
}

/// The decoded fields, when the body decoded.
pub open spec fn fields_of(b: Body) -> Option<BodyFields> {
    match b {
        Body::Fields(f) => Some(f),
        _ => None,
    }
}

} // verus!
