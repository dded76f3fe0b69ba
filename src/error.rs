use vstd::prelude::*;

verus! {

/// What went wrong with a request.
#[derive(Clone, Copy, Debug, PartialEq, Eq, Structural)]
pub enum WebdevErrorKind {
    /// A malformed body, query value or query key, or a missing body.
    Format,
    /// No route matched, or the targeted row does not exist.
    NotFound,
    /// The store failed for another reason.
    Internal,
}

#[derive(Clone, Copy, Debug, PartialEq, Eq, Structural)]
pub struct WebdevError {
    pub kind: WebdevErrorKind,
}

/// What the store answered when an operation did not succeed.
#[derive(Clone, Copy, Debug, PartialEq, Eq, Structural)]
pub enum StoreError {
    /// The store says that no row has the given id.
    NotFound,
    /// Any other failure of the store.
    Failure,
}

pub open spec fn format_error() -> WebdevError {
    WebdevError { kind: WebdevErrorKind::Format }
}

pub open spec fn not_found_error() -> WebdevError {
    WebdevError { kind: WebdevErrorKind::NotFound }
}

/// The kind that a store failure surfaces as.
pub open spec fn store_kind(e: StoreError) -> WebdevErrorKind {
    match e {
        StoreError::NotFound => WebdevErrorKind::NotFound,
        StoreError::Failure => WebdevErrorKind::Internal,
    }
}

/// The status code that a failure of this kind is answered with.
pub open spec fn kind_status(k: WebdevErrorKind) -> u16 {
    match k {
        WebdevErrorKind::Format => 400,
        WebdevErrorKind::NotFound => 404,
        WebdevErrorKind::Internal => 500,
    }
}

impl WebdevError {
    pub fn new(kind: WebdevErrorKind) -> (r: WebdevError)
        ensures
            r.kind == kind,
    {
        WebdevError { kind }
    }

    /// A store failure: not-found stays not-found, anything else is internal.
    pub fn from_store(e: StoreError) -> (r: WebdevError)
        ensures
            r.kind == store_kind(e),
    {
        match e {
            StoreError::NotFound => WebdevError::new(WebdevErrorKind::NotFound),
            StoreError::Failure => WebdevError::new(WebdevErrorKind::Internal),
        }
    }

    pub fn status(&self) -> (r: u16)
        ensures
            r == kind_status(self.kind),
    {
        match self.kind {
            WebdevErrorKind::Format => 400,
            WebdevErrorKind::NotFound => 404,
            WebdevErrorKind::Internal => 500,
        }
    }
}

} // verus!
