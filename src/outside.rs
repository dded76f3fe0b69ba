use vstd::prelude::*;

verus! {

#[verifier::external_type_specification]
#[verifier::external_body]
pub struct ExJsonError(serde_json::Error);

/// The name/value pairs that a form-encoded query string decodes to, in order.
pub uninterp spec fn form_pairs(q: Seq<char>) -> Seq<(Seq<char>, Seq<char>)>;

/// A path segment after percent-decoding.
pub uninterp spec fn segment_decoded(s: Seq<char>) -> Seq<char>;

/// A string written as a JSON string literal, quotes and escapes included.
pub uninterp spec fn json_str(s: Seq<char>) -> Seq<char>;

/// Relies on url::form_urlencoded::parse: splits on `&` and `=`, skips empty
/// pieces, turns `+` into a space and percent-decodes; an empty query has no pairs.
#[verifier::external_body]
pub(crate) fn query_pairs(q: &str) -> (r: Vec<(String, String)>)
    ensures
        r@.len() == form_pairs(q@).len(),
        forall|i: int|
            0 <= i < r@.len() ==> (#[trigger] r@[i]).0@ == form_pairs(q@)[i].0 && r@[i].1@
                == form_pairs(q@)[i].1,
        q@.len() == 0 ==> r@.len() == 0,
{
    url::form_urlencoded::parse(q.as_bytes()).into_owned().collect()
}

/// Relies on percent_encoding::percent_decode, reached as rouille::percent_encoding, with
/// lossy UTF-8 decoding, as rouille's router applies to a path segment; text
/// without `%` comes back unchanged.
#[verifier::external_body]
pub(crate) fn decode_segment(s: &str) -> (r: String)
    ensures
        r@ == segment_decoded(s@),
        r@ == s@ || exists|i: int| 0 <= i < s@.len() && s@[i] == '%',
{
    rouille::percent_encoding::percent_decode(s.as_bytes()).decode_utf8_lossy().into_owned()
}

/// Relies on serde_json::to_string on a `str`: it writes the escaped string
/// into a `Vec`, which cannot fail.
#[verifier::external_body]
pub(crate) fn json_string(s: &str) -> (r: Result<String, serde_json::Error>)
    ensures
        r is Ok,
        r.unwrap()@ == json_str(s@),
{
    serde_json::to_string(s)
}

} // verus!
