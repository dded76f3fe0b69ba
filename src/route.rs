use vstd::prelude::*;
use vstd::string::*;
use crate::decimal::{i64_of, parse_i64};
use crate::outside::{decode_segment, segment_decoded};


verus! {

/// The index of the first `/` in `s` at or after `i`, or the length of `s`.
pub open spec fn slash_from(s: Seq<char>, i: int) -> int
    decreases s.len() - i,
{
    if i >= s.len() {
        s.len() as int
    } else if s[i] == '/' {
        i
    } else {
        slash_from(s, i + 1)
    }
}

pub open spec fn has_percent(s: Seq<char>) -> bool {
    exists|i: int| 0 <= i < s.len() && s[i] == '%'
}

/// A segment as the router reads it: percent-decoded, which leaves text
/// without `%` as it is.
pub open spec fn segment_text(s: Seq<char>) -> Seq<char> {
    if has_percent(s) {
        segment_decoded(s)
    } else {
        s
    }
}

/// Takes `/{id}` off the front of a path: the id, read after
/// percent-decoding the segment, and the rest of the path.
pub open spec fn id_segment(url: Seq<char>) -> Option<(i64, Seq<char>)> {
    if url.len() > 0 && url[0] == '/' {
        let end = slash_from(url, 1);
        match i64_of(segment_text(url.subrange(1, end))) {
            Some(id) => Some((id, url.subrange(end, url.len() as int))),
            None => None,
        }
    } else {
        None
    }
}

/// The id of a path of the shape `/{id}`.
pub open spec fn one_id(path: Seq<char>) -> Option<i64> {
    match id_segment(path) {
        Some((id, rest)) => if rest.len() == 0 {
            Some(id)
        } else {
            None
        },
        None => None,
    }
}

/// The two ids of a path of the shape `/{first}/{second}`.
pub open spec fn two_ids(path: Seq<char>) -> Option<(i64, i64)> {
    match id_segment(path) {
        Some((a, rest)) => match id_segment(rest) {
            Some((b, rest2)) => if rest2.len() == 0 {
                Some((a, b))
            } else {
                None
            },
            None => None,
        },
        None => None,
    }
}

proof fn lemma_slash_from_bounds(s: Seq<char>, i: int)
    requires
        0 <= i <= s.len(),
    ensures
        i <= slash_from(s, i) <= s.len(),
    decreases s.len() - i,
{
    if i < s.len() && s[i] != '/' {
        lemma_slash_from_bounds(s, i + 1);
    }
}

fn find_slash(s: &str, from: usize) -> (r: usize)
    requires
        from <= s@.len(),
    ensures
        r as int == slash_from(s@, from as int),
        from <= r <= s@.len(),
{
    let n = s.unicode_len();
    let mut i = from;
    proof {
        lemma_slash_from_bounds(s@, from as int);
    }
    while i < n
        invariant
            from <= i <= n,
            n == s@.len(),
            slash_from(s@, i as int) == slash_from(s@, from as int),
        decreases n - i,
    {
        if s.get_char(i) == '/' {
            return i;
        }
        i = i + 1;
    }
    i
}

/// Takes `/{id}` off the front of a path, as `id_segment` says.
pub fn take_id<'a>(url: &'a str) -> (r: Option<(i64, &'a str)>)
    ensures
        match id_segment(url@) {
            Some((id, rest)) => r is Some && r.unwrap().0 == id && r.unwrap().1@ == rest,
            None => r is None,
        },
{
    let n = url.unicode_len();
    if n == 0 || url.get_char(0) != '/' {
        return None;
    }
    let end = find_slash(url, 1);
    let seg = url.substring_char(1, end);
    let decoded = decode_segment(seg);
    match parse_i64(decoded.as_str()) {
        Some(id) => Some((id, url.substring_char(end, n))),
        None => None,
    }
}

/// The id of a path of the shape `/{id}`.
pub fn match_one_id(path: &str) -> (r: Option<i64>)
    ensures
        r == one_id(path@),
{
    match take_id(path) {
        Some((id, rest)) => if rest.unicode_len() == 0 {
            Some(id)
        } else {
            None
        },
        None => None,
    }
}

/// The two ids of a path of the shape `/{first}/{second}`.
pub fn match_two_ids(path: &str) -> (r: Option<(i64, i64)>)
    ensures
        r == two_ids(path@),
{
    match take_id(path) {
        Some((a, rest)) => match take_id(rest) {
            Some((b, rest2)) => if rest2.unicode_len() == 0 {
                Some((a, b))
            } else {
                None
            },
            None => None,
        },
        None => None,
    }
}

} // verus!
