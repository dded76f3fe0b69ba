use vstd::prelude::*;
use crate::decimal::{i64_of, parse_i64};
use crate::error::{format_error, WebdevError, WebdevErrorKind};
use crate::text::str_eq;

verus! {

/// A filter on a column that cannot be null.
#[derive(Debug)]
pub enum Search<T> {
    /// The query did not name the column.
    NoSearch,
    /// The column must equal the value.
    Exact(T),
}

/// A filter on a column that may be null.
#[derive(Debug)]
pub enum NullableSearch<T> {
    /// The query did not name the column.
    NoSearch,
    /// The column must equal the value.
    Exact(T),
    /// The column must be null.
    Null,
}

/// The filters of a search over grants, one per column.
#[derive(Debug)]
pub struct SearchUserAccess {
    pub access_id: Search<i64>,
    pub user_id: Search<i64>,
    pub permission_level: NullableSearch<String>,
}

/// The filters of a search, with the text filter as characters.
pub struct SearchUserAccessView {
    pub access_id: Search<i64>,
    pub user_id: Search<i64>,
    pub permission_level: NullableSearch<Seq<char>>,
}

impl View for NullableSearch<String> {
    type V = NullableSearch<Seq<char>>;

    open spec fn view(&self) -> NullableSearch<Seq<char>> {
        match self {
            NullableSearch::NoSearch => NullableSearch::NoSearch,
            NullableSearch::Exact(s) => NullableSearch::Exact(s@),
            NullableSearch::Null => NullableSearch::Null,
        }
    }
}

impl View for SearchUserAccess {
    type V = SearchUserAccessView;

    open spec fn view(&self) -> SearchUserAccessView {
        SearchUserAccessView {
            access_id: self.access_id,
            user_id: self.user_id,
            permission_level: self.permission_level@,
        }
    }
}

/// The word that asks for a null column.
pub open spec fn null_word() -> Seq<char> {
    "null"@
}

/// An integer filter read from a query value.
pub open spec fn int_search_of(q: Seq<char>) -> Option<Search<i64>> {
    match i64_of(q) {
        Some(v) => Some(Search::Exact(v)),
        None => None,
    }
}

/// A nullable text filter read from a query value: never fails.
pub open spec fn text_search_of(q: Seq<char>) -> NullableSearch<Seq<char>> {
    if q == null_word() {
        NullableSearch::Null
    } else {
        NullableSearch::Exact(q)
    }
}

pub open spec fn no_search() -> SearchUserAccessView {
    SearchUserAccessView {
        access_id: Search::NoSearch,
        user_id: Search::NoSearch,
        permission_level: NullableSearch::NoSearch,
    }
}

/// One query pair applied to the filters: a recognised key sets its column,
/// any other key, or a value that does not parse, fails.
pub open spec fn apply_pair(s: SearchUserAccessView, key: Seq<char>, val: Seq<char>) -> Option<
    SearchUserAccessView,
> {
    if key == "access_id"@ {
        match int_search_of(val) {
            Some(f) => Some(SearchUserAccessView { access_id: f, ..s }),
            None => None,
        }
    } else if key == "user_id"@ {
        match int_search_of(val) {
            Some(f) => Some(SearchUserAccessView { user_id: f, ..s }),
            None => None,
        }
    } else if key == "permission_level"@ {
        Some(SearchUserAccessView { permission_level: text_search_of(val), ..s })
    } else {
        None
    }
}

/// The filters that a sequence of query pairs asks for, read in order (a
/// later pair for a key replaces an earlier one); `None` if any pair fails.
pub open spec fn search_of(pairs: Seq<(Seq<char>, Seq<char>)>) -> Option<SearchUserAccessView>
    decreases pairs.len(),
{
    if pairs.len() == 0 {
        Some(no_search())
    } else {
        match search_of(pairs.drop_last()) {
            Some(s) => apply_pair(s, pairs.last().0, pairs.last().1),
            None => None,
        }
    }
}

pub open spec fn pairs_view(v: Seq<(String, String)>) -> Seq<(Seq<char>, Seq<char>)> {
    v.map_values(|p: (String, String)| (p.0@, p.1@))
}

impl Search<i64> {
    /// Reads an integer filter from one query value.
    pub fn from_query(q: &str) -> (r: Result<Search<i64>, WebdevError>)
        ensures
            match int_search_of(q@) {
                Some(f) => r == Ok::<Search<i64>, WebdevError>(f),
                None => r == Err::<Search<i64>, WebdevError>(format_error()),
            },
    {
        match parse_i64(q) {
            Some(v) => Ok(Search::Exact(v)),
            None => Err(WebdevError::new(WebdevErrorKind::Format)),
        }
    }
}

impl NullableSearch<String> {
    /// Reads a nullable text filter from one query value: `null` asks for a
    /// null column, any other text for that exact text.
    pub fn from_query(q: &str) -> (r: Result<NullableSearch<String>, WebdevError>)
        ensures
            r is Ok,
            r.unwrap()@ == text_search_of(q@),
    {
        if str_eq(q, "null") {
            Ok(NullableSearch::Null)
        } else {
            Ok(NullableSearch::Exact(q.to_string()))
        }
    }
}

impl SearchUserAccess {
    /// The filters that decoded query pairs ask for.
    pub fn from_pairs(pairs: &Vec<(String, String)>) -> (r: Result<SearchUserAccess, WebdevError>)
        ensures
            match search_of(pairs_view(pairs@)) {
                Some(v) => r is Ok && r.unwrap()@ == v,
                None => r == Err::<SearchUserAccess, WebdevError>(format_error()),
            },
    {
        let mut s = SearchUserAccess {
            access_id: Search::NoSearch,
            user_id: Search::NoSearch,
            permission_level: NullableSearch::NoSearch,
        };
        let mut i: usize = 0;
        while i < pairs.len()
            invariant
                i <= pairs@.len(),
                search_of(pairs_view(pairs@).subrange(0, i as int)) == Some(s@),
            decreases pairs@.len() - i,
        {
            let key = &pairs[i].0;
            let val = &pairs[i].1;
            let ghost pre = pairs_view(pairs@).subrange(0, i as int);
            let ghost cur = pairs_view(pairs@).subrange(0, i + 1);
            proof {
                assert(cur.drop_last() =~= pre);
                assert(cur.last() == (key@, val@));
            }
            if str_eq(key.as_str(), "access_id") {
                match Search::<i64>::from_query(val.as_str()) {
                    Ok(f) => {
                        s.access_id = f;
                    },
                    Err(e) => {
                        proof {
                            lemma_failed_prefix(pairs_view(pairs@), i + 1);
                        }
                        return Err(e);
                    },
                }
            } else if str_eq(key.as_str(), "user_id") {
                match Search::<i64>::from_query(val.as_str()) {
                    Ok(f) => {
                        s.user_id = f;
                    },
                    Err(e) => {
                        proof {
                            lemma_failed_prefix(pairs_view(pairs@), i + 1);
                        }
                        return Err(e);
                    },
                }
            } else if str_eq(key.as_str(), "permission_level") {
                match NullableSearch::<String>::from_query(val.as_str()) {
                    Ok(f) => {
                        s.permission_level = f;
                    },
                    Err(e) => {
                        return Err(e);
                    },
                }
            } else {
                proof {
                    lemma_failed_prefix(pairs_view(pairs@), i + 1);
                }
                return Err(WebdevError::new(WebdevErrorKind::Format));
            }
            i = i + 1;
        }
        assert(pairs_view(pairs@).subrange(0, pairs@.len() as int) =~= pairs_view(pairs@));
        Ok(s)
    }
}

/// Once a prefix of the pairs fails, every longer prefix fails too.
pub proof fn lemma_failed_prefix(pairs: Seq<(Seq<char>, Seq<char>)>, k: int)
    requires
        0 <= k <= pairs.len(),
        search_of(pairs.subrange(0, k)) is None,
    ensures
        search_of(pairs) is None,
    decreases pairs.len() - k,
{
    if k < pairs.len() {
        let next = pairs.subrange(0, k + 1);
        assert(next.drop_last() =~= pairs.subrange(0, k));
        lemma_failed_prefix(pairs, k + 1);
    } else {
        assert(pairs.subrange(0, k) =~= pairs);
    }
}

} // verus!
