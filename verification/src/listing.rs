//! List-query normalization: maps the optional fields of a `/list` request
//! body to the storage layer's query options, with every absent field
//! defaulting.

use vstd::prelude::*;

verus! {

/// The optional pagination fields a `/list` request body may carry. A body
/// that is absent or fails to parse stands for `None` as a whole: that is not
/// an error for this endpoint, only a signal to use defaults.
pub struct ListRequest {
    /// The prefix to filter objects by.
    pub prefix: Option<String>,
    /// The delimiter used to define object hierarchy.
    pub delimiter: Option<String>,
    /// The offset to start listing objects from.
    pub offset: Option<u64>,
    /// The maximum number of objects to list.
    pub limit: Option<u64>,
}

/// A fully-defaulted storage query: `prefix` and `delimiter` empty mean no
/// filtering, `offset` `0` means start at the beginning, and `limit` `0`
/// means unbounded, per the store's convention.
pub struct ListQuery {
    pub prefix: String,
    pub delimiter: String,
    pub offset: u64,
    pub limit: u64,
}

/// The string a maybe-absent string field normalizes to.
pub open spec fn string_or_empty(o: Option<String>) -> Seq<char> {
    match o {
        Some(s) => s@,
        None => Seq::<char>::empty(),
    }
}

/// The number a maybe-absent numeric field normalizes to.
pub open spec fn number_or_zero(o: Option<u64>) -> u64 {
    match o {
        Some(n) => n,
        None => 0u64,
    }
}

/// True when the query is the fully-defaulted one that an absent or invalid
/// request body yields.
pub open spec fn is_default_query(q: ListQuery) -> bool {
    &&& q.prefix@ == Seq::<char>::empty()
    &&& q.delimiter@ == Seq::<char>::empty()
    &&& q.offset == 0
    &&& q.limit == 0
}

/// Normalize an optional `/list` request body into a storage query.
///
/// An absent body yields every default; a present body overrides exactly the
/// fields it carries and keeps the default for the rest. Fields are
/// independent: no cross-field validation happens here.
pub fn normalize_list_query(req: Option<ListRequest>) -> (q: ListQuery)
    ensures
        match req {
            None => is_default_query(q),
            Some(r) => {
                &&& q.prefix@ == string_or_empty(r.prefix)
                &&& q.delimiter@ == string_or_empty(r.delimiter)
                &&& q.offset == number_or_zero(r.offset)
                &&& q.limit == number_or_zero(r.limit)
            },
        },
{
    match req {
        None => ListQuery {
            prefix: String::new(),
            delimiter: String::new(),
            offset: 0,
            limit: 0,
        },
        Some(r) => ListQuery {
            prefix: match r.prefix {
                Some(p) => p,
                None => String::new(),
            },
            delimiter: match r.delimiter {
                Some(d) => d,
                None => String::new(),
            },
            offset: match r.offset {
                Some(o) => o,
                None => 0,
            },
            limit: match r.limit {
                Some(l) => l,
                None => 0,
            },
        },
    }
}

/// An absent body and a present-but-empty body normalize to the same query:
/// every field at its default.
pub proof fn lemma_empty_body_is_default(req: ListRequest, q_absent: ListQuery, q_empty: ListQuery)
    requires
        req.prefix is None,
        req.delimiter is None,
        req.offset is None,
        req.limit is None,
        is_default_query(q_absent),
        q_empty.prefix@ == string_or_empty(req.prefix),
        q_empty.delimiter@ == string_or_empty(req.delimiter),
        q_empty.offset == number_or_zero(req.offset),
        q_empty.limit == number_or_zero(req.limit),
    ensures
        is_default_query(q_empty),
        q_empty.prefix@ == q_absent.prefix@,
        q_empty.delimiter@ == q_absent.delimiter@,
        q_empty.offset == q_absent.offset,
        q_empty.limit == q_absent.limit,
{
}

} // verus!
