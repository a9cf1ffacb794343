//! The request plan: everything one remote operation sends, as plain data.
//!
//! Every resource operation of the client produces an [`ApiRequest`]; the
//! embedding application performs the HTTP exchange it describes and hands the
//! status code and body text back to [`crate::error::response_outcome`].

use vstd::prelude::*;

use crate::text::dec_of;

verus! {

/// The HTTP verb of a request.
#[derive(Clone, Copy, PartialEq, Eq, Structural, Debug)]
pub enum Method {
    Get,
    Post,
    Put,
    Delete,
}

/// The verb name of a method.
pub open spec fn method_name(m: Method) -> Seq<char> {
    match m {
        Method::Get => "GET"@,
        Method::Post => "POST"@,
        Method::Put => "PUT"@,
        Method::Delete => "DELETE"@,
    }
}

impl Method {
    /// The verb name, as it appears on the wire.
    pub fn as_str(&self) -> (r: &'static str)
        ensures
            r@ == method_name(*self),
    {
        match self {
            Method::Get => "GET",
            Method::Post => "POST",
            Method::Put => "PUT",
            Method::Delete => "DELETE",
        }
    }
}

/// One fully built remote operation: verb, absolute URL, query parameters in
/// order, and an optional JSON body.
pub struct ApiRequest {
    pub method: Method,
    pub url: String,
    pub query: Vec<(String, String)>,
    pub body: Option<String>,
}

/// The views of a list of query parameter pairs, in order.
pub open spec fn pairs_view(q: Seq<(String, String)>) -> Seq<(Seq<char>, Seq<char>)> {
    q.map_values(|p: (String, String)| (p.0@, p.1@))
}

impl ApiRequest {
    /// The query parameters as pairs of character sequences, in order.
    pub open spec fn query_view(self) -> Seq<(Seq<char>, Seq<char>)> {
        pairs_view(self.query@)
    }

    /// Some query parameter carries this key.
    pub open spec fn has_param(self, key: Seq<char>) -> bool {
        exists|i: int| 0 <= i < self.query_view().len() && self.query_view()[i].0 == key
    }
}

/// The query entry for an optional numeric parameter: present exactly when
/// the caller supplied a value.
pub open spec fn opt_num_param(key: Seq<char>, v: Option<nat>) -> Seq<(Seq<char>, Seq<char>)> {
    match v {
        Some(n) => seq![(key, dec_of(n))],
        None => Seq::empty(),
    }
}

/// The query entry for an optional string parameter: present exactly when
/// the caller supplied a value.
pub open spec fn opt_str_param(key: Seq<char>, v: Option<Seq<char>>) -> Seq<
    (Seq<char>, Seq<char>),
> {
    match v {
        Some(s) => seq![(key, s)],
        None => Seq::empty(),
    }
}

/// The view of an optional 32-bit count.
pub open spec fn opt_u32_view(v: Option<u32>) -> Option<nat> {
    match v {
        Some(n) => Some(n as nat),
        None => None,
    }
}

/// The view of an optional 8-bit count.
pub open spec fn opt_u8_view(v: Option<u8>) -> Option<nat> {
    match v {
        Some(n) => Some(n as nat),
        None => None,
    }
}

/// Appends `("offset", ...)` and `("limit", ...)` entries for the pagination
/// pair, each only when supplied; absent parameters are omitted entirely.
pub fn push_pagination(query: &mut Vec<(String, String)>, offset: Option<u32>, limit: Option<u8>)
    ensures
        pairs_view(final(query)@) == pairs_view(old(query)@) + opt_num_param(
            "offset"@,
            opt_u32_view(offset),
        ) + opt_num_param("limit"@, opt_u8_view(limit)),
{
    if let Some(o) = offset {
        let key = String::from_str("offset");
        let val = crate::text::u64_to_string(o as u64);
        query.push((key, val));
    }
    if let Some(l) = limit {
        let key = String::from_str("limit");
        let val = crate::text::u64_to_string(l as u64);
        query.push((key, val));
    }
    proof {
        assert(pairs_view(final(query)@) =~= pairs_view(old(query)@) + opt_num_param(
            "offset"@,
            opt_u32_view(offset),
        ) + opt_num_param("limit"@, opt_u8_view(limit)));
    }
}

} // verus!
