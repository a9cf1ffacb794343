//! The client handle and the endpoint builder.
//!
//! The handle holds the configuration a transport needs to perform an
//! exchange: the authentication token, the user-agent string, and the fixed
//! header name the token travels under. It is immutable after construction.

use vstd::prelude::*;

use crate::error::YuqueError;

verus! {

/// The default absolute base of every endpoint.
pub open spec fn default_base_api() -> Seq<char> {
    "https://www.yuque.com/api/v2"@
}

/// A character that may stand in the authentication header value: visible
/// ASCII, space or horizontal tab.
pub open spec fn is_header_char(c: char) -> bool {
    let u = c as u32;
    u == 9 || (32 <= u && u < 127)
}

/// A token that can be carried as a header value.
pub open spec fn is_valid_token(s: Seq<char>) -> bool {
    forall|i: int| 0 <= i < s.len() ==> is_header_char(s[i])
}

/// The configured client handle: one per session, immutable, shared by every
/// operation.
#[derive(Clone, Debug)]
pub struct Yuque {
    pub token: String,
}

/// The absolute URL of an endpoint: under the tenant's subdomain where a
/// space override is given, under the default base otherwise.
pub open spec fn api_url(endpoint: Seq<char>, space: Option<Seq<char>>) -> Seq<char> {
    match space {
        Some(sp) => "https://"@ + sp + ".yuque.com/api/v2"@ + endpoint,
        None => default_base_api() + endpoint,
    }
}

/// The view of an optional string slice.
pub open spec fn opt_str_view(s: Option<&str>) -> Option<Seq<char>> {
    match s {
        Some(v) => Some(v@),
        None => None,
    }
}

impl Yuque {
    /// Builds a handle from an authentication token. Fails exactly when the
    /// token cannot be carried as a header value.
    pub fn new(token: String) -> (r: Result<Yuque, YuqueError>)
        ensures
            is_valid_token(token@) ==> (r matches Ok(y) && y.token@ == token@),
            !is_valid_token(token@) ==> (r matches Err(YuqueError::Config(m)) && m@
                == "token is not a valid header value"@),
    {
        if token_is_valid(token.as_str()) {
            Ok(Yuque { token })
        } else {
            Err(YuqueError::Config(String::from_str("token is not a valid header value")))
        }
    }

    /// The fixed name of the header the token travels under.
    pub fn auth_header_name(&self) -> (r: &'static str)
        ensures
            r@ == "X-Auth-Token"@,
    {
        "X-Auth-Token"
    }

    /// The fixed user-agent string attached to every request.
    pub fn user_agent(&self) -> (r: &'static str)
        ensures
            r@ == "Yuque-Rust-Client"@,
    {
        "Yuque-Rust-Client"
    }

    /// Maps a relative endpoint to its absolute URL, under the given space's
    /// subdomain where one is supplied.
    pub fn build_api(endpoint: &str, space: Option<&str>) -> (r: String)
        ensures
            r@ == api_url(endpoint@, opt_str_view(space)),
    {
        match space {
            Some(sp) => {
                let mut out = String::from_str("https://");
                out.append(sp);
                out.append(".yuque.com/api/v2");
                out.append(endpoint);
                proof {
                    assert(out@ =~= api_url(endpoint@, opt_str_view(space)));
                }
                out
            },
            None => {
                let mut out = String::from_str("https://www.yuque.com/api/v2");
                out.append(endpoint);
                out
            },
        }
    }
}

/// Whether every character of `token` may stand in a header value.
fn token_is_valid(token: &str) -> (r: bool)
    ensures
        r == is_valid_token(token@),
{
    let len = token.unicode_len();
    let mut i: usize = 0;
    while i < len
        invariant
            len as nat == token@.len(),
            i <= len,
            forall|j: int| 0 <= j < i ==> is_header_char(token@[j]),
        decreases len - i,
    {
        let c = token.get_char(i);
        let u = c as u32;
        if !(u == 9 || (32 <= u && u < 127)) {
            assert(!is_header_char(token@[i as int]));
            return false;
        }
        i = i + 1;
    }
    true
}

} // verus!
