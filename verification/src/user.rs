//! User lookups: the caller's own identity, and a user by identifier.

use vstd::prelude::*;

use crate::request::{ApiRequest, Method};
use crate::yuque::{api_url, Yuque};

verus! {

/// A user, as the plain user endpoints return one.
#[derive(Clone, Debug, Default)]
pub struct UserSerializer {
    pub id: u64,
    pub user_type: String,
    pub login: String,
    pub name: String,
    pub avatar_url: String,
    pub created_at: String,
    pub updated_at: String,
}

/// The envelope of the plain user endpoints.
#[derive(Clone, Debug, Default)]
pub struct GetUserResponse {
    pub data: UserSerializer,
}

impl Yuque {
    /// The request for the authenticated caller's own identity.
    pub fn get_auth_user(&self) -> (r: ApiRequest)
        ensures
            r.method == Method::Get,
            r.url@ == api_url("/user"@, None),
            r.query@.len() == 0,
            r.body is None,
    {
        ApiRequest {
            method: Method::Get,
            url: Yuque::build_api("/user", None),
            query: Vec::new(),
            body: None,
        }
    }

    /// The request for one user, by numeric identifier or login handle.
    pub fn get_user(&self, id: &str) -> (r: ApiRequest)
        ensures
            r.method == Method::Get,
            r.url@ == api_url("/users/"@ + id@, None),
            r.query@.len() == 0,
            r.body is None,
    {
        let mut endpoint = String::from_str("/users/");
        endpoint.append(id);
        ApiRequest {
            method: Method::Get,
            url: Yuque::build_api(endpoint.as_str(), None),
            query: Vec::new(),
            body: None,
        }
    }
}

} // verus!
