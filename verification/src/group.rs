//! Group operations: listing, lookup, creation, update, deletion, and
//! membership management.

use vstd::prelude::*;

use crate::json::{
    has_field, has_field_val, json_object, lemma_has_field_concat, lemma_has_field_val_concat,
    opt_view_field, rendered_object, FieldModel, JsonField, JsonValue, ValModel,
};
use crate::request::{
    opt_num_param, opt_u32_view, opt_u8_view, push_pagination, ApiRequest, Method,
};
use crate::text::u64_to_string;
use crate::yuque::{api_url, opt_str_view, Yuque};

verus! {

/// The body fields of a group creation, in wire order.
pub open spec fn create_group_fields(
    name: Seq<char>,
    login: Seq<char>,
    desc: Seq<char>,
) -> Seq<FieldModel> {
    seq![
        FieldModel { key: "name"@, val: ValModel::Str(name) },
        FieldModel { key: "login"@, val: ValModel::Str(login) },
        FieldModel { key: "description"@, val: ValModel::Str(desc) },
    ]
}

/// The body fields of a group update, in wire order: exactly the populated
/// fields.
pub open spec fn update_group_fields(
    name: Option<Seq<char>>,
    login: Option<Seq<char>>,
    desc: Option<Seq<char>>,
) -> Seq<FieldModel> {
    opt_view_field("name"@, name) + opt_view_field("login"@, login) + opt_view_field(
        "description"@,
        desc,
    )
}

/// The body of a membership upsert: the role code alone.
pub open spec fn add_group_user_fields(role: u8) -> Seq<FieldModel> {
    seq![FieldModel { key: "role"@, val: ValModel::Num(role as nat) }]
}

impl Yuque {
    /// The request that lists the groups a user belongs to.
    pub fn list_user_groups(&self, user: &str) -> (r: ApiRequest)
        ensures
            r.method == Method::Get,
            r.url@ == api_url("/users/"@ + user@ + "/groups"@, None),
            r.query@.len() == 0,
            r.body is None,
    {
        let mut endpoint = String::from_str("/users/");
        endpoint.append(user);
        endpoint.append("/groups");
        ApiRequest {
            method: Method::Get,
            url: Yuque::build_api(endpoint.as_str(), None),
            query: Vec::new(),
            body: None,
        }
    }

    /// The request that lists public groups. The offset travels only when
    /// supplied; an absent offset is omitted entirely.
    pub fn list_public_groups(&self, offset: Option<u32>) -> (r: ApiRequest)
        ensures
            r.method == Method::Get,
            r.url@ == api_url("/groups"@, None),
            r.query_view() == opt_num_param("offset"@, opt_u32_view(offset)),
            r.body is None,
            offset is None ==> !r.has_param("offset"@),
    {
        let mut query: Vec<(String, String)> = Vec::new();
        if let Some(o) = offset {
            query.push((String::from_str("offset"), u64_to_string(o as u64)));
        }
        let r = ApiRequest {
            method: Method::Get,
            url: Yuque::build_api("/groups", None),
            query,
            body: None,
        };
        proof {
            assert(r.query_view() =~= opt_num_param("offset"@, opt_u32_view(offset)));
        }
        r
    }

    /// The request that lists a group's members. The role filter and the
    /// pagination pair travel as query parameters only when supplied; absent
    /// parameters are omitted entirely.
    pub fn list_group_users(
        &self,
        group: &str,
        offset: Option<u32>,
        limit: Option<u8>,
        role: Option<u8>,
    ) -> (r: ApiRequest)
        ensures
            r.method == Method::Get,
            r.url@ == api_url("/groups/"@ + group@ + "/users"@, None),
            r.query_view() == opt_num_param("role"@, opt_u8_view(role)) + opt_num_param(
                "offset"@,
                opt_u32_view(offset),
            ) + opt_num_param("limit"@, opt_u8_view(limit)),
            r.body is None,
            offset is None ==> !r.has_param("offset"@),
            limit is None ==> !r.has_param("limit"@),
    {
        let mut endpoint = String::from_str("/groups/");
        endpoint.append(group);
        endpoint.append("/users");
        let mut query: Vec<(String, String)> = Vec::new();
        if let Some(ro) = role {
            query.push((String::from_str("role"), u64_to_string(ro as u64)));
        }
        push_pagination(&mut query, offset, limit);
        let r = ApiRequest {
            method: Method::Get,
            url: Yuque::build_api(endpoint.as_str(), None),
            query,
            body: None,
        };
        proof {
            assert(r.query_view() =~= opt_num_param("role"@, opt_u8_view(role)) + opt_num_param(
                "offset"@,
                opt_u32_view(offset),
            ) + opt_num_param("limit"@, opt_u8_view(limit)));
            reveal_strlit("role");
            reveal_strlit("offset");
            reveal_strlit("limit");
            assert("role"@.len() != "offset"@.len());
            assert("role"@.len() != "limit"@.len());
        }
        r
    }

    /// The request for one group, by login handle or identifier.
    pub fn get_group(&self, group: &str) -> (r: ApiRequest)
        ensures
            r.method == Method::Get,
            r.url@ == api_url("/groups/"@ + group@, None),
            r.query@.len() == 0,
            r.body is None,
    {
        let mut endpoint = String::from_str("/groups/");
        endpoint.append(group);
        ApiRequest {
            method: Method::Get,
            url: Yuque::build_api(endpoint.as_str(), None),
            query: Vec::new(),
            body: None,
        }
    }

    /// The request that creates a group with a name, a login handle and a
    /// description.
    pub fn create_group(&self, name: &str, login: &str, desc: &str) -> (r: ApiRequest)
        ensures
            r.method == Method::Post,
            r.url@ == api_url("/groups"@, None),
            r.query@.len() == 0,
            r.body matches Some(b) && b@ == rendered_object(
                create_group_fields(name@, login@, desc@),
            ),
    {
        let mut fields: Vec<JsonField> = Vec::new();
        fields.push(
            JsonField { key: String::from_str("name"), value: JsonValue::Str(String::from_str(name)) },
        );
        fields.push(
            JsonField {
                key: String::from_str("login"),
                value: JsonValue::Str(String::from_str(login)),
            },
        );
        fields.push(
            JsonField {
                key: String::from_str("description"),
                value: JsonValue::Str(String::from_str(desc)),
            },
        );
        proof {
            assert(crate::json::field_models(fields@) =~= create_group_fields(name@, login@, desc@));
        }
        let body = json_object(&fields);
        ApiRequest {
            method: Method::Post,
            url: Yuque::build_api("/groups", None),
            query: Vec::new(),
            body: Some(body),
        }
    }

    /// The request that updates a group. Only the populated fields travel.
    pub fn update_group(
        &self,
        group: &str,
        name: Option<&str>,
        login: Option<&str>,
        desc: Option<&str>,
    ) -> (r: ApiRequest)
        ensures
            r.method == Method::Put,
            r.url@ == api_url("/groups/"@ + group@, None),
            r.query@.len() == 0,
            r.body matches Some(b) && b@ == rendered_object(
                update_group_fields(opt_str_view(name), opt_str_view(login), opt_str_view(desc)),
            ),
    {
        let mut endpoint = String::from_str("/groups/");
        endpoint.append(group);
        let mut fields: Vec<JsonField> = Vec::new();
        if let Some(n) = name {
            fields.push(
                JsonField {
                    key: String::from_str("name"),
                    value: JsonValue::Str(String::from_str(n)),
                },
            );
        }
        if let Some(l) = login {
            fields.push(
                JsonField {
                    key: String::from_str("login"),
                    value: JsonValue::Str(String::from_str(l)),
                },
            );
        }
        if let Some(d) = desc {
            fields.push(
                JsonField {
                    key: String::from_str("description"),
                    value: JsonValue::Str(String::from_str(d)),
                },
            );
        }
        proof {
            assert(crate::json::field_models(fields@) =~= update_group_fields(
                opt_str_view(name),
                opt_str_view(login),
                opt_str_view(desc),
            ));
        }
        let body = json_object(&fields);
        ApiRequest {
            method: Method::Put,
            url: Yuque::build_api(endpoint.as_str(), None),
            query: Vec::new(),
            body: Some(body),
        }
    }

    /// The request that deletes a group.
    pub fn delete_group(&self, group: &str) -> (r: ApiRequest)
        ensures
            r.method == Method::Delete,
            r.url@ == api_url("/groups/"@ + group@, None),
            r.query@.len() == 0,
            r.body is None,
    {
        let mut endpoint = String::from_str("/groups/");
        endpoint.append(group);
        ApiRequest {
            method: Method::Delete,
            url: Yuque::build_api(endpoint.as_str(), None),
            query: Vec::new(),
            body: None,
        }
    }

    /// The request that adds a user to a group, or changes the user's role:
    /// the upsert carries the role code alone.
    pub fn add_group_user(&self, group: &str, user: &str, role: u8) -> (r: ApiRequest)
        ensures
            r.method == Method::Put,
            r.url@ == api_url("/groups/"@ + group@ + "/users/"@ + user@, None),
            r.query@.len() == 0,
            r.body matches Some(b) && b@ == rendered_object(add_group_user_fields(role)),
    {
        let mut endpoint = String::from_str("/groups/");
        endpoint.append(group);
        endpoint.append("/users/");
        endpoint.append(user);
        let mut fields: Vec<JsonField> = Vec::new();
        fields.push(JsonField { key: String::from_str("role"), value: JsonValue::Num(role as u64) });
        proof {
            assert(crate::json::field_models(fields@) =~= add_group_user_fields(role));
        }
        let body = json_object(&fields);
        ApiRequest {
            method: Method::Put,
            url: Yuque::build_api(endpoint.as_str(), None),
            query: Vec::new(),
            body: Some(body),
        }
    }

    /// The request that removes a user from a group.
    pub fn delete_group_user(&self, group: &str, user: &str) -> (r: ApiRequest)
        ensures
            r.method == Method::Delete,
            r.url@ == api_url("/groups/"@ + group@ + "/users/"@ + user@, None),
            r.query@.len() == 0,
            r.body is None,
    {
        let mut endpoint = String::from_str("/groups/");
        endpoint.append(group);
        endpoint.append("/users/");
        endpoint.append(user);
        ApiRequest {
            method: Method::Delete,
            url: Yuque::build_api(endpoint.as_str(), None),
            query: Vec::new(),
            body: None,
        }
    }
}

/// The partial-update law for groups: a transmitted update body carries a
/// field exactly when the caller supplies it, with the supplied value; an
/// unsupplied field is omitted entirely.
pub proof fn lemma_update_group_partial(
    name: Option<Seq<char>>,
    login: Option<Seq<char>>,
    desc: Option<Seq<char>>,
)
    ensures
        name matches Some(n) ==> has_field_val(
            update_group_fields(name, login, desc),
            "name"@,
            ValModel::Str(n),
        ),
        name is None ==> !has_field(update_group_fields(name, login, desc), "name"@),
        login matches Some(l) ==> has_field_val(
            update_group_fields(name, login, desc),
            "login"@,
            ValModel::Str(l),
        ),
        login is None ==> !has_field(update_group_fields(name, login, desc), "login"@),
        desc matches Some(d) ==> has_field_val(
            update_group_fields(name, login, desc),
            "description"@,
            ValModel::Str(d),
        ),
        desc is None ==> !has_field(update_group_fields(name, login, desc), "description"@),
{
    lemma_group_keys_distinct();
    let a = opt_view_field("name"@, name);
    let b = opt_view_field("login"@, login);
    let c = opt_view_field("description"@, desc);
    assert(update_group_fields(name, login, desc) == a + b + c);
    lemma_has_field_concat(a, b, "name"@);
    lemma_has_field_concat(a + b, c, "name"@);
    lemma_has_field_concat(a, b, "login"@);
    lemma_has_field_concat(a + b, c, "login"@);
    lemma_has_field_concat(a, b, "description"@);
    lemma_has_field_concat(a + b, c, "description"@);
    if let Some(n) = name {
        assert(a[0].key == "name"@ && a[0].val == ValModel::Str(n));
        assert(has_field_val(a, "name"@, ValModel::Str(n)));
        lemma_has_field_val_concat(a, b, "name"@, ValModel::Str(n));
        lemma_has_field_val_concat(a + b, c, "name"@, ValModel::Str(n));
    }
    if let Some(l) = login {
        assert(b[0].key == "login"@ && b[0].val == ValModel::Str(l));
        assert(has_field_val(b, "login"@, ValModel::Str(l)));
        lemma_has_field_val_concat(a, b, "login"@, ValModel::Str(l));
        lemma_has_field_val_concat(a + b, c, "login"@, ValModel::Str(l));
    }
    if let Some(d) = desc {
        assert(c[0].key == "description"@ && c[0].val == ValModel::Str(d));
        assert(has_field_val(c, "description"@, ValModel::Str(d)));
        lemma_has_field_val_concat(a, b, "description"@, ValModel::Str(d));
        lemma_has_field_val_concat(a + b, c, "description"@, ValModel::Str(d));
    }
}

/// The three body keys of a group update are pairwise distinct.
proof fn lemma_group_keys_distinct()
    ensures
        "name"@ != "login"@,
        "name"@ != "description"@,
        "login"@ != "description"@,
{
    reveal_strlit("name");
    reveal_strlit("login");
    reveal_strlit("description");
    assert("name"@[0] != "login"@[0]);
    assert("name"@[0] != "description"@[0]);
    assert("login"@[0] != "description"@[0]);
}

} // verus!
