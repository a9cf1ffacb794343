//! Repository ("book") operations: list, get, create, update, delete,
//! scoped under a user or group owner.

use vstd::prelude::*;

use crate::json::{
    has_field, has_field_val, json_object, lemma_has_field_concat, lemma_has_field_val_concat,
    opt_str_field, rendered_object, FieldModel, JsonField, JsonValue, ValModel,
};
use crate::request::{opt_num_param, opt_str_param, opt_u32_view, ApiRequest, Method};
use crate::text::{dec_of, u64_to_string};
use crate::yuque::{api_url, Yuque};

verus! {

/// The kind of owner a repository is scoped under.
#[derive(Clone, Copy, Debug)]
pub enum ObjType {
    Group,
    User,
}

/// The path segment of an owner kind.
pub open spec fn obj_type_name(t: ObjType) -> Seq<char> {
    match t {
        ObjType::Group => "groups"@,
        ObjType::User => "users"@,
    }
}

impl ObjType {
    /// The path segment, as it stands in an endpoint.
    pub fn as_str(&self) -> (r: &'static str)
        ensures
            r@ == obj_type_name(*self),
    {
        match self {
            ObjType::Group => "groups",
            ObjType::User => "users",
        }
    }
}

/// The kind of a repository.
#[derive(Clone, Copy, Debug)]
pub enum RepoType {
    Book,
    Design,
}

/// The wire name of a repository kind.
pub open spec fn repo_type_name(t: RepoType) -> Seq<char> {
    match t {
        RepoType::Book => "Book"@,
        RepoType::Design => "Design"@,
    }
}

impl RepoType {
    /// The wire name, as it travels in queries and bodies.
    pub fn as_str(&self) -> (r: &'static str)
        ensures
            r@ == repo_type_name(*self),
    {
        match self {
            RepoType::Book => "Book",
            RepoType::Design => "Design",
        }
    }
}

/// A repository's visibility.
#[derive(Clone, Copy, Debug)]
pub enum RepoPublic {
    Private,
    Public,
    GroupMember,
    GroupAll,
    RepoMember,
}

/// The numeric code of a visibility.
pub open spec fn public_code(p: RepoPublic) -> u8 {
    match p {
        RepoPublic::Private => 0,
        RepoPublic::Public => 1,
        RepoPublic::GroupMember => 2,
        RepoPublic::GroupAll => 3,
        RepoPublic::RepoMember => 4,
    }
}

impl From<RepoPublic> for u8 {
    /// The numeric code of a visibility.
    fn from(p: RepoPublic) -> (r: u8)
        ensures
            r == public_code(p),
    {
        match p {
            RepoPublic::Private => 0,
            RepoPublic::Public => 1,
            RepoPublic::GroupMember => 2,
            RepoPublic::GroupAll => 3,
            RepoPublic::RepoMember => 4,
        }
    }
}

impl vstd::std_specs::convert::FromSpecImpl<RepoPublic> for u8 {
    open spec fn obeys_from_spec() -> bool {
        true
    }

    open spec fn from_spec(p: RepoPublic) -> u8 {
        public_code(p)
    }
}

impl RepoPublic {
    /// The code as a one-digit string: visibility travels as a string in
    /// request bodies.
    pub fn as_code_str(&self) -> (r: &'static str)
        ensures
            r@ == dec_of(public_code(*self) as nat),
    {
        let r: &'static str = match self {
            RepoPublic::Private => "0",
            RepoPublic::Public => "1",
            RepoPublic::GroupMember => "2",
            RepoPublic::GroupAll => "3",
            RepoPublic::RepoMember => "4",
        };
        proof {
            reveal_strlit("0");
            reveal_strlit("1");
            reveal_strlit("2");
            reveal_strlit("3");
            reveal_strlit("4");
            assert(r@ =~= dec_of(public_code(*self) as nat));
        }
        r
    }
}

/// What a repository creation sends.
#[derive(Clone, Debug)]
pub struct CreateRepoRequest {
    pub name: String,
    pub slug: String,
    pub description: String,
    pub public: RepoPublic,
    pub typ: RepoType,
}

/// What a repository update sends: only the populated fields travel, so the
/// service preserves the rest.
#[derive(Clone, Debug, Default)]
pub struct UpdateRepoRequest {
    pub name: Option<String>,
    pub slug: Option<String>,
    pub description: Option<String>,
    pub public: Option<RepoPublic>,
    pub toc: Option<String>,
}

/// The body fields of a repository creation, in wire order. The visibility
/// code and the kind travel as strings, under the wire key `type`.
pub open spec fn create_repo_fields(req: CreateRepoRequest) -> Seq<FieldModel> {
    seq![
        FieldModel { key: "name"@, val: ValModel::Str(req.name@) },
        FieldModel { key: "slug"@, val: ValModel::Str(req.slug@) },
        FieldModel { key: "description"@, val: ValModel::Str(req.description@) },
        FieldModel { key: "public"@, val: ValModel::Str(dec_of(public_code(req.public) as nat)) },
        FieldModel { key: "type"@, val: ValModel::Str(repo_type_name(req.typ)) },
    ]
}

/// The body fields of a repository update, in wire order: exactly the
/// populated fields.
pub open spec fn update_repo_fields(req: UpdateRepoRequest) -> Seq<FieldModel> {
    opt_str_field("name"@, req.name) + opt_str_field("slug"@, req.slug) + opt_str_field(
        "description"@,
        req.description,
    ) + (match req.public {
        Some(p) => seq![
            FieldModel { key: "public"@, val: ValModel::Str(dec_of(public_code(p) as nat)) },
        ],
        None => Seq::empty(),
    }) + opt_str_field("toc"@, req.toc)
}

impl Yuque {
    /// The request that lists an owner's repositories. The kind filter and
    /// the offset travel as query parameters only when supplied; absent
    /// parameters are omitted entirely.
    pub fn list_repos(
        &self,
        obj_type: ObjType,
        obj: &str,
        repo_type: Option<RepoType>,
        offset: Option<u32>,
    ) -> (r: ApiRequest)
        ensures
            r.method == Method::Get,
            r.url@ == api_url(
                "/"@ + obj_type_name(obj_type) + "/"@ + obj@ + "/repos"@,
                None,
            ),
            r.query_view() == opt_str_param(
                "type"@,
                match repo_type {
                    Some(t) => Some(repo_type_name(t)),
                    None => None,
                },
            ) + opt_num_param("offset"@, opt_u32_view(offset)),
            r.body is None,
            offset is None ==> !r.has_param("offset"@),
    {
        let mut endpoint = String::from_str("/");
        endpoint.append(obj_type.as_str());
        endpoint.append("/");
        endpoint.append(obj);
        endpoint.append("/repos");
        let mut query: Vec<(String, String)> = Vec::new();
        if let Some(t) = &repo_type {
            query.push((String::from_str("type"), String::from_str(t.as_str())));
        }
        if let Some(o) = offset {
            query.push((String::from_str("offset"), u64_to_string(o as u64)));
        }
        let r = ApiRequest {
            method: Method::Get,
            url: Yuque::build_api(endpoint.as_str(), None),
            query,
            body: None,
        };
        proof {
            assert(r.query_view() =~= opt_str_param(
                "type"@,
                match repo_type {
                    Some(t) => Some(repo_type_name(t)),
                    None => None,
                },
            ) + opt_num_param("offset"@, opt_u32_view(offset)));
            reveal_strlit("type");
            reveal_strlit("offset");
            assert("type"@.len() != "offset"@.len());
        }
        r
    }

    /// The request for one repository, by namespace or identifier.
    pub fn get_repo(&self, repo: &str) -> (r: ApiRequest)
        ensures
            r.method == Method::Get,
            r.url@ == api_url("/repos/"@ + repo@, None),
            r.query@.len() == 0,
            r.body is None,
    {
        let mut endpoint = String::from_str("/repos/");
        endpoint.append(repo);
        ApiRequest {
            method: Method::Get,
            url: Yuque::build_api(endpoint.as_str(), None),
            query: Vec::new(),
            body: None,
        }
    }

    /// The request that deletes a repository.
    pub fn delete_repo(&self, repo: &str) -> (r: ApiRequest)
        ensures
            r.method == Method::Delete,
            r.url@ == api_url("/repos/"@ + repo@, None),
            r.query@.len() == 0,
            r.body is None,
    {
        let mut endpoint = String::from_str("/repos/");
        endpoint.append(repo);
        ApiRequest {
            method: Method::Delete,
            url: Yuque::build_api(endpoint.as_str(), None),
            query: Vec::new(),
            body: None,
        }
    }

    /// The request that creates a repository under an owner.
    pub fn create_repo(&self, obj_type: ObjType, obj: &str, req: &CreateRepoRequest) -> (r:
        ApiRequest)
        ensures
            r.method == Method::Post,
            r.url@ == api_url(
                "/"@ + obj_type_name(obj_type) + "/"@ + obj@ + "/repos"@,
                None,
            ),
            r.query@.len() == 0,
            r.body matches Some(b) && b@ == rendered_object(create_repo_fields(*req)),
    {
        let mut endpoint = String::from_str("/");
        endpoint.append(obj_type.as_str());
        endpoint.append("/");
        endpoint.append(obj);
        endpoint.append("/repos");
        let mut fields: Vec<JsonField> = Vec::new();
        fields.push(
            JsonField { key: String::from_str("name"), value: JsonValue::Str(req.name.clone()) },
        );
        fields.push(
            JsonField { key: String::from_str("slug"), value: JsonValue::Str(req.slug.clone()) },
        );
        fields.push(
            JsonField {
                key: String::from_str("description"),
                value: JsonValue::Str(req.description.clone()),
            },
        );
        fields.push(
            JsonField {
                key: String::from_str("public"),
                value: JsonValue::Str(String::from_str(req.public.as_code_str())),
            },
        );
        fields.push(
            JsonField {
                key: String::from_str("type"),
                value: JsonValue::Str(String::from_str(req.typ.as_str())),
            },
        );
        proof {
            assert(crate::json::field_models(fields@) =~= create_repo_fields(*req));
        }
        let body = json_object(&fields);
        ApiRequest {
            method: Method::Post,
            url: Yuque::build_api(endpoint.as_str(), None),
            query: Vec::new(),
            body: Some(body),
        }
    }

    /// The request that updates a repository. Only the populated fields
    /// travel.
    pub fn update_repo(&self, repo: &str, req: &UpdateRepoRequest) -> (r: ApiRequest)
        ensures
            r.method == Method::Put,
            r.url@ == api_url("/repos/"@ + repo@, None),
            r.query@.len() == 0,
            r.body matches Some(b) && b@ == rendered_object(update_repo_fields(*req)),
    {
        let mut endpoint = String::from_str("/repos/");
        endpoint.append(repo);
        let mut fields: Vec<JsonField> = Vec::new();
        if let Some(name) = &req.name {
            fields.push(
                JsonField { key: String::from_str("name"), value: JsonValue::Str(name.clone()) },
            );
        }
        if let Some(slug) = &req.slug {
            fields.push(
                JsonField { key: String::from_str("slug"), value: JsonValue::Str(slug.clone()) },
            );
        }
        if let Some(description) = &req.description {
            fields.push(
                JsonField {
                    key: String::from_str("description"),
                    value: JsonValue::Str(description.clone()),
                },
            );
        }
        if let Some(p) = &req.public {
            fields.push(
                JsonField {
                    key: String::from_str("public"),
                    value: JsonValue::Str(String::from_str(p.as_code_str())),
                },
            );
        }
        if let Some(toc) = &req.toc {
            fields.push(
                JsonField { key: String::from_str("toc"), value: JsonValue::Str(toc.clone()) },
            );
        }
        proof {
            assert(crate::json::field_models(fields@) =~= update_repo_fields(*req));
        }
        let body = json_object(&fields);
        ApiRequest {
            method: Method::Put,
            url: Yuque::build_api(endpoint.as_str(), None),
            query: Vec::new(),
            body: Some(body),
        }
    }
}

/// The partial-update law for repositories: a transmitted update body
/// carries a field exactly when the request populates it, with the populated
/// value; an unpopulated field is omitted entirely.
pub proof fn lemma_update_repo_partial(req: UpdateRepoRequest)
    ensures
        req.name matches Some(n) ==> has_field_val(
            update_repo_fields(req),
            "name"@,
            ValModel::Str(n@),
        ),
        req.name is None ==> !has_field(update_repo_fields(req), "name"@),
        req.slug matches Some(s) ==> has_field_val(
            update_repo_fields(req),
            "slug"@,
            ValModel::Str(s@),
        ),
        req.slug is None ==> !has_field(update_repo_fields(req), "slug"@),
        req.description matches Some(d) ==> has_field_val(
            update_repo_fields(req),
            "description"@,
            ValModel::Str(d@),
        ),
        req.description is None ==> !has_field(update_repo_fields(req), "description"@),
        req.public matches Some(p) ==> has_field_val(
            update_repo_fields(req),
            "public"@,
            ValModel::Str(dec_of(public_code(p) as nat)),
        ),
        req.public is None ==> !has_field(update_repo_fields(req), "public"@),
        req.toc matches Some(t) ==> has_field_val(
            update_repo_fields(req),
            "toc"@,
            ValModel::Str(t@),
        ),
        req.toc is None ==> !has_field(update_repo_fields(req), "toc"@),
{
    lemma_repo_keys_distinct();
    let a = opt_str_field("name"@, req.name);
    let b = opt_str_field("slug"@, req.slug);
    let c = opt_str_field("description"@, req.description);
    let d = match req.public {
        Some(p) => seq![
            FieldModel { key: "public"@, val: ValModel::Str(dec_of(public_code(p) as nat)) },
        ],
        None => Seq::<FieldModel>::empty(),
    };
    let e = opt_str_field("toc"@, req.toc);
    assert(update_repo_fields(req) == a + b + c + d + e);
    lemma_field_concat_all(a, b, c, d, e, "name"@);
    lemma_field_concat_all(a, b, c, d, e, "slug"@);
    lemma_field_concat_all(a, b, c, d, e, "description"@);
    lemma_field_concat_all(a, b, c, d, e, "public"@);
    lemma_field_concat_all(a, b, c, d, e, "toc"@);
    if let Some(n) = req.name {
        assert(a[0].key == "name"@ && a[0].val == ValModel::Str(n@));
        assert(has_field_val(a, "name"@, ValModel::Str(n@)));
        lemma_field_val_concat_all(a, b, c, d, e, "name"@, ValModel::Str(n@));
    }
    if let Some(s) = req.slug {
        assert(b[0].key == "slug"@ && b[0].val == ValModel::Str(s@));
        assert(has_field_val(b, "slug"@, ValModel::Str(s@)));
        lemma_field_val_concat_all(a, b, c, d, e, "slug"@, ValModel::Str(s@));
    }
    if let Some(dd) = req.description {
        assert(c[0].key == "description"@ && c[0].val == ValModel::Str(dd@));
        assert(has_field_val(c, "description"@, ValModel::Str(dd@)));
        lemma_field_val_concat_all(a, b, c, d, e, "description"@, ValModel::Str(dd@));
    }
    if let Some(p) = req.public {
        assert(d[0].key == "public"@ && d[0].val == ValModel::Str(dec_of(public_code(p) as nat)));
        assert(has_field_val(d, "public"@, ValModel::Str(dec_of(public_code(p) as nat))));
        lemma_field_val_concat_all(
            a,
            b,
            c,
            d,
            e,
            "public"@,
            ValModel::Str(dec_of(public_code(p) as nat)),
        );
    }
    if let Some(t) = req.toc {
        assert(e[0].key == "toc"@ && e[0].val == ValModel::Str(t@));
        assert(has_field_val(e, "toc"@, ValModel::Str(t@)));
        lemma_field_val_concat_all(a, b, c, d, e, "toc"@, ValModel::Str(t@));
    }
}

/// Key membership over the five-way concatenation of an update body.
proof fn lemma_field_concat_all(
    a: Seq<FieldModel>,
    b: Seq<FieldModel>,
    c: Seq<FieldModel>,
    d: Seq<FieldModel>,
    e: Seq<FieldModel>,
    key: Seq<char>,
)
    ensures
        has_field(a + b + c + d + e, key) == (has_field(a, key) || has_field(b, key) || has_field(
            c,
            key,
        ) || has_field(d, key) || has_field(e, key)),
{
    lemma_has_field_concat(a, b, key);
    lemma_has_field_concat(a + b, c, key);
    lemma_has_field_concat(a + b + c, d, key);
    lemma_has_field_concat(a + b + c + d, e, key);
}

/// Key-and-value membership over the five-way concatenation of an update
/// body.
proof fn lemma_field_val_concat_all(
    a: Seq<FieldModel>,
    b: Seq<FieldModel>,
    c: Seq<FieldModel>,
    d: Seq<FieldModel>,
    e: Seq<FieldModel>,
    key: Seq<char>,
    v: ValModel,
)
    ensures
        has_field_val(a + b + c + d + e, key, v) == (has_field_val(a, key, v) || has_field_val(
            b,
            key,
            v,
        ) || has_field_val(c, key, v) || has_field_val(d, key, v) || has_field_val(e, key, v)),
{
    lemma_has_field_val_concat(a, b, key, v);
    lemma_has_field_val_concat(a + b, c, key, v);
    lemma_has_field_val_concat(a + b + c, d, key, v);
    lemma_has_field_val_concat(a + b + c + d, e, key, v);
}

/// The five body keys of a repository update are pairwise distinct.
proof fn lemma_repo_keys_distinct()
    ensures
        "name"@ != "slug"@,
        "name"@ != "description"@,
        "name"@ != "public"@,
        "name"@ != "toc"@,
        "slug"@ != "description"@,
        "slug"@ != "public"@,
        "slug"@ != "toc"@,
        "description"@ != "public"@,
        "description"@ != "toc"@,
        "public"@ != "toc"@,
{
    reveal_strlit("name");
    reveal_strlit("slug");
    reveal_strlit("description");
    reveal_strlit("public");
    reveal_strlit("toc");
    assert("name"@[0] != "slug"@[0]);
    assert("name"@[0] != "description"@[0]);
    assert("name"@[0] != "public"@[0]);
    assert("name"@[0] != "toc"@[0]);
    assert("slug"@[0] != "description"@[0]);
    assert("slug"@[0] != "public"@[0]);
    assert("slug"@[0] != "toc"@[0]);
    assert("description"@[0] != "public"@[0]);
    assert("description"@[0] != "toc"@[0]);
    assert("public"@[0] != "toc"@[0]);
}

} // verus!
