//! Document operations: list, get, create, update, delete.

use vstd::prelude::*;

use crate::json::{
    has_field, has_field_val, json_object, lemma_has_field_concat, lemma_has_field_val_concat,
    opt_str_field, rendered_object,
    FieldModel, JsonField, JsonValue, ValModel,
};
use crate::request::{
    opt_num_param, opt_str_param, opt_u32_view, opt_u8_view, push_pagination,
    ApiRequest, Method,
};
use crate::text::{dec_of, join_comma, join_with_commas, str_views, u64_to_string};
use crate::yuque::{api_url, Yuque};

verus! {

/// The representation a document body is written in.
#[derive(Clone, Copy, Debug)]
pub enum DocFormat {
    Markdown,
    Lake,
    Html,
}

/// The wire name of a document format.
pub open spec fn format_name(f: DocFormat) -> Seq<char> {
    match f {
        DocFormat::Markdown => "markdown"@,
        DocFormat::Lake => "lake"@,
        DocFormat::Html => "html"@,
    }
}

impl DocFormat {
    /// The wire name, as the service expects it in a request body.
    pub fn as_str(&self) -> (r: &'static str)
        ensures
            r@ == format_name(*self),
    {
        match self {
            DocFormat::Markdown => "markdown",
            DocFormat::Lake => "lake",
            DocFormat::Html => "html",
        }
    }
}

/// What a document creation sends: title, slug, body, and optionally the
/// format the body is written in.
#[derive(Clone, Debug, Default)]
pub struct CreateDocRequest {
    pub title: String,
    pub slug: String,
    pub format: Option<DocFormat>,
    pub body: String,
}

/// What a document update sends: only the populated fields travel, so the
/// service preserves the rest. `_force_asl` is a remote-service compatibility
/// shim; see [`normalized_force`].
#[derive(Clone, Debug, Default)]
pub struct UpdateDocRequest {
    pub title: Option<String>,
    pub slug: Option<String>,
    pub body: Option<String>,
    pub _force_asl: Option<u8>,
}

/// The body fields of a document creation, in wire order.
pub open spec fn create_doc_fields(req: CreateDocRequest) -> Seq<FieldModel> {
    seq![
        FieldModel { key: "title"@, val: ValModel::Str(req.title@) },
        FieldModel { key: "slug"@, val: ValModel::Str(req.slug@) },
    ] + (match req.format {
        Some(f) => seq![FieldModel { key: "format"@, val: ValModel::Str(format_name(f)) }],
        None => Seq::empty(),
    }) + seq![FieldModel { key: "body"@, val: ValModel::Str(req.body@) }]
}

/// The body fields of a document update, in wire order: exactly the
/// populated fields of the (already normalized) request.
pub open spec fn update_doc_fields(req: UpdateDocRequest) -> Seq<FieldModel> {
    opt_str_field("title"@, req.title) + opt_str_field("slug"@, req.slug) + opt_str_field(
        "body"@,
        req.body,
    ) + (match req._force_asl {
        Some(f) => seq![FieldModel { key: "_force_asl"@, val: ValModel::Num(f as nat) }],
        None => Seq::empty(),
    })
}

/// The "force" flag as it is transmitted: any positive value becomes exactly
/// 1, zero or absent is dropped entirely.
pub open spec fn normalized_force(f: Option<u8>) -> Option<u8> {
    match f {
        Some(v) => if v > 0 {
            Some(1u8)
        } else {
            None
        },
        None => None,
    }
}

/// The view of the optional requested-properties list, joined with commas as
/// it travels in the query string.
pub open spec fn opt_props_view(props: Option<Vec<String>>) -> Option<Seq<char>> {
    match props {
        Some(ps) => Some(join_comma(str_views(ps@))),
        None => None,
    }
}

impl Yuque {
    /// The request that lists the documents of a repository. Pagination and
    /// the requested-properties filter travel as query parameters only when
    /// supplied; absent parameters are omitted entirely.
    pub fn list_docs(
        &self,
        repo: &str,
        offset: Option<u32>,
        limit: Option<u8>,
        optional_properties: Option<Vec<String>>,
    ) -> (r: ApiRequest)
        ensures
            r.method == Method::Get,
            r.url@ == api_url("/repos/"@ + repo@ + "/docs"@, None),
            r.query_view() == opt_num_param("offset"@, opt_u32_view(offset)) + opt_num_param(
                "limit"@,
                opt_u8_view(limit),
            ) + opt_str_param("optional_properties"@, opt_props_view(optional_properties)),
            r.body is None,
            offset is None ==> !r.has_param("offset"@),
            limit is None ==> !r.has_param("limit"@),
    {
        let mut endpoint = String::from_str("/repos/");
        endpoint.append(repo);
        endpoint.append("/docs");
        let mut query: Vec<(String, String)> = Vec::new();
        push_pagination(&mut query, offset, limit);
        if let Some(props) = &optional_properties {
            query.push((String::from_str("optional_properties"), join_with_commas(props)));
        }
        let r = ApiRequest {
            method: Method::Get,
            url: Yuque::build_api(endpoint.as_str(), None),
            query,
            body: None,
        };
        proof {
            assert(r.query_view() =~= opt_num_param("offset"@, opt_u32_view(offset))
                + opt_num_param("limit"@, opt_u8_view(limit)) + opt_str_param(
                "optional_properties"@,
                opt_props_view(optional_properties),
            ));
            reveal_strlit("offset");
            reveal_strlit("limit");
            reveal_strlit("optional_properties");
            assert("optional_properties"@.len() != "offset"@.len());
            assert("optional_properties"@.len() != "limit"@.len());
        }
        r
    }

    /// The request for one document, by slug or identifier. With
    /// `raw == Some(true)` the service returns unrendered source; otherwise
    /// no query parameter travels.
    pub fn get_doc(&self, repo: &str, doc: &str, raw: Option<bool>) -> (r: ApiRequest)
        ensures
            r.method == Method::Get,
            r.url@ == api_url("/repos/"@ + repo@ + "/docs/"@ + doc@, None),
            r.query_view() == opt_num_param(
                "raw"@,
                if raw == Some(true) {
                    Some(1 as nat)
                } else {
                    None
                },
            ),
            r.body is None,
    {
        let mut endpoint = String::from_str("/repos/");
        endpoint.append(repo);
        endpoint.append("/docs/");
        endpoint.append(doc);
        let mut query: Vec<(String, String)> = Vec::new();
        if let Some(true) = raw {
            query.push((String::from_str("raw"), u64_to_string(1)));
        }
        let r = ApiRequest {
            method: Method::Get,
            url: Yuque::build_api(endpoint.as_str(), None),
            query,
            body: None,
        };
        proof {
            assert(r.query_view() =~= opt_num_param(
                "raw"@,
                if raw == Some(true) {
                    Some(1 as nat)
                } else {
                    None
                },
            ));
        }
        r
    }

    /// The request that creates a document in a repository. The body carries
    /// the title, the slug, the format where one was chosen, and the content.
    pub fn create_doc(&self, repo: &str, req: &CreateDocRequest) -> (r: ApiRequest)
        ensures
            r.method == Method::Post,
            r.url@ == api_url("/repos/"@ + repo@ + "/docs"@, None),
            r.query@.len() == 0,
            r.body matches Some(b) && b@ == rendered_object(create_doc_fields(*req)),
    {
        let mut endpoint = String::from_str("/repos/");
        endpoint.append(repo);
        endpoint.append("/docs");
        let mut fields: Vec<JsonField> = Vec::new();
        fields.push(
            JsonField { key: String::from_str("title"), value: JsonValue::Str(req.title.clone()) },
        );
        fields.push(
            JsonField { key: String::from_str("slug"), value: JsonValue::Str(req.slug.clone()) },
        );
        if let Some(f) = &req.format {
            fields.push(
                JsonField {
                    key: String::from_str("format"),
                    value: JsonValue::Str(String::from_str(f.as_str())),
                },
            );
        }
        fields.push(
            JsonField { key: String::from_str("body"), value: JsonValue::Str(req.body.clone()) },
        );
        proof {
            assert(crate::json::field_models(fields@) =~= create_doc_fields(*req));
        }
        let body = json_object(&fields);
        ApiRequest {
            method: Method::Post,
            url: Yuque::build_api(endpoint.as_str(), None),
            query: Vec::new(),
            body: Some(body),
        }
    }

    /// The request that deletes a document by identifier.
    pub fn delete_doc(&self, repo: &str, doc_id: u32) -> (r: ApiRequest)
        ensures
            r.method == Method::Delete,
            r.url@ == api_url("/repos/"@ + repo@ + "/docs/"@ + dec_of(doc_id as nat), None),
            r.query@.len() == 0,
            r.body is None,
    {
        let mut endpoint = String::from_str("/repos/");
        endpoint.append(repo);
        endpoint.append("/docs/");
        endpoint.append(u64_to_string(doc_id as u64).as_str());
        ApiRequest {
            method: Method::Delete,
            url: Yuque::build_api(endpoint.as_str(), None),
            query: Vec::new(),
            body: None,
        }
    }

    /// The request that updates a document by identifier. Only the populated
    /// fields travel. The `_force_asl` flag is first normalized in place: any
    /// positive value becomes exactly 1, zero or absent is dropped, and the
    /// transmitted body reflects the normalized flag.
    pub fn update_doc(&self, repo: &str, doc_id: u32, req: &mut UpdateDocRequest) -> (r:
        ApiRequest)
        ensures
            r.method == Method::Put,
            r.url@ == api_url("/repos/"@ + repo@ + "/docs/"@ + dec_of(doc_id as nat), None),
            r.query@.len() == 0,
            final(req).title == old(req).title,
            final(req).slug == old(req).slug,
            final(req).body == old(req).body,
            final(req)._force_asl == normalized_force(old(req)._force_asl),
            r.body matches Some(b) && b@ == rendered_object(update_doc_fields(*final(req))),
    {
        let mut endpoint = String::from_str("/repos/");
        endpoint.append(repo);
        endpoint.append("/docs/");
        endpoint.append(u64_to_string(doc_id as u64).as_str());
        if let Some(force) = req._force_asl {
            if force > 0 {
                req._force_asl = Some(1);
            } else {
                req._force_asl = None;
            }
        }
        let mut fields: Vec<JsonField> = Vec::new();
        if let Some(title) = &req.title {
            fields.push(
                JsonField { key: String::from_str("title"), value: JsonValue::Str(title.clone()) },
            );
        }
        if let Some(slug) = &req.slug {
            fields.push(
                JsonField { key: String::from_str("slug"), value: JsonValue::Str(slug.clone()) },
            );
        }
        if let Some(body) = &req.body {
            fields.push(
                JsonField { key: String::from_str("body"), value: JsonValue::Str(body.clone()) },
            );
        }
        if let Some(force) = req._force_asl {
            fields.push(
                JsonField {
                    key: String::from_str("_force_asl"),
                    value: JsonValue::Num(force as u64),
                },
            );
        }
        proof {
            assert(crate::json::field_models(fields@) =~= update_doc_fields(*req));
        }
        let body = json_object(&fields);
        ApiRequest {
            method: Method::Put,
            url: Yuque::build_api(endpoint.as_str(), None),
            query: Vec::new(),
            body: Some(body),
        }
    }
}

/// The partial-update law for documents: a transmitted update body carries a
/// field exactly when the request populates it, with the populated value; an
/// unpopulated field is omitted entirely.
pub proof fn lemma_update_doc_partial(req: UpdateDocRequest)
    ensures
        req.title matches Some(t) ==> has_field_val(
            update_doc_fields(req),
            "title"@,
            ValModel::Str(t@),
        ),
        req.title is None ==> !has_field(update_doc_fields(req), "title"@),
        req.slug matches Some(s) ==> has_field_val(
            update_doc_fields(req),
            "slug"@,
            ValModel::Str(s@),
        ),
        req.slug is None ==> !has_field(update_doc_fields(req), "slug"@),
        req.body matches Some(b) ==> has_field_val(
            update_doc_fields(req),
            "body"@,
            ValModel::Str(b@),
        ),
        req.body is None ==> !has_field(update_doc_fields(req), "body"@),
{
    lemma_doc_keys_distinct();
    let a = opt_str_field("title"@, req.title);
    let b = opt_str_field("slug"@, req.slug);
    let c = opt_str_field("body"@, req.body);
    let d = match req._force_asl {
        Some(f) => seq![FieldModel { key: "_force_asl"@, val: ValModel::Num(f as nat) }],
        None => Seq::<FieldModel>::empty(),
    };
    assert(update_doc_fields(req) == a + b + c + d);
    lemma_has_field_concat(a, b, "title"@);
    lemma_has_field_concat(a + b, c, "title"@);
    lemma_has_field_concat(a + b + c, d, "title"@);
    lemma_has_field_concat(a, b, "slug"@);
    lemma_has_field_concat(a + b, c, "slug"@);
    lemma_has_field_concat(a + b + c, d, "slug"@);
    lemma_has_field_concat(a, b, "body"@);
    lemma_has_field_concat(a + b, c, "body"@);
    lemma_has_field_concat(a + b + c, d, "body"@);
    if let Some(t) = req.title {
        assert(a[0].key == "title"@ && a[0].val == ValModel::Str(t@));
        assert(has_field_val(a, "title"@, ValModel::Str(t@)));
        lemma_has_field_val_concat(a, b, "title"@, ValModel::Str(t@));
        lemma_has_field_val_concat(a + b, c, "title"@, ValModel::Str(t@));
        lemma_has_field_val_concat(a + b + c, d, "title"@, ValModel::Str(t@));
    }
    if let Some(s) = req.slug {
        assert(b[0].key == "slug"@ && b[0].val == ValModel::Str(s@));
        assert(has_field_val(b, "slug"@, ValModel::Str(s@)));
        lemma_has_field_val_concat(a, b, "slug"@, ValModel::Str(s@));
        lemma_has_field_val_concat(a + b, c, "slug"@, ValModel::Str(s@));
        lemma_has_field_val_concat(a + b + c, d, "slug"@, ValModel::Str(s@));
    }
    if let Some(bd) = req.body {
        assert(c[0].key == "body"@ && c[0].val == ValModel::Str(bd@));
        assert(has_field_val(c, "body"@, ValModel::Str(bd@)));
        lemma_has_field_val_concat(a, b, "body"@, ValModel::Str(bd@));
        lemma_has_field_val_concat(a + b, c, "body"@, ValModel::Str(bd@));
        lemma_has_field_val_concat(a + b + c, d, "body"@, ValModel::Str(bd@));
    }
}

/// The force-flag law: after normalization the transmitted body carries
/// `_force_asl` with the number 1 exactly when the caller supplied a positive
/// value, and no such field at all when the caller supplied zero or nothing.
pub proof fn lemma_update_doc_force_flag(req: UpdateDocRequest, sent: UpdateDocRequest)
    requires
        sent.title == req.title,
        sent.slug == req.slug,
        sent.body == req.body,
        sent._force_asl == normalized_force(req._force_asl),
    ensures
        (req._force_asl matches Some(v) && v > 0) ==> has_field_val(
            update_doc_fields(sent),
            "_force_asl"@,
            ValModel::Num(1),
        ),
        !(req._force_asl matches Some(v) && v > 0) ==> !has_field(
            update_doc_fields(sent),
            "_force_asl"@,
        ),
{
    lemma_doc_keys_distinct();
    let a = opt_str_field("title"@, sent.title);
    let b = opt_str_field("slug"@, sent.slug);
    let c = opt_str_field("body"@, sent.body);
    let d = match sent._force_asl {
        Some(f) => seq![FieldModel { key: "_force_asl"@, val: ValModel::Num(f as nat) }],
        None => Seq::<FieldModel>::empty(),
    };
    assert(update_doc_fields(sent) == a + b + c + d);
    lemma_has_field_concat(a, b, "_force_asl"@);
    lemma_has_field_concat(a + b, c, "_force_asl"@);
    lemma_has_field_concat(a + b + c, d, "_force_asl"@);
    if sent._force_asl == Some(1u8) {
        assert(d[0].key == "_force_asl"@ && d[0].val == ValModel::Num(1));
        assert(has_field_val(d, "_force_asl"@, ValModel::Num(1)));
        lemma_has_field_val_concat(a, b, "_force_asl"@, ValModel::Num(1));
        lemma_has_field_val_concat(a + b, c, "_force_asl"@, ValModel::Num(1));
        lemma_has_field_val_concat(a + b + c, d, "_force_asl"@, ValModel::Num(1));
    }
}

/// The four body keys of a document update are pairwise distinct.
proof fn lemma_doc_keys_distinct()
    ensures
        "title"@ != "slug"@,
        "title"@ != "body"@,
        "title"@ != "_force_asl"@,
        "slug"@ != "body"@,
        "slug"@ != "_force_asl"@,
        "body"@ != "_force_asl"@,
{
    reveal_strlit("title");
    reveal_strlit("slug");
    reveal_strlit("body");
    reveal_strlit("_force_asl");
    assert("slug"@[0] != "body"@[0]);
    assert("title"@[0] != "slug"@[0]);
    assert("title"@[0] != "body"@[0]);
    assert("title"@[0] != "_force_asl"@[0]);
    assert("slug"@[0] != "_force_asl"@[0]);
    assert("body"@[0] != "_force_asl"@[0]);
}

} // verus!
