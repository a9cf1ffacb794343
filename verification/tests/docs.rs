use yuque::doc::{CreateDocRequest, DocFormat, UpdateDocRequest};
use yuque::request::Method;
use yuque::yuque::Yuque;

fn client() -> Yuque {
    Yuque::new("t".to_string()).unwrap()
}

fn pairs(q: &[(String, String)]) -> Vec<(&str, &str)> {
    q.iter().map(|(k, v)| (k.as_str(), v.as_str())).collect()
}

#[test]
fn test_list_docs_full_query() {
    let r = client().list_docs(
        "k8scat/programming",
        Some(10),
        Some(5),
        Some(vec!["hits".to_string(), "tags".to_string()]),
    );
    assert_eq!(r.method, Method::Get);
    assert_eq!(r.url, "https://www.yuque.com/api/v2/repos/k8scat/programming/docs");
    assert_eq!(
        pairs(&r.query),
        vec![("offset", "10"), ("limit", "5"), ("optional_properties", "hits,tags")]
    );
    assert!(r.body.is_none());
}

#[test]
fn test_list_docs_omits_absent_pagination() {
    let r = client().list_docs("k8scat/programming", None, None, Some(vec!["hits".to_string()]));
    assert_eq!(pairs(&r.query), vec![("optional_properties", "hits")]);
    let r = client().list_docs("k8scat/programming", None, None, None);
    assert!(r.query.is_empty());
}

#[test]
fn test_get_doc_raw_flag() {
    let r = client().get_doc("k8scat/opensource", "yuque", Some(true));
    assert_eq!(r.url, "https://www.yuque.com/api/v2/repos/k8scat/opensource/docs/yuque");
    assert_eq!(pairs(&r.query), vec![("raw", "1")]);
    let r = client().get_doc("k8scat/opensource", "yuque", Some(false));
    assert!(r.query.is_empty());
    let r = client().get_doc("k8scat/opensource", "yuque", None);
    assert!(r.query.is_empty());
}

#[test]
fn test_create_doc_body() {
    let req = CreateDocRequest {
        title: "t1".to_string(),
        slug: "s1".to_string(),
        body: "# Hello World".to_string(),
        ..CreateDocRequest::default()
    };
    let r = client().create_doc("k8scat/opensource", &req);
    assert_eq!(r.method, Method::Post);
    assert_eq!(r.url, "https://www.yuque.com/api/v2/repos/k8scat/opensource/docs");
    assert_eq!(
        r.body.as_deref(),
        Some("{\"title\":\"t1\",\"slug\":\"s1\",\"body\":\"# Hello World\"}")
    );
}

#[test]
fn test_create_doc_body_with_format() {
    let req = CreateDocRequest {
        title: "t".to_string(),
        slug: "s".to_string(),
        format: Some(DocFormat::Markdown),
        body: "b".to_string(),
    };
    let r = client().create_doc("o/r", &req);
    assert_eq!(
        r.body.as_deref(),
        Some("{\"title\":\"t\",\"slug\":\"s\",\"format\":\"markdown\",\"body\":\"b\"}")
    );
}

#[test]
fn test_doc_format_names() {
    assert_eq!(DocFormat::Markdown.as_str(), "markdown");
    assert_eq!(DocFormat::Lake.as_str(), "lake");
    assert_eq!(DocFormat::Html.as_str(), "html");
}

#[test]
fn test_update_doc_partial_body() {
    let mut req = UpdateDocRequest {
        title: Some("new title".to_string()),
        ..UpdateDocRequest::default()
    };
    let r = client().update_doc("o/r", 42, &mut req);
    assert_eq!(r.method, Method::Put);
    assert_eq!(r.url, "https://www.yuque.com/api/v2/repos/o/r/docs/42");
    assert_eq!(r.body.as_deref(), Some("{\"title\":\"new title\"}"));
}

#[test]
fn test_update_doc_force_positive_becomes_one() {
    let mut req = UpdateDocRequest {
        body: Some("# Updated".to_string()),
        _force_asl: Some(7),
        ..UpdateDocRequest::default()
    };
    let r = client().update_doc("o/r", 1, &mut req);
    assert_eq!(req._force_asl, Some(1));
    assert_eq!(r.body.as_deref(), Some("{\"body\":\"# Updated\",\"_force_asl\":1}"));
}

#[test]
fn test_update_doc_force_zero_is_omitted() {
    let mut req = UpdateDocRequest {
        body: Some("x".to_string()),
        _force_asl: Some(0),
        ..UpdateDocRequest::default()
    };
    let r = client().update_doc("o/r", 1, &mut req);
    assert_eq!(req._force_asl, None);
    assert_eq!(r.body.as_deref(), Some("{\"body\":\"x\"}"));
}

#[test]
fn test_update_doc_force_absent_stays_absent() {
    let mut req = UpdateDocRequest {
        slug: Some("s2".to_string()),
        ..UpdateDocRequest::default()
    };
    let r = client().update_doc("o/r", 1, &mut req);
    assert_eq!(req._force_asl, None);
    assert_eq!(r.body.as_deref(), Some("{\"slug\":\"s2\"}"));
}

#[test]
fn test_delete_doc_request() {
    let r = client().delete_doc("k8scat/opensource", 123456);
    assert_eq!(r.method, Method::Delete);
    assert_eq!(r.url, "https://www.yuque.com/api/v2/repos/k8scat/opensource/docs/123456");
    assert!(r.query.is_empty());
    assert!(r.body.is_none());
}

#[test]
fn test_body_escaping() {
    let req = CreateDocRequest {
        title: "a\"b".to_string(),
        slug: "s\\t".to_string(),
        body: "line1\nline2\ttab\r\u{1}".to_string(),
        ..CreateDocRequest::default()
    };
    let r = client().create_doc("o/r", &req);
    assert_eq!(
        r.body.as_deref(),
        Some(
            "{\"title\":\"a\\\"b\",\"slug\":\"s\\\\t\",\"body\":\"line1\\nline2\\ttab\\r\\u0001\"}"
        )
    );
}
