use yuque::repo::{CreateRepoRequest, ObjType, RepoPublic, RepoType, UpdateRepoRequest};
use yuque::request::Method;
use yuque::yuque::Yuque;

fn client() -> Yuque {
    Yuque::new("t".to_string()).unwrap()
}

fn pairs(q: &[(String, String)]) -> Vec<(&str, &str)> {
    q.iter().map(|(k, v)| (k.as_str(), v.as_str())).collect()
}

#[test]
fn test_list_repos_for_user_with_filters() {
    let r = client().list_repos(ObjType::User, "k8scat", Some(RepoType::Book), Some(20));
    assert_eq!(r.method, Method::Get);
    assert_eq!(r.url, "https://www.yuque.com/api/v2/users/k8scat/repos");
    assert_eq!(pairs(&r.query), vec![("type", "Book"), ("offset", "20")]);
    assert!(r.body.is_none());
}

#[test]
fn test_list_repos_for_group_omits_absent_filters() {
    let r = client().list_repos(ObjType::Group, "huayin", None, None);
    assert_eq!(r.url, "https://www.yuque.com/api/v2/groups/huayin/repos");
    assert!(r.query.is_empty());
}

#[test]
fn test_get_repo_request() {
    let r = client().get_repo("k8scat/programming");
    assert_eq!(r.method, Method::Get);
    assert_eq!(r.url, "https://www.yuque.com/api/v2/repos/k8scat/programming");
    assert!(r.query.is_empty());
    assert!(r.body.is_none());
}

#[test]
fn test_delete_repo_request() {
    let r = client().delete_repo("123");
    assert_eq!(r.method, Method::Delete);
    assert_eq!(r.url, "https://www.yuque.com/api/v2/repos/123");
}

#[test]
fn test_create_repo_body() {
    let req = CreateRepoRequest {
        name: "n1".to_string(),
        slug: "s1".to_string(),
        description: "d1".to_string(),
        public: RepoPublic::Private,
        typ: RepoType::Book,
    };
    let r = client().create_repo(ObjType::User, "k8scat", &req);
    assert_eq!(r.method, Method::Post);
    assert_eq!(r.url, "https://www.yuque.com/api/v2/users/k8scat/repos");
    assert_eq!(
        r.body.as_deref(),
        Some(
            "{\"name\":\"n1\",\"slug\":\"s1\",\"description\":\"d1\",\"public\":\"0\",\"type\":\"Book\"}"
        )
    );
}

#[test]
fn test_update_repo_partial_body() {
    let req = UpdateRepoRequest {
        name: Some("n2".to_string()),
        public: Some(RepoPublic::Public),
        ..UpdateRepoRequest::default()
    };
    let r = client().update_repo("42", &req);
    assert_eq!(r.method, Method::Put);
    assert_eq!(r.url, "https://www.yuque.com/api/v2/repos/42");
    assert_eq!(r.body.as_deref(), Some("{\"name\":\"n2\",\"public\":\"1\"}"));
}

#[test]
fn test_update_repo_empty_body() {
    let req = UpdateRepoRequest::default();
    let r = client().update_repo("42", &req);
    assert_eq!(r.body.as_deref(), Some("{}"));
}

#[test]
fn test_repo_public_codes() {
    let p: u8 = RepoPublic::Private.into();
    assert_eq!(p, 0);
    let p: u8 = RepoPublic::Public.into();
    assert_eq!(p, 1);
    assert_eq!(u8::from(RepoPublic::GroupMember), 2);
    assert_eq!(u8::from(RepoPublic::GroupAll), 3);
    assert_eq!(u8::from(RepoPublic::RepoMember), 4);
    assert_eq!(RepoPublic::GroupAll.as_code_str(), "3");
}

#[test]
fn test_wire_names() {
    assert_eq!(ObjType::Group.as_str(), "groups");
    assert_eq!(ObjType::User.as_str(), "users");
    assert_eq!(RepoType::Book.as_str(), "Book");
    assert_eq!(RepoType::Design.as_str(), "Design");
}
