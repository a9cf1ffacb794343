use yuque::request::Method;
use yuque::yuque::Yuque;

fn client() -> Yuque {
    Yuque::new("t".to_string()).unwrap()
}

fn pairs(q: &[(String, String)]) -> Vec<(&str, &str)> {
    q.iter().map(|(k, v)| (k.as_str(), v.as_str())).collect()
}

#[test]
fn test_list_user_groups_request() {
    let r = client().list_user_groups("12345");
    assert_eq!(r.method, Method::Get);
    assert_eq!(r.url, "https://www.yuque.com/api/v2/users/12345/groups");
    assert!(r.query.is_empty());
    assert!(r.body.is_none());
}

#[test]
fn test_list_public_groups_offset() {
    let r = client().list_public_groups(Some(40));
    assert_eq!(r.url, "https://www.yuque.com/api/v2/groups");
    assert_eq!(pairs(&r.query), vec![("offset", "40")]);
    let r = client().list_public_groups(None);
    assert!(r.query.is_empty());
}

#[test]
fn test_list_group_users_filters() {
    let r = client().list_group_users("huayin.io", Some(1), Some(2), Some(3));
    assert_eq!(r.url, "https://www.yuque.com/api/v2/groups/huayin.io/users");
    assert_eq!(pairs(&r.query), vec![("role", "3"), ("offset", "1"), ("limit", "2")]);
}

#[test]
fn test_list_group_users_omits_absent_pagination() {
    let r = client().list_group_users("huayin.io", None, None, None);
    assert!(r.query.is_empty());
    let r = client().list_group_users("huayin.io", None, None, Some(0));
    assert_eq!(pairs(&r.query), vec![("role", "0")]);
}

#[test]
fn test_get_group_request() {
    let r = client().get_group("huayin.io");
    assert_eq!(r.method, Method::Get);
    assert_eq!(r.url, "https://www.yuque.com/api/v2/groups/huayin.io");
    assert!(r.query.is_empty());
    assert!(r.body.is_none());
}

#[test]
fn test_create_group_body() {
    let r = client().create_group("Team", "team-login", "a team");
    assert_eq!(r.method, Method::Post);
    assert_eq!(r.url, "https://www.yuque.com/api/v2/groups");
    assert_eq!(
        r.body.as_deref(),
        Some("{\"name\":\"Team\",\"login\":\"team-login\",\"description\":\"a team\"}")
    );
}

#[test]
fn test_update_group_partial_body() {
    let r = client().update_group("42", Some("renamed"), None, None);
    assert_eq!(r.method, Method::Put);
    assert_eq!(r.url, "https://www.yuque.com/api/v2/groups/42");
    assert_eq!(r.body.as_deref(), Some("{\"name\":\"renamed\"}"));
    let r = client().update_group("42", None, Some("l"), Some("d"));
    assert_eq!(r.body.as_deref(), Some("{\"login\":\"l\",\"description\":\"d\"}"));
}

#[test]
fn test_delete_group_request() {
    let r = client().delete_group("42");
    assert_eq!(r.method, Method::Delete);
    assert_eq!(r.url, "https://www.yuque.com/api/v2/groups/42");
}

#[test]
fn test_add_group_user_body() {
    let r = client().add_group_user("huayin.io", "k8scat", 2);
    assert_eq!(r.method, Method::Put);
    assert_eq!(r.url, "https://www.yuque.com/api/v2/groups/huayin.io/users/k8scat");
    assert_eq!(r.body.as_deref(), Some("{\"role\":2}"));
}

#[test]
fn test_delete_group_user_request() {
    let r = client().delete_group_user("huayin.io", "k8scat");
    assert_eq!(r.method, Method::Delete);
    assert_eq!(r.url, "https://www.yuque.com/api/v2/groups/huayin.io/users/k8scat");
    assert!(r.body.is_none());
}
