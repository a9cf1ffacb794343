use yuque::error::{response_outcome, YuqueError};
use yuque::request::Method;
use yuque::yuque::Yuque;

#[test]
fn test_new_accepts_visible_ascii_token() {
    let client = Yuque::new("abc-DEF_123".to_string()).unwrap();
    assert_eq!(client.token, "abc-DEF_123");
}

#[test]
fn test_new_rejects_control_characters() {
    let err = Yuque::new("bad\ntoken".to_string()).unwrap_err();
    match err {
        YuqueError::Config(m) => assert_eq!(m, "token is not a valid header value"),
        _ => panic!("expected a configuration error"),
    }
}

#[test]
fn test_new_rejects_non_ascii() {
    assert!(Yuque::new("tok\u{00e9}n".to_string()).is_err());
    assert!(Yuque::new("tab\tis fine".to_string()).is_ok());
}

#[test]
fn test_build_api_default_base() {
    let url = Yuque::build_api("/users/42", None);
    assert_eq!(url, "https://www.yuque.com/api/v2/users/42");
}

#[test]
fn test_build_api_with_space() {
    let url = Yuque::build_api("/groups", Some("acme"));
    assert_eq!(url, "https://acme.yuque.com/api/v2/groups");
}

#[test]
fn test_fixed_headers() {
    let client = Yuque::new("t".to_string()).unwrap();
    assert_eq!(client.auth_header_name(), "X-Auth-Token");
    assert_eq!(client.user_agent(), "Yuque-Rust-Client");
}

#[test]
fn test_method_names() {
    assert_eq!(Method::Get.as_str(), "GET");
    assert_eq!(Method::Post.as_str(), "POST");
    assert_eq!(Method::Put.as_str(), "PUT");
    assert_eq!(Method::Delete.as_str(), "DELETE");
}

#[test]
fn test_status_is_success_bounds() {
    assert!(!yuque::status_is_success(199));
    assert!(yuque::status_is_success(200));
    assert!(yuque::status_is_success(204));
    assert!(yuque::status_is_success(299));
    assert!(!yuque::status_is_success(300));
    assert!(!yuque::status_is_success(500));
}

#[test]
fn test_response_outcome_success_returns_body() {
    let r = response_outcome(200, "{\"data\":1}".to_string());
    assert_eq!(r.unwrap(), "{\"data\":1}");
    let r = response_outcome(299, "ok".to_string());
    assert!(r.is_ok());
}

#[test]
fn test_response_outcome_failure_is_remote_error() {
    let r = response_outcome(404, "not found".to_string());
    match r.unwrap_err() {
        YuqueError::Remote { status, body } => {
            assert_eq!(status, 404);
            assert_eq!(body, "not found");
        },
        _ => panic!("expected a remote error"),
    }
    assert!(response_outcome(199, String::new()).is_err());
    assert!(response_outcome(300, String::new()).is_err());
    assert!(response_outcome(500, String::new()).is_err());
}

#[test]
fn test_error_messages() {
    let remote = YuqueError::Remote { status: 404, body: "missing".to_string() };
    assert_eq!(remote.message(), "404 missing");
    let config = YuqueError::Config("bad token".to_string());
    assert_eq!(config.message(), "configuration error: bad token");
    let transport = YuqueError::Transport("connection reset".to_string());
    assert_eq!(transport.message(), "transport error: connection reset");
    let decode = YuqueError::Decode("missing field".to_string());
    assert_eq!(decode.message(), "decode error: missing field");
}

#[test]
fn test_get_auth_user_request() {
    let client = Yuque::new("t".to_string()).unwrap();
    let r = client.get_auth_user();
    assert_eq!(r.method, Method::Get);
    assert_eq!(r.url, "https://www.yuque.com/api/v2/user");
    assert!(r.query.is_empty());
    assert!(r.body.is_none());
}

#[test]
fn test_get_user_request() {
    let client = Yuque::new("t".to_string()).unwrap();
    let r = client.get_user("565457");
    assert_eq!(r.method, Method::Get);
    assert_eq!(r.url, "https://www.yuque.com/api/v2/users/565457");
    assert!(r.query.is_empty());
    assert!(r.body.is_none());
}

#[test]
fn test_gen_rand_str_is_ten_lowercase_letters() {
    for _ in 0..20 {
        let s = yuque::utils::gen_rand_str();
        assert_eq!(s.len(), 10);
        assert!(s.chars().all(|c| c.is_ascii_lowercase()));
    }
}
