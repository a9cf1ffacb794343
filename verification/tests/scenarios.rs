//! Lifecycle walks: every request a scenario issues, in order, and the
//! classification of the simulated responses.

use yuque::doc::CreateDocRequest;
use yuque::error::{response_outcome, YuqueError};
use yuque::request::Method;
use yuque::yuque::Yuque;

#[test]
fn test_doc_lifecycle_requests() {
    let client = Yuque::new("t".to_string()).unwrap();
    let repo = "k8scat/opensource";

    let req = CreateDocRequest {
        title: "t1".to_string(),
        slug: "s1".to_string(),
        body: "# Hello World".to_string(),
        ..CreateDocRequest::default()
    };
    let create = client.create_doc(repo, &req);
    assert_eq!(create.method, Method::Post);
    assert_eq!(create.url, "https://www.yuque.com/api/v2/repos/k8scat/opensource/docs");
    let body = create.body.unwrap();
    assert!(body.contains("\"title\":\"t1\""));
    assert!(body.contains("\"slug\":\"s1\""));
    assert!(body.contains("\"body\":\"# Hello World\""));

    // The service answers with the created document; suppose its id is 7.
    let delete = client.delete_doc(repo, 7);
    assert_eq!(delete.method, Method::Delete);
    assert_eq!(delete.url, "https://www.yuque.com/api/v2/repos/k8scat/opensource/docs/7");

    // A get for the deleted slug is answered with a failing status, which
    // must surface as a remote error, never as stale data.
    let get = client.get_doc(repo, "s1", None);
    assert_eq!(get.url, "https://www.yuque.com/api/v2/repos/k8scat/opensource/docs/s1");
    let outcome = response_outcome(404, "document not found".to_string());
    match outcome {
        Err(YuqueError::Remote { status, body }) => {
            assert_eq!(status, 404);
            assert_eq!(body, "document not found");
        },
        _ => panic!("a failing status must classify as a remote error"),
    }
}

#[test]
fn test_group_lifecycle_requests() {
    let client = Yuque::new("t".to_string()).unwrap();

    let create = client.create_group("Team", "team-x", "a team");
    assert_eq!(create.method, Method::Post);
    assert_eq!(create.url, "https://www.yuque.com/api/v2/groups");
    let body = create.body.unwrap();
    assert!(body.contains("\"login\":\"team-x\""));

    let get = client.get_group("team-x");
    assert_eq!(get.method, Method::Get);
    assert_eq!(get.url, "https://www.yuque.com/api/v2/groups/team-x");

    // The service answers the create with the new group; suppose its id is 9.
    let delete = client.delete_group("9");
    assert_eq!(delete.method, Method::Delete);
    assert_eq!(delete.url, "https://www.yuque.com/api/v2/groups/9");
}
