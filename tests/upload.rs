use asset_gateway::listing::DeleteItem;
use asset_gateway::paths::{join_path, ObjectTarget};
use asset_gateway::upload::{PutOutcome, UploadSession, STATUS_CREATED};

fn target(namespace: &str, key: &str) -> ObjectTarget {
    ObjectTarget { namespace: namespace.to_string(), key: key.to_string() }
}

#[test]
fn join_path_puts_one_slash_between() {
    assert_eq!(join_path("shoes", "img1.png"), "shoes/img1.png");
    assert_eq!(join_path("", "a"), "/a");
}

#[test]
fn files_go_under_the_root_before_any_text_field() {
    let session = UploadSession::new("rootBucket");
    assert_eq!(session.prefix(), "rootBucket");
    assert_eq!(session.target("x.png"), target("rootBucket", "x.png"));
}

#[test]
fn text_fields_add_folders_in_order() {
    let mut session = UploadSession::new("rootBucket");
    session.add_folder("alpha");
    session.add_folder("beta");
    assert_eq!(session.prefix(), "rootBucket/alpha/beta");
    assert_eq!(session.target("x.png"), target("rootBucket/alpha/beta", "x.png"));
}

#[test]
fn upload_and_delete_reach_the_same_key() {
    let mut session = UploadSession::new("rootBucket");
    session.add_folder("alpha");
    session.add_folder("beta");
    let put = session.target("x.png");
    let del = DeleteItem { project_name: "alpha/beta".to_string(), item_name: "x.png".to_string() };
    let removed = del.target("rootBucket");
    assert_eq!(put, removed);
    assert_eq!(join_path(&put.namespace, &put.key), "rootBucket/alpha/beta/x.png");
}

#[test]
fn each_file_field_gets_one_message_in_order() {
    let mut session = UploadSession::new("root");
    session.add_folder("a");
    session.record("one.png", &PutOutcome::Stored { e_tag: Some("\"tag1\"".to_string()) });
    session.record("two.png", &PutOutcome::Failed { error: "access denied".to_string() });
    session.add_folder("b");
    session.record("three.png", &PutOutcome::Stored { e_tag: Some("tag3".to_string()) });
    let reply = session.finish();
    assert_eq!(reply.status, STATUS_CREATED);
    assert_eq!(reply.status, 201);
    assert_eq!(
        reply.messages,
        vec![
            "\"tag1\" file was successfully uploaded!".to_string(),
            "two.png error uploading file | Error: access denied".to_string(),
            "tag3 file was successfully uploaded!".to_string(),
        ]
    );
}

#[test]
fn stored_file_without_tag_has_empty_tag() {
    let mut session = UploadSession::new("root");
    session.record("x.png", &PutOutcome::Stored { e_tag: None });
    let reply = session.finish();
    assert_eq!(reply.messages, vec![" file was successfully uploaded!".to_string()]);
}

#[test]
fn upload_without_files_is_created_and_empty() {
    let mut session = UploadSession::new("root");
    session.add_folder("only");
    let reply = session.finish();
    assert_eq!(reply.status, 201);
    assert!(reply.messages.is_empty());
}

#[test]
fn all_failed_files_are_still_created() {
    let mut session = UploadSession::new("root");
    session.record("a", &PutOutcome::Failed { error: "e1".to_string() });
    session.record("b", &PutOutcome::Failed { error: "e2".to_string() });
    let reply = session.finish();
    assert_eq!(reply.status, 201);
    assert_eq!(
        reply.messages,
        vec![
            "a error uploading file | Error: e1".to_string(),
            "b error uploading file | Error: e2".to_string(),
        ]
    );
}
