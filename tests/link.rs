use asset_gateway::decimal::decimal_text;
use asset_gateway::link::{issue_link, AssetRecord, LinkOutcome, UrlInfo, LINK_LIFETIME_SECS};
use asset_gateway::records::{into_iter_objects, Element, Statement};
use std::time::Duration;

fn request(project: &str, object: &str) -> UrlInfo<String> {
    UrlInfo {
        address: "0xowner".to_string(),
        contract_address: "0xcontract".to_string(),
        metadata: "{\"color\":\"red\"}".to_string(),
        project_name: project.to_string(),
        object_name: object.to_string(),
    }
}

#[test]
fn signed_link_request_names_the_object_for_ten_hours() {
    let req = request("shoes", "img1.png").signed_link_request().unwrap();
    assert_eq!(req.key, "shoes/img1.png");
    assert_eq!(req.lifetime_secs, 36000);
    assert_eq!(req.config.expires(), Duration::from_secs(36000));
    assert_eq!(LINK_LIFETIME_SECS, 36000);
}

#[test]
fn granted_link_writes_a_record_with_that_link() {
    let uri = "https://store.example/oort-hackathon/shoes/img1.png?X-Amz-Signature=ab".to_string();
    let outcome = issue_link(request("shoes", "img1.png"), Ok(uri.clone()), 1_700_000_000);
    assert_eq!(outcome.status(), 200);
    assert_eq!(outcome.body(), uri);
    let record = outcome.record().unwrap();
    assert_eq!(
        record,
        &AssetRecord {
            address: "0xowner".to_string(),
            contract_address: "0xcontract".to_string(),
            metadata: "{\"color\":\"red\"}".to_string(),
            blocktime: "1700000000".to_string(),
            file: uri.clone(),
        }
    );
}

#[test]
fn refused_link_writes_nothing_and_is_not_found() {
    let outcome = issue_link(request("shoes", "missing.png"), Err("NoSuchKey".to_string()), 5);
    assert_eq!(outcome.status(), 404);
    assert_eq!(outcome.body(), "NoSuchKey");
    assert!(outcome.record().is_none());
    assert!(matches!(outcome, LinkOutcome::Refused { .. }));
}

#[test]
fn issued_link_is_found_by_owner_lookup() {
    let req = request("shoes", "img1.png").signed_link_request().unwrap();
    let uri = format!("https://store.example/oort-hackathon/{}?sig=1", req.key);
    let outcome = issue_link(request("shoes", "img1.png"), Ok(uri.clone()), 42);
    assert_eq!(outcome.status(), 200);
    assert!(outcome.body().contains("shoes/img1.png"));
    let stored = outcome.record().unwrap().clone();
    let answer = vec![Statement::Array(vec![Element::Object(stored)])];
    let found = into_iter_objects(answer).unwrap();
    assert_eq!(found.len(), 1);
    assert_eq!(found[0].file, uri);
    assert_eq!(found[0].address, "0xowner");
}

#[test]
fn decimal_text_of_edge_values() {
    assert_eq!(decimal_text(0), "0");
    assert_eq!(decimal_text(9), "9");
    assert_eq!(decimal_text(10), "10");
    assert_eq!(decimal_text(1_700_000_000), "1700000000");
    assert_eq!(decimal_text(u64::MAX), "18446744073709551615");
}
