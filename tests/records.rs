use asset_gateway::records::{into_iter_objects, Element, QueryError, Statement, ADDRESS_QUERY};

#[test]
fn empty_answer_has_no_record() {
    let r = into_iter_objects::<u32>(vec![]);
    assert_eq!(r, Err(QueryError::NoRecord));
    assert_eq!(QueryError::NoRecord.message(), "No record was found");
}

#[test]
fn failed_first_statement_gives_its_error() {
    let r = into_iter_objects::<u32>(vec![Statement::Failed("parse error".to_string())]);
    assert_eq!(r, Err(QueryError::Statement("parse error".to_string())));
    assert_eq!(QueryError::Statement("parse error".to_string()).message(), "parse error");
}

#[test]
fn non_array_answer_has_no_record() {
    let r = into_iter_objects::<u32>(vec![Statement::Other]);
    assert_eq!(r, Err(QueryError::NoRecord));
}

#[test]
fn non_object_element_means_no_record() {
    let r = into_iter_objects(vec![Statement::Array(vec![Element::Object(1u32), Element::Other])]);
    assert_eq!(r, Err(QueryError::NoRecord));
    assert_eq!(r.unwrap_err().message(), "No record was found");
}

#[test]
fn objects_come_out_in_order_and_only_the_first_statement_counts() {
    let r = into_iter_objects(vec![
        Statement::Array(vec![Element::Object(3u32), Element::Object(1), Element::Object(2)]),
        Statement::Failed("ignored".to_string()),
    ]);
    assert_eq!(r, Ok(vec![3, 1, 2]));
}

#[test]
fn empty_array_is_no_error() {
    let r = into_iter_objects::<u32>(vec![Statement::Array(vec![])]);
    assert_eq!(r, Ok(vec![]));
}

#[test]
fn address_query_binds_the_address() {
    assert!(ADDRESS_QUERY.contains("$address"));
}
