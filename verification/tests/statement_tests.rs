use bytes::Bytes;
use scylla::frame::request::batch::BatchType;
use scylla::frame::response::result::PreparedMetadata;
use scylla::statement::batch::{Batch, BatchStatement};
use scylla::statement::prepared_statement::PreparedStatement;
use scylla::statement::query::Query;
use scylla::statement::Consistency;
use scylla::transport::retry_policy::{FallthroughRetryPolicy, RetryPolicyTemplate};
use std::sync::Arc;

#[test]
fn query_defaults() {
    let query = Query::new("SELECT * FROM t".to_string());
    assert_eq!(query.get_contents(), "SELECT * FROM t");
    assert_eq!(query.get_page_size(), None);
    assert_eq!(query.get_consistency(), Consistency::Quorum);
    assert!(!query.get_is_idempotent());
    assert!(!query.is_idempotent);
    assert!(query.get_retry_policy().is_none());
}

#[test]
fn query_settings() {
    let mut query = Query::from("SELECT 1");
    query.set_page_size(25);
    assert_eq!(query.get_page_size(), Some(25));
    query.set_page_size(1);
    assert_eq!(query.get_page_size(), Some(1));
    query.disable_paging();
    assert_eq!(query.get_page_size(), None);
    query.set_consistency(Consistency::All);
    assert_eq!(query.get_consistency(), Consistency::All);
    assert_eq!(query.consistency, Consistency::All);
    query.set_is_idempotent(true);
    assert!(query.get_is_idempotent());
    let policy: Arc<dyn RetryPolicyTemplate> = Arc::new(FallthroughRetryPolicy);
    query.set_retry_policy(Some(policy));
    assert!(query.get_retry_policy().is_some());
    query.set_retry_policy(None);
    assert!(query.get_retry_policy().is_none());
}

#[test]
fn query_from_text_and_clone() {
    let mut query = Query::from("SELECT 2".to_string());
    assert_eq!(query.get_contents(), "SELECT 2");
    query.set_page_size(3);
    query.set_consistency(Consistency::Two);
    query.set_is_idempotent(true);
    let copy = query.clone();
    assert_eq!(copy.get_contents(), "SELECT 2");
    assert_eq!(copy.get_page_size(), Some(3));
    assert_eq!(copy.get_consistency(), Consistency::Two);
    assert!(copy.get_is_idempotent());
    assert!(copy.get_retry_policy().is_none());
}

#[test]
fn batch_collects_statements_in_order() {
    let mut batch = Batch::new(BatchType::Unlogged);
    assert_eq!(batch.get_type(), BatchType::Unlogged);
    assert!(batch.get_statements().is_empty());
    assert_eq!(batch.get_consistency(), Consistency::Quorum);
    assert!(!batch.get_is_idempotent());
    batch.append_statement(BatchStatement::from("INSERT 1"));
    batch.append_statement(BatchStatement::from(Query::from("INSERT 2")));
    let prepared = PreparedStatement::new(
        Bytes::from_static(&[9]),
        PreparedMetadata {
            col_count: 0,
            pk_indexes: vec![],
            col_specs: vec![],
        },
        "INSERT 3".to_string(),
    );
    batch.append_statement(prepared.into());
    let statements = batch.get_statements();
    assert_eq!(statements.len(), 3);
    match &statements[0] {
        BatchStatement::Query(q) => assert_eq!(q.get_contents(), "INSERT 1"),
        _ => panic!("a query was appended first"),
    }
    match &statements[1] {
        BatchStatement::Query(q) => assert_eq!(q.get_contents(), "INSERT 2"),
        _ => panic!("a query was appended second"),
    }
    match &statements[2] {
        BatchStatement::PreparedStatement(p) => assert_eq!(p.get_statement(), "INSERT 3"),
        _ => panic!("a prepared statement was appended third"),
    }
    batch.set_consistency(Consistency::One);
    assert_eq!(batch.get_consistency(), Consistency::One);
    batch.set_is_idempotent(true);
    let copy = batch.clone();
    assert_eq!(copy.get_statements().len(), 3);
    assert_eq!(copy.get_type(), BatchType::Unlogged);
    assert_eq!(copy.get_consistency(), Consistency::One);
    assert!(copy.get_is_idempotent());
}

#[test]
fn batch_default_is_logged() {
    assert_eq!(Batch::default().get_type(), BatchType::Logged);
    assert_eq!(BatchType::Logged.to_u8(), 0);
    assert_eq!(BatchType::Unlogged.to_u8(), 1);
    assert_eq!(BatchType::Counter.to_u8(), 2);
}
