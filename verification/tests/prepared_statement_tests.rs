use bytes::Bytes;
use scylla::frame::response::result::{
    CQLValue, ColumnSpec, ColumnType, PreparedMetadata, TableSpec,
};
use scylla::frame::value::SerializedValues;
use scylla::statement::prepared_statement::{PartitionKeyError, PreparedStatement};
use scylla::statement::Consistency;
use scylla::transport::retry_policy::{DefaultRetryPolicy, RetryPolicyTemplate};
use std::sync::Arc;

fn column(name: &str) -> ColumnSpec {
    ColumnSpec {
        table_spec: TableSpec {
            ks_name: "ks".to_string(),
            table_name: "t".to_string(),
        },
        name: name.to_string(),
        typ: ColumnType::Int,
    }
}

fn statement(pk_indexes: Vec<u16>) -> PreparedStatement {
    let metadata = PreparedMetadata {
        col_count: 2,
        pk_indexes,
        col_specs: vec![column("a"), column("b")],
    };
    PreparedStatement::new(
        Bytes::from_static(&[1, 2, 3]),
        metadata,
        "INSERT INTO t (a, b) VALUES (?, ?)".to_string(),
    )
}

fn three_and_four() -> SerializedValues {
    let mut values = SerializedValues::new();
    values.add_value(&CQLValue::Int(3)).unwrap();
    values.add_value(&CQLValue::Int(4)).unwrap();
    values
}

#[test]
fn partition_key_of_one_value_is_the_value() {
    let key = statement(vec![0])
        .compute_partition_key(&three_and_four())
        .unwrap();
    assert_eq!(key, Bytes::from_static(&[0, 0, 0, 3]));
    let key = statement(vec![1])
        .compute_partition_key(&three_and_four())
        .unwrap();
    assert_eq!(key, Bytes::from_static(&[0, 0, 0, 4]));
}

#[test]
fn partition_key_of_several_values_is_compound() {
    let key = statement(vec![0, 1])
        .compute_partition_key(&three_and_four())
        .unwrap();
    assert_eq!(
        key,
        Bytes::from_static(&[0, 4, 0, 0, 0, 3, 0, 0, 4, 0, 0, 0, 4, 0])
    );
}

#[test]
fn partition_key_follows_the_order_of_the_indexes() {
    let key = statement(vec![1, 0])
        .compute_partition_key(&three_and_four())
        .unwrap();
    assert_eq!(
        key,
        Bytes::from_static(&[0, 4, 0, 0, 0, 4, 0, 0, 4, 0, 0, 0, 3, 0])
    );
}

#[test]
fn partition_key_without_indexes_is_empty() {
    let key = statement(vec![])
        .compute_partition_key(&three_and_four())
        .unwrap();
    assert!(key.is_empty());
}

#[test]
fn partition_key_skips_nulls() {
    let mut values = SerializedValues::new();
    values.add_raw(None).unwrap();
    values.add_value(&CQLValue::Int(4)).unwrap();
    let key = statement(vec![0, 1]).compute_partition_key(&values).unwrap();
    assert_eq!(key, Bytes::from_static(&[0, 4, 0, 0, 0, 4, 0]));
    let key = statement(vec![0]).compute_partition_key(&values).unwrap();
    assert!(key.is_empty());
}

#[test]
fn partition_key_needs_a_value_at_each_index() {
    assert_eq!(
        statement(vec![2]).compute_partition_key(&three_and_four()),
        Err(PartitionKeyError::NoPkIndexValue(2, 2))
    );
    assert_eq!(
        statement(vec![0, 7, 9]).compute_partition_key(&three_and_four()),
        Err(PartitionKeyError::NoPkIndexValue(7, 2))
    );
    assert_eq!(
        statement(vec![0]).compute_partition_key(&SerializedValues::new()),
        Err(PartitionKeyError::NoPkIndexValue(0, 0))
    );
}

#[test]
fn partition_key_value_too_long_for_compound_key() {
    let long = vec![7u8; 65536];
    let mut values = SerializedValues::new();
    values.add_raw(Some(&long)).unwrap();
    values.add_value(&CQLValue::Int(4)).unwrap();
    assert_eq!(
        statement(vec![1, 0]).compute_partition_key(&values),
        Err(PartitionKeyError::ValueTooLong(65536))
    );
    // Alone, the value is the key, whatever its length.
    let key = statement(vec![0]).compute_partition_key(&values).unwrap();
    assert_eq!(key.len(), 65536);
    // The longest value that fits.
    let fits = vec![7u8; 65535];
    let mut values = SerializedValues::new();
    values.add_raw(Some(&fits)).unwrap();
    values.add_value(&CQLValue::Int(4)).unwrap();
    let key = statement(vec![0, 1]).compute_partition_key(&values).unwrap();
    assert_eq!(key.len(), 2 + 65535 + 1 + 2 + 4 + 1);
    assert_eq!(&key[0..2], &[0xff, 0xff]);
}

#[test]
fn partition_key_is_the_same_each_time() {
    let statement = statement(vec![0, 1]);
    let values = three_and_four();
    assert_eq!(
        statement.compute_partition_key(&values),
        statement.compute_partition_key(&values)
    );
}

#[test]
fn prepared_statement_settings() {
    let mut prepared = statement(vec![0]);
    assert_eq!(prepared.get_id(), &Bytes::from_static(&[1, 2, 3]));
    assert_eq!(prepared.get_statement(), "INSERT INTO t (a, b) VALUES (?, ?)");
    assert_eq!(prepared.get_page_size(), None);
    assert_eq!(prepared.get_consistency(), Consistency::Quorum);
    assert!(!prepared.get_is_idempotent());
    assert!(!prepared.get_tracing());
    assert!(prepared.get_retry_policy().is_none());
    assert_eq!(prepared.get_keyspace_name(), Some("ks"));
    assert_eq!(prepared.get_metadata().pk_indexes, vec![0]);

    prepared.set_page_size(10);
    assert_eq!(prepared.get_page_size(), Some(10));
    prepared.disable_paging();
    assert_eq!(prepared.get_page_size(), None);
    prepared.set_consistency(Consistency::LocalOne);
    assert_eq!(prepared.get_consistency(), Consistency::LocalOne);
    prepared.set_is_idempotent(true);
    assert!(prepared.get_is_idempotent());
    prepared.set_tracing(true);
    assert!(prepared.get_tracing());
    let policy: Arc<dyn RetryPolicyTemplate> = Arc::new(DefaultRetryPolicy::new());
    prepared.set_retry_policy(Some(policy));
    assert!(prepared.get_retry_policy().is_some());
}

#[test]
fn prepared_statement_clone_keeps_everything() {
    let mut prepared = statement(vec![1, 0]);
    prepared.set_page_size(5);
    prepared.set_is_idempotent(true);
    prepared.set_consistency(Consistency::One);
    let policy: Arc<dyn RetryPolicyTemplate> = Arc::new(DefaultRetryPolicy::new());
    prepared.set_retry_policy(Some(policy));
    let copy = prepared.clone();
    assert_eq!(copy.get_id(), prepared.get_id());
    assert_eq!(copy.get_statement(), prepared.get_statement());
    assert_eq!(copy.get_page_size(), Some(5));
    assert!(copy.get_is_idempotent());
    assert_eq!(copy.get_consistency(), Consistency::One);
    assert!(copy.get_retry_policy().is_some());
    assert_eq!(copy.get_metadata().pk_indexes, vec![1, 0]);
    assert_eq!(copy.get_metadata().col_specs.len(), 2);
}

#[test]
fn keyspace_name_of_a_statement_without_markers() {
    let metadata = PreparedMetadata {
        col_count: 0,
        pk_indexes: vec![],
        col_specs: vec![],
    };
    let prepared = PreparedStatement::new(Bytes::new(), metadata, "SELECT 1".to_string());
    assert_eq!(prepared.get_keyspace_name(), None);
}

#[test]
fn keys_of_these_sizes_fit() {
    let values = three_and_four();
    assert!(statement(vec![0]).key_fits(&values));
    assert!(statement(vec![0, 1]).key_fits(&values));
    assert!(statement(vec![]).key_fits(&values));
    assert!(statement(vec![9, 0]).key_fits(&values));
    let many: Vec<u16> = (0..40000).map(|i| (i % 2) as u16).collect();
    assert!(statement(many).key_fits(&values));
}
