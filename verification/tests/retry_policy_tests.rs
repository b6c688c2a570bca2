use scylla::statement::Consistency;
use scylla::transport::errors::{BadQuery, DBError, QueryError, WriteType};
use scylla::transport::retry_policy::{
    BoxedRetryPolicy, DefaultRetryPolicy, FallthroughRetryPolicy, QueryInfo, RetryDecision,
    RetryPolicy, RetryPolicyTemplate,
};
use std::sync::Arc;

fn db(error: DBError) -> QueryError {
    QueryError::DBError(error, "message".to_string())
}

fn io() -> QueryError {
    QueryError::IOError(Arc::new(std::io::Error::new(
        std::io::ErrorKind::Other,
        "broken",
    )))
}

fn decide(policy: &mut dyn RetryPolicy, error: &QueryError, is_idempotent: bool) -> RetryDecision {
    policy.decide_should_retry(QueryInfo {
        error,
        is_idempotent,
        consistency: Consistency::One,
    })
}

fn unavailable() -> QueryError {
    db(DBError::Unavailable {
        consistency: Consistency::Two,
        required: 2,
        alive: 1,
    })
}

fn read_timeout(received: i32, required: i32, data_present: bool) -> QueryError {
    db(DBError::ReadTimeout {
        consistency: Consistency::Two,
        received,
        required,
        data_present,
    })
}

fn write_timeout(write_type: WriteType) -> QueryError {
    db(DBError::WriteTimeout {
        consistency: Consistency::Two,
        received: 1,
        required: 2,
        write_type,
    })
}

#[test]
fn default_policy_node_trouble_depends_on_idempotence() {
    let errors = [
        io(),
        db(DBError::Overloaded),
        db(DBError::ServerError),
        db(DBError::TruncateError),
    ];
    for error in &errors {
        let mut policy = DefaultRetryPolicy::new();
        assert_eq!(
            decide(&mut policy, error, true),
            RetryDecision::RetryNextNode
        );
        assert_eq!(
            decide(&mut policy, error, true),
            RetryDecision::RetryNextNode
        );
        assert_eq!(decide(&mut policy, error, false), RetryDecision::DontRetry);
    }
}

#[test]
fn default_policy_retries_unavailable_once() {
    for is_idempotent in [false, true] {
        let mut policy = DefaultRetryPolicy::new();
        assert_eq!(
            decide(&mut policy, &unavailable(), is_idempotent),
            RetryDecision::RetryNextNode
        );
        assert_eq!(
            decide(&mut policy, &unavailable(), is_idempotent),
            RetryDecision::DontRetry
        );
        assert_eq!(
            decide(&mut policy, &unavailable(), is_idempotent),
            RetryDecision::DontRetry
        );
    }
}

#[test]
fn default_policy_retries_read_timeout_once_when_data_was_there() {
    let mut policy = DefaultRetryPolicy::new();
    assert_eq!(
        decide(&mut policy, &read_timeout(1, 2, true), true),
        RetryDecision::DontRetry
    );
    assert_eq!(
        decide(&mut policy, &read_timeout(2, 2, false), true),
        RetryDecision::DontRetry
    );
    assert_eq!(
        decide(&mut policy, &read_timeout(2, 2, true), false),
        RetryDecision::RetrySameNode
    );
    assert_eq!(
        decide(&mut policy, &read_timeout(3, 2, true), false),
        RetryDecision::DontRetry
    );
}

#[test]
fn default_policy_unavailable_and_read_timeout_are_counted_apart() {
    let mut policy = DefaultRetryPolicy::new();
    assert_eq!(
        decide(&mut policy, &unavailable(), false),
        RetryDecision::RetryNextNode
    );
    assert_eq!(
        decide(&mut policy, &read_timeout(2, 2, true), false),
        RetryDecision::RetrySameNode
    );
    assert_eq!(
        decide(&mut policy, &unavailable(), false),
        RetryDecision::DontRetry
    );
    assert_eq!(
        decide(&mut policy, &read_timeout(2, 2, true), false),
        RetryDecision::DontRetry
    );
}

#[test]
fn default_policy_retries_write_timeout_of_batch_log_only() {
    let mut policy = DefaultRetryPolicy::new();
    assert_eq!(
        decide(&mut policy, &write_timeout(WriteType::BatchLog), true),
        RetryDecision::RetrySameNode
    );
    assert_eq!(
        decide(&mut policy, &write_timeout(WriteType::BatchLog), true),
        RetryDecision::RetrySameNode
    );
    assert_eq!(
        decide(&mut policy, &write_timeout(WriteType::BatchLog), false),
        RetryDecision::DontRetry
    );
    for write_type in [
        WriteType::Simple,
        WriteType::Batch,
        WriteType::UnloggedBatch,
        WriteType::Counter,
        WriteType::CAS,
        WriteType::View,
        WriteType::CDC,
        WriteType::Other("BATCH_LOG".to_string()),
    ] {
        assert_eq!(
            decide(&mut policy, &write_timeout(write_type), true),
            RetryDecision::DontRetry
        );
    }
}

#[test]
fn default_policy_bootstrapping_goes_to_next_node() {
    let mut policy = DefaultRetryPolicy::new();
    for is_idempotent in [false, true] {
        assert_eq!(
            decide(&mut policy, &db(DBError::IsBootstrapping), is_idempotent),
            RetryDecision::RetryNextNode
        );
    }
}

#[test]
fn default_policy_does_not_retry_anything_else() {
    let errors = [
        db(DBError::SyntaxError),
        db(DBError::Invalid),
        db(DBError::Unprepared),
        db(DBError::Unauthorized),
        db(DBError::Other(0x7777)),
        db(DBError::ReadFailure {
            consistency: Consistency::One,
            received: 1,
            required: 1,
            numfailures: 1,
            data_present: true,
        }),
        QueryError::ProtocolError("bad"),
        QueryError::BadQuery(BadQuery::ValueLenMismatch(1, 2)),
    ];
    for error in &errors {
        let mut policy = DefaultRetryPolicy::default();
        assert_eq!(decide(&mut policy, error, true), RetryDecision::DontRetry);
    }
}

#[test]
fn fallthrough_policy_never_retries() {
    let mut policy = FallthroughRetryPolicy;
    assert_eq!(decide(&mut policy, &io(), true), RetryDecision::DontRetry);
    assert_eq!(
        decide(&mut policy, &unavailable(), true),
        RetryDecision::DontRetry
    );
}

#[test]
fn each_copy_of_a_policy_has_its_own_state() {
    let template = DefaultRetryPolicy::new();
    let mut first = template.clone_boxed();
    let mut second = template.clone_boxed();
    let error = unavailable();
    let info = |error| QueryInfo {
        error,
        is_idempotent: false,
        consistency: Consistency::One,
    };
    assert_eq!(
        first.decide_should_retry(info(&error)),
        RetryDecision::RetryNextNode
    );
    assert_eq!(
        first.decide_should_retry(info(&error)),
        RetryDecision::DontRetry
    );
    assert_eq!(
        second.decide_should_retry(info(&error)),
        RetryDecision::RetryNextNode
    );
}

#[test]
fn a_query_without_policy_is_not_retried() {
    let mut none = BoxedRetryPolicy::never();
    let error = io();
    assert_eq!(
        none.decide_should_retry(QueryInfo {
            error: &error,
            is_idempotent: true,
            consistency: Consistency::One,
        }),
        RetryDecision::DontRetry
    );
    let mut fallthrough = FallthroughRetryPolicy.clone_boxed();
    assert!(fallthrough.policy.is_some());
    assert_eq!(
        fallthrough.decide_should_retry(QueryInfo {
            error: &error,
            is_idempotent: true,
            consistency: Consistency::One,
        }),
        RetryDecision::DontRetry
    );
}
