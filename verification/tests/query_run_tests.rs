use bytes::Bytes;
use scylla::frame::request::batch::BatchType;
use scylla::frame::response::result::{
    CQLValue, ColumnSpec, ColumnType, InetAddress, PreparedMetadata, TableSpec,
};
use scylla::frame::value::SerializedValues;
use scylla::routing::Token;
use scylla::statement::batch::{Batch, BatchStatement};
use scylla::statement::prepared_statement::PreparedStatement;
use scylla::statement::query::Query;
use scylla::statement::Consistency;
use scylla::transport::cluster::{ClusterData, Keyspace, Node, SocketAddress, Strategy};
use scylla::transport::errors::{BadKeyspaceName, BadQuery, DBError, QueryError};
use scylla::transport::load_balancing::{RoundRobinPolicy, TokenAwarePolicy};
use scylla::transport::retry_policy::{
    BoxedRetryPolicy, DefaultRetryPolicy, FallthroughRetryPolicy, RetryDecision,
    RetryPolicyTemplate,
};
use scylla::transport::session::{QueryRun, RunAction, Session};
use std::sync::Arc;

fn unavailable() -> QueryError {
    QueryError::DBError(
        DBError::Unavailable {
            consistency: Consistency::Quorum,
            required: 2,
            alive: 1,
        },
        "not enough replicas".to_string(),
    )
}

fn io() -> QueryError {
    QueryError::IOError(Arc::new(std::io::Error::new(
        std::io::ErrorKind::BrokenPipe,
        "pipe",
    )))
}

fn default_run(plan: Vec<usize>, is_idempotent: bool) -> QueryRun {
    QueryRun::new(
        plan,
        is_idempotent,
        Consistency::Quorum,
        DefaultRetryPolicy::new().clone_boxed(),
    )
}

fn node(last: u8, tokens: &[i64]) -> Node {
    Node {
        address: SocketAddress {
            ip: InetAddress::V4([10, 0, 0, last]),
            port: 9042,
        },
        datacenter: Some("dc1".to_string()),
        rack: None,
        tokens: tokens.iter().map(|t| Token { value: *t }).collect(),
    }
}

fn three_nodes() -> ClusterData {
    ClusterData::new(
        vec![
            node(1, &[-100, 500]),
            node(2, &[0, 1000]),
            node(3, &[100]),
        ],
        vec![Keyspace {
            name: "ks".to_string(),
            strategy: Strategy::SimpleStrategy {
                replication_factor: 2,
            },
        }],
        None,
    )
}

fn session() -> Session<TokenAwarePolicy<RoundRobinPolicy>> {
    Session::new(
        three_nodes(),
        TokenAwarePolicy::new(RoundRobinPolicy::new()),
        None,
    )
}

#[test]
fn unavailable_is_retried_on_the_next_node_once() {
    let mut run = default_run(vec![0, 1, 2], false);
    assert_eq!(run.next_action(), RunAction::TryNode(0));
    assert_eq!(run.query_failed(unavailable()), RunAction::TryNode(1));
    assert_eq!(run.query_failed(unavailable()), RunAction::GiveUp);
    assert!(matches!(
        run.into_error(),
        QueryError::DBError(DBError::Unavailable { .. }, _)
    ));
}

#[test]
fn empty_plan_is_a_protocol_error() {
    let run = default_run(vec![], true);
    assert_eq!(run.next_action(), RunAction::GiveUp);
    match run.into_error() {
        QueryError::ProtocolError(message) => {
            assert_eq!(message, "Empty query plan")
        }
        other => panic!("unexpected {:?}", other),
    }
}

#[test]
fn idempotent_query_walks_the_whole_plan_on_io_errors() {
    let mut run = default_run(vec![4, 2, 7], true);
    assert_eq!(run.next_action(), RunAction::TryNode(4));
    assert_eq!(run.query_failed(io()), RunAction::TryNode(2));
    assert_eq!(run.query_failed(io()), RunAction::TryNode(7));
    assert_eq!(run.query_failed(io()), RunAction::GiveUp);
    assert!(matches!(run.get_last_error(), QueryError::IOError(_)));
    assert_eq!(run.next_action(), RunAction::GiveUp);
}

#[test]
fn query_not_known_to_be_idempotent_stops_at_the_first_io_error() {
    let mut run = default_run(vec![4, 2, 7], false);
    assert_eq!(run.query_failed(io()), RunAction::GiveUp);
    assert_eq!(run.next_action(), RunAction::GiveUp);
}

#[test]
fn read_timeout_is_retried_on_the_same_node() {
    let timeout = || {
        QueryError::DBError(
            DBError::ReadTimeout {
                consistency: Consistency::One,
                received: 1,
                required: 1,
                data_present: true,
            },
            String::new(),
        )
    };
    let mut run = default_run(vec![5, 6], false);
    assert_eq!(run.query_failed(timeout()), RunAction::TryNode(5));
    assert_eq!(run.query_failed(timeout()), RunAction::GiveUp);
}

#[test]
fn connection_failures_do_not_ask_the_policy() {
    // Even a query that is never retried moves on when no connection is to be had.
    let mut run = QueryRun::new(
        vec![1, 2],
        false,
        Consistency::One,
        FallthroughRetryPolicy.clone_boxed(),
    );
    assert_eq!(run.connection_failed(io()), RunAction::TryNode(2));
    assert_eq!(run.connection_failed(unavailable()), RunAction::GiveUp);
    assert!(matches!(
        run.into_error(),
        QueryError::DBError(DBError::Unavailable { .. }, _)
    ));
}

#[test]
fn decisions_move_the_run() {
    let mut run = default_run(vec![1, 2, 3], false);
    assert_eq!(
        run.apply_decision(RetryDecision::RetrySameNode),
        RunAction::TryNode(1)
    );
    assert_eq!(
        run.apply_decision(RetryDecision::RetryNextNode),
        RunAction::TryNode(2)
    );
    assert_eq!(
        run.apply_decision(RetryDecision::DontRetry),
        RunAction::GiveUp
    );
    assert_eq!(
        run.apply_decision(RetryDecision::RetrySameNode),
        RunAction::GiveUp
    );
    assert_eq!(
        run.apply_decision(RetryDecision::RetryNextNode),
        RunAction::GiveUp
    );
}

#[test]
fn run_without_policy_never_retries() {
    let mut run = QueryRun::new(vec![1, 2], true, Consistency::One, BoxedRetryPolicy::never());
    assert_eq!(run.query_failed(io()), RunAction::GiveUp);
}

#[test]
fn session_plans_queries_over_all_nodes_in_turn() {
    let mut session = session();
    let query = Query::from("SELECT 1");
    let first = session.start_query(&query);
    assert_eq!(first.next_action(), RunAction::TryNode(0));
    let second = session.start_query(&query);
    assert_eq!(second.next_action(), RunAction::TryNode(1));
    let mut third = session.start_query(&query);
    assert_eq!(third.next_action(), RunAction::TryNode(2));
    assert_eq!(third.connection_failed(io()), RunAction::TryNode(0));
    assert_eq!(third.connection_failed(io()), RunAction::TryNode(1));
    assert_eq!(third.connection_failed(io()), RunAction::GiveUp);
}

#[test]
fn session_counts_requests() {
    let mut session = session();
    let mut query = Query::from("SELECT 1");
    query.set_is_idempotent(true);
    let mut run = session.start_query(&query);
    session.request_sent();
    assert_eq!(session.request_failed(&mut run, io()), RunAction::TryNode(1));
    session.request_sent();
    session.request_succeeded(30);
    session.request_sent();
    session.request_succeeded(10);
    let metrics = session.get_metrics();
    assert_eq!(metrics.get_queries_num(), 3);
    assert_eq!(metrics.get_errors_num(), 1);
    assert_eq!(metrics.get_queries_iter_num(), 0);
    assert_eq!(metrics.get_errors_iter_num(), 0);
    assert_eq!(metrics.get_latency_avg_ms(), Some(20));
}

#[test]
fn session_uses_the_default_policy_when_none_is_given() {
    let mut session = session();
    let mut run = session.start_query(&Query::from("SELECT 1"));
    assert_eq!(
        session.request_failed(&mut run, unavailable()),
        RunAction::TryNode(1)
    );
    assert_eq!(
        session.request_failed(&mut run, unavailable()),
        RunAction::GiveUp
    );
}

#[test]
fn statement_policy_goes_before_the_session_policy() {
    let session_policy: Arc<dyn RetryPolicyTemplate> = Arc::new(DefaultRetryPolicy::new());
    let mut session = Session::new(
        three_nodes(),
        TokenAwarePolicy::new(RoundRobinPolicy::new()),
        Some(session_policy),
    );
    let mut query = Query::from("SELECT 1");
    let own: Arc<dyn RetryPolicyTemplate> = Arc::new(FallthroughRetryPolicy);
    query.set_retry_policy(Some(own));
    let mut run = session.start_query(&query);
    assert_eq!(
        session.request_failed(&mut run, unavailable()),
        RunAction::GiveUp
    );
    let mut run = session.start_query(&Query::from("SELECT 2"));
    assert_eq!(
        session.request_failed(&mut run, unavailable()),
        RunAction::TryNode(2)
    );
}

#[test]
fn copy_of_a_statement_keeps_its_retry_policy() {
    let mut session = session();
    let mut query = Query::from("SELECT 1");
    let own: Arc<dyn RetryPolicyTemplate> = Arc::new(FallthroughRetryPolicy);
    query.set_retry_policy(Some(own));
    let copy = query.clone();
    assert!(copy.get_retry_policy().is_some());
    // Under its own policy the copy is never retried; under the session's it would be.
    let mut run = session.start_query(&copy);
    assert_eq!(
        session.request_failed(&mut run, unavailable()),
        RunAction::GiveUp
    );
    query.set_retry_policy(None);
    assert!(query.clone().get_retry_policy().is_none());
    let mut run = session.start_query(&query.clone());
    assert!(matches!(
        session.request_failed(&mut run, unavailable()),
        RunAction::TryNode(_)
    ));
}

#[test]
fn each_request_has_a_fresh_copy_of_the_policy() {
    let mut session = session();
    let query = Query::from("SELECT 1");
    // A first request spends the one retry that `Unavailable` is given.
    let mut first = session.start_query(&query);
    assert!(matches!(
        session.request_failed(&mut first, unavailable()),
        RunAction::TryNode(_)
    ));
    assert_eq!(
        session.request_failed(&mut first, unavailable()),
        RunAction::GiveUp
    );
    // The next request knows nothing of that.
    let mut second = session.start_query(&query);
    assert!(matches!(
        session.request_failed(&mut second, unavailable()),
        RunAction::TryNode(_)
    ));
}

fn prepared(keyspace: &str) -> PreparedStatement {
    PreparedStatement::new(
        Bytes::from_static(&[1]),
        PreparedMetadata {
            col_count: 1,
            pk_indexes: vec![0],
            col_specs: vec![ColumnSpec {
                table_spec: TableSpec {
                    ks_name: keyspace.to_string(),
                    table_name: "t".to_string(),
                },
                name: "a".to_string(),
                typ: ColumnType::Int,
            }],
        },
        "INSERT".to_string(),
    )
}

#[test]
fn session_plans_prepared_statements_replicas_first() {
    // Int 3 hashes to 9010454139840013625, beyond the last token of the ring: the walk
    // wraps to the first entry, node 0 at -100, and goes on to node 1 at 0.
    let mut values = SerializedValues::new();
    values.add_value(&CQLValue::Int(3)).unwrap();
    let mut session = session();
    let (mut run, token) = session.start_execute(&prepared("ks"), &values).unwrap();
    assert_eq!(token.value, 9010454139840013625);
    assert_eq!(run.next_action(), RunAction::TryNode(0));
    assert_eq!(run.connection_failed(io()), RunAction::TryNode(1));
    assert_eq!(run.connection_failed(io()), RunAction::TryNode(2));
    assert_eq!(run.connection_failed(io()), RunAction::GiveUp);
    // In a keyspace that the cluster does not know, only the owner counts as replica; the
    // round robin, now at node 1, gives the rest.
    let (mut run, _) = session.start_execute(&prepared("other"), &values).unwrap();
    assert_eq!(run.next_action(), RunAction::TryNode(0));
    assert_eq!(run.connection_failed(io()), RunAction::TryNode(1));
    assert_eq!(run.connection_failed(io()), RunAction::TryNode(2));
    assert_eq!(run.connection_failed(io()), RunAction::GiveUp);
}

#[test]
fn session_refuses_to_plan_without_a_token() {
    let mut session = session();
    let result = session.start_execute(&prepared("ks"), &SerializedValues::new());
    assert!(matches!(result, Err(QueryError::ProtocolError(_))));
    let result = session.start_execute_iter(&prepared("ks"), &SerializedValues::new());
    assert!(matches!(result, Err(QueryError::ProtocolError(_))));
}

#[test]
fn session_plans_batches_and_counts_their_values() {
    let mut session = session();
    let mut batch = Batch::new(BatchType::Logged);
    batch.append_statement(BatchStatement::from("INSERT 1"));
    batch.append_statement(BatchStatement::from("INSERT 2"));
    batch.set_is_idempotent(true);
    let mut run = session.start_batch(&batch, 2).unwrap();
    assert_eq!(run.next_action(), RunAction::TryNode(0));
    assert_eq!(run.query_failed(io()), RunAction::TryNode(1));
    match session.start_batch(&batch, 3) {
        Err(QueryError::BadQuery(BadQuery::ValueLenMismatch(given, expected))) => {
            assert_eq!(given, 3);
            assert_eq!(expected, 2);
        }
        other => panic!("unexpected {:?}", other.map(|r| r.next_action())),
    }
}

#[test]
fn use_keyspace_refuses_bad_names_before_anything_is_sent() {
    let mut session = session();
    match session.use_keyspace("bad-name".to_string(), false) {
        Err(QueryError::BadQuery(BadQuery::BadKeyspaceName(
            BadKeyspaceName::IllegalCharacter(name, character),
        ))) => {
            assert_eq!(name, "bad-name");
            assert_eq!(character, '-');
        }
        other => panic!("unexpected {:?}", other),
    }
    assert!(session.get_cluster_data().get_used_keyspace().is_none());
    let verified = session.use_keyspace("good_name_1".to_string(), false).unwrap();
    assert_eq!(verified.as_str(), "good_name_1");
    assert!(!verified.is_case_sensitive());
    assert_eq!(verified.use_statement(), "USE good_name_1");
    assert_eq!(
        session
            .get_cluster_data()
            .get_used_keyspace()
            .as_ref()
            .map(|k| k.as_str()),
        Some("good_name_1")
    );
    // A name that is refused leaves the keyspace in use as it is.
    assert!(session.use_keyspace(String::new(), false).is_err());
    assert_eq!(
        session
            .get_cluster_data()
            .get_used_keyspace()
            .as_ref()
            .map(|k| k.as_str()),
        Some("good_name_1")
    );
    assert_eq!(session.get_cluster_data().get_nodes().len(), 3);
}

#[test]
fn session_swaps_its_view_of_the_cluster() {
    let mut session = session();
    assert_eq!(session.get_cluster_data().get_nodes().len(), 3);
    session.set_cluster_data(ClusterData::new(vec![node(9, &[1])], vec![], None));
    assert_eq!(session.get_cluster_data().get_nodes().len(), 1);
    let run = session.start_query(&Query::from("SELECT 1"));
    assert_eq!(run.next_action(), RunAction::TryNode(0));
}

#[test]
fn session_remembers_prepared_statements_once() {
    let mut session = session();
    assert!(session.get_prepared_texts().is_empty());
    session.remember_prepared("INSERT 1");
    session.remember_prepared("INSERT 2");
    session.remember_prepared("INSERT 1");
    session.remember_prepared("insert 1");
    assert_eq!(
        session.get_prepared_texts(),
        &vec![
            "INSERT 1".to_string(),
            "INSERT 2".to_string(),
            "insert 1".to_string()
        ]
    );
}
