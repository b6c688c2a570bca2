use bytes::Bytes;
use scylla::frame::response::result::{
    CQLValue, ColumnSpec, ColumnType, InetAddress, PreparedMetadata, TableSpec,
};
use scylla::frame::value::SerializedValues;
use scylla::routing::{hash3_x64_128, Token};
use scylla::statement::prepared_statement::PreparedStatement;
use scylla::transport::cluster::SocketAddress;
use scylla::transport::connection::Compression;
use scylla::transport::errors::{BadQuery, DBError, NewSessionError, QueryError};
use scylla::transport::session::{
    agree_on_prepared, calculate_token, choose_resolved_address, classify_query,
    keyspace_of_use_statement, split_known_nodes, KnownNode, QueryKind, SessionConfig,
};

fn prepared(id: &'static [u8], pk_indexes: Vec<u16>) -> PreparedStatement {
    let metadata = PreparedMetadata {
        col_count: 1,
        pk_indexes,
        col_specs: vec![ColumnSpec {
            table_spec: TableSpec {
                ks_name: "ks".to_string(),
                table_name: "t".to_string(),
            },
            name: "a".to_string(),
            typ: ColumnType::Int,
        }],
    };
    PreparedStatement::new(Bytes::from_static(id), metadata, "q".to_string())
}

fn v4(last: u8, port: u16) -> SocketAddress {
    SocketAddress {
        ip: InetAddress::V4([192, 168, 0, last]),
        port,
    }
}

fn v6(last: u8, port: u16) -> SocketAddress {
    SocketAddress {
        ip: InetAddress::V6([0, 0, 0, 0, 0, 0, 0, 0, 0, 0, 0, 0, 0, 0, 0, last]),
        port,
    }
}

#[test]
fn keyspace_of_a_use_statement() {
    assert_eq!(
        keyspace_of_use_statement("use some_keyspace"),
        ("some_keyspace", false)
    );
    assert_eq!(
        keyspace_of_use_statement("UsE anotherKeySpace;"),
        ("anotherKeySpace", false)
    );
    assert_eq!(
        keyspace_of_use_statement("USE   spaced_out  ;;; "),
        ("spaced_out  ;;;", false)
    );
    assert_eq!(
        keyspace_of_use_statement("use \"CaseSensitive\";"),
        ("CaseSensitive", true)
    );
    assert_eq!(
        keyspace_of_use_statement("use \t\"Quoted\" \n;"),
        ("Quoted", true)
    );
    assert_eq!(keyspace_of_use_statement("use ks\""), ("ks", false));
    assert_eq!(keyspace_of_use_statement("use "), ("", false));
    assert_eq!(keyspace_of_use_statement("use ;"), ("", false));
    assert_eq!(keyspace_of_use_statement("use \"\""), ("", true));
    assert_eq!(
        keyspace_of_use_statement("use \u{a0}zażółć\u{2003};"),
        ("zażółć", false)
    );
    // A text too short for the prefix has no name after it.
    assert_eq!(keyspace_of_use_statement("us"), ("", false));
    assert_eq!(keyspace_of_use_statement(""), ("", false));
}

#[test]
fn queries_are_told_from_use_statements() {
    match classify_query("USE ks;") {
        QueryKind::UseKeyspace(name, case_sensitive) => {
            assert_eq!(name, "ks");
            assert!(!case_sensitive);
        }
        QueryKind::Statement => panic!("a USE statement sets the keyspace"),
    }
    assert!(matches!(
        classify_query("SELECT * FROM use_cases"),
        QueryKind::Statement
    ));
    assert!(matches!(classify_query(""), QueryKind::Statement));
}

#[test]
fn token_of_a_prepared_statement() {
    let mut values = SerializedValues::new();
    values.add_value(&CQLValue::Int(3)).unwrap();
    values.add_value(&CQLValue::Int(4)).unwrap();
    let token = calculate_token(&prepared(&[1], vec![0]), &values).unwrap();
    assert_eq!(
        token,
        Token {
            value: 9010454139840013625
        }
    );
    let compound = calculate_token(&prepared(&[1], vec![0, 1]), &values).unwrap();
    assert_eq!(
        compound.value,
        hash3_x64_128(&[0, 4, 0, 0, 0, 3, 0, 0, 4, 0, 0, 0, 4, 0])
    );
    assert_ne!(compound, token);
    assert_eq!(
        calculate_token(&prepared(&[2], vec![0]), &values).unwrap(),
        token
    );
}

#[test]
fn token_errors() {
    let mut values = SerializedValues::new();
    values.add_value(&CQLValue::Int(3)).unwrap();
    match calculate_token(&prepared(&[1], vec![5]), &values) {
        Err(QueryError::ProtocolError(message)) => {
            assert_eq!(message, "No pk indexes - can't calculate token")
        }
        other => panic!("unexpected {:?}", other),
    }
    let long = vec![0u8; 70000];
    values.add_raw(Some(&long)).unwrap();
    match calculate_token(&prepared(&[1], vec![0, 1]), &values) {
        Err(QueryError::BadQuery(BadQuery::ValuesTooLongForKey(len, max))) => {
            assert_eq!(len, 70000);
            assert_eq!(max, 65535);
        }
        other => panic!("unexpected {:?}", other),
    }
}

#[test]
fn config_defaults_and_known_nodes() {
    let mut config = SessionConfig::new();
    assert!(config.known_nodes.is_empty());
    assert!(config.compression.is_none());
    assert!(!config.tcp_nodelay);
    assert!(config.used_keyspace.is_none());
    assert!(!config.keyspace_case_sensitive);
    assert!(config.retry_policy.is_none());
    config.add_known_node("127.0.0.1:9042");
    config.add_known_node_addr(v4(1, 9042));
    config.add_known_nodes(&["db1.example.com", "db2.example.com:19042"]);
    config.add_known_nodes_addr(&[v4(2, 1), v6(3, 2)]);
    let described: Vec<String> = config
        .known_nodes
        .iter()
        .map(|n| match n {
            KnownNode::Hostname(h) => h.clone(),
            KnownNode::Address(a) => format!("{:?}", a),
        })
        .collect();
    assert_eq!(described.len(), 6);
    assert_eq!(described[0], "127.0.0.1:9042");
    assert_eq!(described[1], format!("{:?}", v4(1, 9042)));
    assert_eq!(described[2], "db1.example.com");
    assert_eq!(described[3], "db2.example.com:19042");
    assert_eq!(described[4], format!("{:?}", v4(2, 1)));
    assert_eq!(described[5], format!("{:?}", v6(3, 2)));
    config.compression = Some(Compression::Snappy);
    config.tcp_nodelay = true;
    let connection = config.get_connection_config();
    assert_eq!(connection.compression, Some(Compression::Snappy));
    assert!(connection.tcp_nodelay);
    assert!(SessionConfig::default().known_nodes.is_empty());
}

#[test]
fn known_nodes_are_split_into_addresses_and_names() {
    let nodes = vec![
        KnownNode::Hostname("a".to_string()),
        KnownNode::Address(v4(1, 1)),
        KnownNode::Hostname("b".to_string()),
        KnownNode::Address(v6(2, 2)),
    ];
    let (addresses, names) = split_known_nodes(&nodes).unwrap();
    assert_eq!(addresses, vec![v4(1, 1), v6(2, 2)]);
    assert_eq!(names, vec!["a", "b"]);
    let only_names = vec![KnownNode::Hostname("x".to_string())];
    let (addresses, names) = split_known_nodes(&only_names).unwrap();
    assert!(addresses.is_empty());
    assert_eq!(names, vec!["x"]);
}

#[test]
fn no_known_node_is_an_error() {
    assert!(matches!(
        split_known_nodes(&Vec::new()),
        Err(NewSessionError::EmptyKnownNodesList)
    ));
}

#[test]
fn resolved_address_prefers_version_four() {
    assert_eq!(
        choose_resolved_address("h", &[v6(1, 1), v4(2, 2), v4(3, 3)]).unwrap(),
        v4(2, 2)
    );
    assert_eq!(
        choose_resolved_address("h", &[v4(9, 9)]).unwrap(),
        v4(9, 9)
    );
    // Without an address of version 4, the last of all is taken.
    assert_eq!(
        choose_resolved_address("h", &[v6(1, 1), v6(2, 2)]).unwrap(),
        v6(2, 2)
    );
    match choose_resolved_address("nowhere.example.com", &[]) {
        Err(NewSessionError::FailedToResolveAddress(name)) => {
            assert_eq!(name, "nowhere.example.com")
        }
        other => panic!("unexpected {:?}", other),
    }
}

fn failed(message: &str) -> Result<PreparedStatement, QueryError> {
    Err(QueryError::DBError(DBError::Invalid, message.to_string()))
}

fn message_of(result: Result<PreparedStatement, QueryError>) -> String {
    match result {
        Err(QueryError::DBError(_, message)) => message,
        Err(QueryError::ProtocolError(message)) => message.to_string(),
        other => panic!("unexpected {:?}", other.map(|p| p.get_id().clone())),
    }
}

#[test]
fn prepared_on_all_connections_with_equal_ids() {
    let result = agree_on_prepared(vec![
        Ok(prepared(&[1, 2], vec![0])),
        failed("one failed"),
        Ok(prepared(&[1, 2], vec![0])),
    ]);
    assert_eq!(result.unwrap().get_id(), &Bytes::from_static(&[1, 2]));
    let result = agree_on_prepared(vec![Ok(prepared(&[7], vec![0]))]);
    assert_eq!(result.unwrap().get_id(), &Bytes::from_static(&[7]));
}

#[test]
fn prepared_ids_that_differ_are_a_protocol_error() {
    let result = agree_on_prepared(vec![
        Ok(prepared(&[1, 2], vec![0])),
        Ok(prepared(&[1, 3], vec![0])),
    ]);
    assert_eq!(
        message_of(result),
        "Prepared statement Ids differ, all should be equal"
    );
    let result = agree_on_prepared(vec![
        Ok(prepared(&[1, 2], vec![0])),
        Ok(prepared(&[1], vec![0])),
        failed("x"),
        Ok(prepared(&[1], vec![0])),
        failed("y"),
    ]);
    assert_eq!(
        message_of(result),
        "Prepared statement Ids differ, all should be equal"
    );
}

#[test]
fn prepare_that_failed_everywhere_reports_the_first_error() {
    let result = agree_on_prepared(vec![failed("first"), failed("second"), failed("third")]);
    assert_eq!(message_of(result), "first");
    assert_eq!(message_of(agree_on_prepared(vec![failed("only")])), "only");
}

#[test]
fn prepare_without_any_answer_is_a_protocol_error() {
    assert_eq!(message_of(agree_on_prepared(vec![])), "No answer to PREPARE");
}
