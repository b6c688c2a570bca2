use bytes::Bytes;
use scylla::frame::frame_codec::RequestOpcode;
use scylla::frame::frame_errors::SerializeError;
use scylla::frame::request::batch::{Batch, BatchType};
use scylla::frame::request::execute::Execute;
use scylla::frame::request::prepare::Prepare;
use scylla::frame::request::query::{Query, QueryParameters};
use scylla::frame::request::startup::{Options, Startup};
use scylla::frame::response::result::{CQLValue, PreparedMetadata};
use scylla::frame::value::SerializedValues;
use scylla::statement::batch::BatchStatement;
use scylla::statement::prepared_statement::PreparedStatement;
use scylla::statement::Consistency;
use scylla::transport::connection::Compression;

fn values(ints: &[i32]) -> SerializedValues {
    let mut values = SerializedValues::new();
    for i in ints {
        values.add_value(&CQLValue::Int(*i)).unwrap();
    }
    values
}

#[test]
fn query_parameters_on_the_wire() {
    let none = SerializedValues::new();
    let plain = QueryParameters {
        consistency: Consistency::One,
        page_size: None,
        paging_state: None,
        values: &none,
    };
    let mut buf = Vec::new();
    assert_eq!(plain.serialize(&mut buf), Ok(()));
    assert_eq!(buf, vec![0, 1, 0]);

    let bound = values(&[7]);
    let full = QueryParameters {
        consistency: Consistency::Quorum,
        page_size: Some(10),
        paging_state: Some(Bytes::from_static(&[0xaa, 0xbb])),
        values: &bound,
    };
    let mut buf = vec![0xff];
    assert_eq!(full.serialize(&mut buf), Ok(()));
    assert_eq!(
        buf,
        vec![
            0xff, 0, 4, 0x0d, 0, 1, 0, 0, 0, 4, 0, 0, 0, 7, 0, 0, 0, 10, 0, 0, 0, 2, 0xaa, 0xbb
        ]
    );

    let paged = QueryParameters {
        consistency: Consistency::Any,
        page_size: Some(5000),
        paging_state: None,
        values: &none,
    };
    let mut buf = Vec::new();
    assert_eq!(paged.serialize(&mut buf), Ok(()));
    assert_eq!(buf, vec![0, 0, 0x04, 0, 0, 0x13, 0x88]);
}

#[test]
fn query_request() {
    let none = SerializedValues::new();
    let query = Query {
        contents: "SELECT 1",
        parameters: QueryParameters {
            consistency: Consistency::Two,
            page_size: None,
            paging_state: None,
            values: &none,
        },
    };
    assert_eq!(query.opcode(), RequestOpcode::Query);
    let mut buf = Vec::new();
    assert_eq!(query.serialize(&mut buf), Ok(()));
    let mut expected = vec![0, 0, 0, 8];
    expected.extend_from_slice(b"SELECT 1");
    expected.extend([0, 2, 0]);
    assert_eq!(buf, expected);
}

#[test]
fn prepare_request() {
    let prepare = Prepare { query: "INSERT" };
    assert_eq!(prepare.opcode(), RequestOpcode::Prepare);
    let mut buf = vec![1];
    assert_eq!(prepare.serialize(&mut buf), Ok(()));
    assert_eq!(buf, vec![1, 0, 0, 0, 6, b'I', b'N', b'S', b'E', b'R', b'T']);
}

#[test]
fn execute_request() {
    let bound = values(&[42]);
    let execute = Execute {
        id: Bytes::from_static(&[0xde, 0xad]),
        parameters: QueryParameters {
            consistency: Consistency::LocalQuorum,
            page_size: None,
            paging_state: None,
            values: &bound,
        },
    };
    assert_eq!(execute.opcode(), RequestOpcode::Execute);
    let mut buf = Vec::new();
    assert_eq!(execute.serialize(&mut buf), Ok(()));
    assert_eq!(
        buf,
        vec![0, 2, 0xde, 0xad, 0, 6, 1, 0, 1, 0, 0, 0, 4, 0, 0, 0, 42]
    );
    let too_long = Execute {
        id: Bytes::from(vec![0u8; 65536]),
        parameters: QueryParameters {
            consistency: Consistency::One,
            page_size: None,
            paging_state: None,
            values: &bound,
        },
    };
    let mut buf = vec![5];
    assert_eq!(
        too_long.serialize(&mut buf),
        Err(SerializeError::ShortLengthOverflow)
    );
    assert_eq!(buf, vec![5]);
}

#[test]
fn startup_and_options_requests() {
    let startup = Startup::new(None);
    assert_eq!(startup.opcode(), RequestOpcode::Startup);
    let mut buf = Vec::new();
    assert_eq!(startup.serialize(&mut buf), Ok(()));
    let mut expected = vec![0, 1, 0, 11];
    expected.extend_from_slice(b"CQL_VERSION");
    expected.extend([0, 5]);
    expected.extend_from_slice(b"4.0.0");
    assert_eq!(buf, expected);

    let compressed = Startup::new(Some(Compression::Lz4));
    assert_eq!(compressed.options.len(), 2);
    assert_eq!(
        compressed.options[1],
        ("COMPRESSION".to_string(), "lz4".to_string())
    );
    let mut buf = Vec::new();
    assert_eq!(compressed.serialize(&mut buf), Ok(()));
    assert_eq!(&buf[0..2], &[0, 2]);

    let options = Options;
    assert_eq!(options.opcode(), RequestOpcode::Options);
    let mut buf = vec![3];
    assert_eq!(options.serialize(&mut buf), Ok(()));
    assert_eq!(buf, vec![3]);
}

fn prepared(id: &'static [u8]) -> PreparedStatement {
    PreparedStatement::new(
        Bytes::from_static(id),
        PreparedMetadata {
            col_count: 0,
            pk_indexes: vec![],
            col_specs: vec![],
        },
        "INSERT".to_string(),
    )
}

#[test]
fn batch_request() {
    let statements = vec![
        BatchStatement::from("AB"),
        BatchStatement::from(prepared(&[9, 8])),
    ];
    let value_lists = vec![values(&[]), values(&[5])];
    let batch = Batch {
        statements: &statements,
        batch_type: BatchType::Counter,
        consistency: Consistency::Three,
        values: &value_lists,
    };
    assert_eq!(batch.opcode(), RequestOpcode::Batch);
    let mut buf = vec![0xee];
    assert_eq!(batch.serialize(&mut buf), Ok(()));
    assert_eq!(
        buf,
        vec![
            0xee, 2, 0, 2, // kind of batch, number of statements
            0, 0, 0, 0, 2, b'A', b'B', 0, 0, // a query without values
            1, 0, 2, 9, 8, 0, 1, 0, 0, 0, 4, 0, 0, 0, 5, // a prepared statement with one
            0, 3, 0, // consistency, flags
        ]
    );
}

#[test]
fn batch_request_faults() {
    let statements = vec![BatchStatement::from("AB")];
    let no_lists: Vec<SerializedValues> = vec![];
    let batch = Batch {
        statements: &statements,
        batch_type: BatchType::Logged,
        consistency: Consistency::One,
        values: &no_lists,
    };
    let mut buf = vec![1, 2];
    assert_eq!(
        batch.serialize(&mut buf),
        Err(SerializeError::ValueCountMismatch)
    );
    assert_eq!(buf, vec![1, 2]);

    let long_id = vec![
        BatchStatement::from("AB"),
        BatchStatement::from(PreparedStatement::new(
            Bytes::from(vec![0u8; 70000]),
            PreparedMetadata {
                col_count: 0,
                pk_indexes: vec![],
                col_specs: vec![],
            },
            "INSERT".to_string(),
        )),
    ];
    let lists = vec![values(&[]), values(&[])];
    let batch = Batch {
        statements: &long_id,
        batch_type: BatchType::Logged,
        consistency: Consistency::One,
        values: &lists,
    };
    assert_eq!(
        batch.serialize(&mut buf),
        Err(SerializeError::ShortLengthOverflow)
    );
    assert_eq!(buf, vec![1, 2]);

    let empty: Vec<BatchStatement> = vec![];
    let batch = Batch {
        statements: &empty,
        batch_type: BatchType::Unlogged,
        consistency: Consistency::One,
        values: &no_lists,
    };
    assert_eq!(batch.serialize(&mut buf), Ok(()));
    assert_eq!(buf, vec![1, 2, 1, 0, 0, 0, 1, 0]);
}

#[test]
fn prepared_insert_executed_twice() {
    // INSERT INTO t (a, b, c) VALUES (?, 7, ?), executed with (42, "one") and (43, "two").
    let id = Bytes::from_static(&[0x11, 0x22]);
    let mut bodies = Vec::new();
    for (a, c) in [(42, "one"), (43, "two")] {
        let mut bound = SerializedValues::new();
        bound.add_value(&CQLValue::Int(a)).unwrap();
        bound.add_value(&CQLValue::Text(c.to_string())).unwrap();
        let execute = Execute {
            id: id.clone(),
            parameters: QueryParameters {
                consistency: Consistency::Quorum,
                page_size: None,
                paging_state: None,
                values: &bound,
            },
        };
        let mut body = Vec::new();
        assert_eq!(execute.serialize(&mut body), Ok(()));
        bodies.push(body);
    }
    assert_eq!(
        bodies[0],
        vec![
            0, 2, 0x11, 0x22, 0, 4, 1, 0, 2, 0, 0, 0, 4, 0, 0, 0, 42, 0, 0, 0, 3, b'o', b'n',
            b'e'
        ]
    );
    assert_eq!(
        bodies[1],
        vec![
            0, 2, 0x11, 0x22, 0, 4, 1, 0, 2, 0, 0, 0, 4, 0, 0, 0, 43, 0, 0, 0, 3, b't', b'w',
            b'o'
        ]
    );
}
