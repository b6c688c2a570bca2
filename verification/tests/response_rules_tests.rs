use bytes::Bytes;
use scylla::frame::frame_codec::{FrameHeader, Opcode, RequestOpcode, ResponseOpcode};
use scylla::frame::frame_errors::ParseError;
use scylla::frame::response::error::Error;
use scylla::frame::response::result::{
    CQLValue, Prepared, PreparedMetadata, Result as CqlResult, ResultMetadata, Row, Rows,
    SchemaChange, SetKeyspace,
};
use scylla::frame::response::{Response, ResponseError};
use scylla::statement::Consistency;
use scylla::transport::errors::{DBError, QueryError};
use scylla::transport::session::{
    failure_of_response, keyspace_set_by_response, prepared_of_response, rows_of_response,
};

fn error() -> Response {
    Response::Error(Error {
        error: DBError::SyntaxError,
        reason: "line 1".to_string(),
    })
}

fn rows() -> Response {
    Response::Result(CqlResult::Rows(Rows {
        metadata: ResultMetadata::default(),
        rows_count: 1,
        rows: vec![Row {
            columns: vec![Some(CQLValue::Int(3))],
        }],
    }))
}

fn protocol_message<T: std::fmt::Debug>(result: Result<T, QueryError>) -> &'static str {
    match result {
        Err(QueryError::ProtocolError(message)) => message,
        other => panic!("unexpected {:?}", other),
    }
}

#[test]
fn rows_come_only_with_a_result_of_rows() {
    let found = rows_of_response(rows()).unwrap().unwrap();
    assert_eq!(found.len(), 1);
    assert_eq!(found[0].columns[0].as_ref().unwrap().as_int(), Some(3));
    assert!(rows_of_response(Response::Result(CqlResult::Void))
        .unwrap()
        .is_none());
    assert!(
        rows_of_response(Response::Result(CqlResult::SchemaChange(SchemaChange {})))
            .unwrap()
            .is_none()
    );
    assert!(
        rows_of_response(Response::Result(CqlResult::SetKeyspace(SetKeyspace {})))
            .unwrap()
            .is_none()
    );
    match rows_of_response(error()) {
        Err(QueryError::DBError(DBError::SyntaxError, reason)) => assert_eq!(reason, "line 1"),
        other => panic!("unexpected {:?}", other),
    }
    assert_eq!(
        protocol_message(rows_of_response(Response::Ready)),
        "QUERY: Unexpected server response"
    );
    assert_eq!(
        protocol_message(rows_of_response(Response::AuthSuccess)),
        "QUERY: Unexpected server response"
    );
}

#[test]
fn errors_of_the_server_are_failures() {
    assert!(matches!(
        failure_of_response(error()),
        Err(QueryError::DBError(DBError::SyntaxError, _))
    ));
    assert!(matches!(
        failure_of_response(Response::Ready),
        Ok(Response::Ready)
    ));
    assert!(matches!(
        failure_of_response(rows()),
        Ok(Response::Result(CqlResult::Rows(_)))
    ));
}

#[test]
fn prepared_statement_of_a_response() {
    let response = Response::Result(CqlResult::Prepared(Prepared {
        id: Bytes::from_static(&[5, 6]),
        prepared_metadata: PreparedMetadata {
            col_count: 0,
            pk_indexes: vec![3],
            col_specs: vec![],
        },
        result_metadata: ResultMetadata::default(),
    }));
    let prepared = prepared_of_response(response, "SELECT ?").unwrap();
    assert_eq!(prepared.get_id(), &Bytes::from_static(&[5, 6]));
    assert_eq!(prepared.get_statement(), "SELECT ?");
    assert_eq!(prepared.get_metadata().pk_indexes, vec![3]);
    assert_eq!(prepared.get_consistency(), Consistency::Quorum);
    assert_eq!(prepared.get_page_size(), None);
    assert!(matches!(
        prepared_of_response(error(), "q"),
        Err(QueryError::DBError(DBError::SyntaxError, _))
    ));
    match prepared_of_response(rows(), "q") {
        Err(QueryError::ProtocolError(message)) => {
            assert_eq!(message, "PREPARE: Unexpected server response")
        }
        _ => panic!("rows are no answer to PREPARE"),
    }
}

#[test]
fn keyspace_set_by_a_response() {
    assert!(
        keyspace_set_by_response(Response::Result(CqlResult::SetKeyspace(SetKeyspace {})))
            .is_ok()
    );
    assert!(matches!(
        keyspace_set_by_response(error()),
        Err(QueryError::DBError(DBError::SyntaxError, _))
    ));
    assert_eq!(
        protocol_message(keyspace_set_by_response(Response::Result(CqlResult::Void))),
        "USE <keyspace_name> returned unexpected response"
    );
}

fn header(opcode: Opcode, flags: u8, length: usize) -> FrameHeader {
    FrameHeader {
        flags,
        stream: 1,
        opcode,
        length,
    }
}

#[test]
fn response_of_a_frame() {
    let void = [0, 0, 0, 1];
    let result = Opcode::Response(ResponseOpcode::Result);
    assert!(matches!(
        Response::from_frame(&header(result, 0, 4), &void, None),
        Ok(Response::Result(CqlResult::Void))
    ));
    assert!(matches!(
        Response::from_frame(&header(result, 0x02, 4), &void, None),
        Ok(Response::Result(CqlResult::Void))
    ));
    assert_eq!(
        Response::from_frame(
            &header(Opcode::Request(RequestOpcode::Query), 0, 4),
            &void,
            None
        )
            .unwrap_err(),
        ResponseError::NotAResponse
    );
    assert_eq!(
        Response::from_frame(&header(result, 0x01, 4), &void, None).unwrap_err(),
        ResponseError::UnexpectedCompression
    );
    assert_eq!(
        Response::from_frame(&header(result, 0, 5), &void, None).unwrap_err(),
        ResponseError::WrongBodyLength
    );
    assert_eq!(
        Response::from_frame(&header(result, 0, 2), &void[0..2], None).unwrap_err(),
        ResponseError::Parse(ParseError::UnexpectedEof)
    );
    assert!(matches!(
        QueryError::from(ResponseError::NotAResponse),
        QueryError::ProtocolError("Error parsing message")
    ));
}
