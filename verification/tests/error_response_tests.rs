use scylla::frame::frame_codec::ResponseOpcode;
use scylla::frame::frame_errors::ParseError;
use scylla::frame::response::error::Error;
use scylla::frame::response::result::Result as CqlResult;
use scylla::frame::response::Response;
use scylla::statement::Consistency;
use scylla::transport::errors::{DBError, QueryError, WriteType};

fn short_string(s: &str) -> Vec<u8> {
    let mut out = vec![(s.len() >> 8) as u8, s.len() as u8];
    out.extend_from_slice(s.as_bytes());
    out
}

fn body(code: i32, reason: &str, details: &[u8]) -> Vec<u8> {
    let mut out = code.to_be_bytes().to_vec();
    out.extend(short_string(reason));
    out.extend_from_slice(details);
    out
}

fn parse(code: i32, details: &[u8]) -> DBError {
    let body = body(code, "why", details);
    let mut cur: &[u8] = &body;
    let error = Error::deserialize(&mut cur).unwrap();
    assert_eq!(error.reason, "why");
    assert!(cur.is_empty());
    error.error
}

#[test]
fn errors_without_details() {
    assert_eq!(parse(0x0000, &[]), DBError::ServerError);
    assert_eq!(parse(0x000a, &[]), DBError::ProtocolError);
    assert_eq!(parse(0x0100, &[]), DBError::AuthenticationError);
    assert_eq!(parse(0x1001, &[]), DBError::Overloaded);
    assert_eq!(parse(0x1002, &[]), DBError::IsBootstrapping);
    assert_eq!(parse(0x1003, &[]), DBError::TruncateError);
    assert_eq!(parse(0x2000, &[]), DBError::SyntaxError);
    assert_eq!(parse(0x2100, &[]), DBError::Unauthorized);
    assert_eq!(parse(0x2200, &[]), DBError::Invalid);
    assert_eq!(parse(0x2300, &[]), DBError::ConfigError);
    assert_eq!(parse(0x1234, &[]), DBError::Other(0x1234));
    assert_eq!(parse(-1, &[]), DBError::Other(-1));
}

#[test]
fn errors_about_replicas() {
    assert_eq!(
        parse(0x1000, &[0, 4, 0, 0, 0, 3, 0, 0, 0, 1]),
        DBError::Unavailable {
            consistency: Consistency::Quorum,
            required: 3,
            alive: 1
        }
    );
    let mut details = vec![0, 1, 0, 0, 0, 1, 0, 0, 0, 2];
    details.extend(short_string("BATCH_LOG"));
    assert_eq!(
        parse(0x1100, &details),
        DBError::WriteTimeout {
            consistency: Consistency::One,
            received: 1,
            required: 2,
            write_type: WriteType::BatchLog
        }
    );
    assert_eq!(
        parse(0x1200, &[0, 5, 0, 0, 0, 2, 0, 0, 0, 3, 1]),
        DBError::ReadTimeout {
            consistency: Consistency::All,
            received: 2,
            required: 3,
            data_present: true
        }
    );
    assert_eq!(
        parse(0x1200, &[0, 5, 0, 0, 0, 2, 0, 0, 0, 3, 0]),
        DBError::ReadTimeout {
            consistency: Consistency::All,
            received: 2,
            required: 3,
            data_present: false
        }
    );
    assert_eq!(
        parse(0x1300, &[0, 2, 0, 0, 0, 1, 0, 0, 0, 2, 0, 0, 0, 1, 9]),
        DBError::ReadFailure {
            consistency: Consistency::Two,
            received: 1,
            required: 2,
            numfailures: 1,
            data_present: true
        }
    );
    let mut details = vec![0, 10, 0, 0, 0, 0, 0, 0, 0, 1, 0, 0, 0, 1];
    details.extend(short_string("WEIRD"));
    assert_eq!(
        parse(0x1500, &details),
        DBError::WriteFailure {
            consistency: Consistency::LocalOne,
            received: 0,
            required: 1,
            numfailures: 1,
            write_type: WriteType::Other("WEIRD".to_string())
        }
    );
}

#[test]
fn errors_with_names() {
    let mut details = short_string("ks");
    details.extend(short_string("f"));
    details.extend([0, 2]);
    details.extend(short_string("int"));
    details.extend(short_string("text"));
    assert_eq!(
        parse(0x1400, &details),
        DBError::FunctionFailure {
            keyspace: "ks".to_string(),
            function: "f".to_string(),
            arg_types: vec!["int".to_string(), "text".to_string()]
        }
    );
    let mut details = short_string("ks");
    details.extend(short_string(""));
    assert_eq!(
        parse(0x2400, &details),
        DBError::AlreadyExists {
            keyspace: "ks".to_string(),
            table: String::new()
        }
    );
    assert_eq!(parse(0x2500, &[0, 2, 0xab, 0xcd]), DBError::Unprepared);
}

#[test]
fn error_bodies_that_are_cut_short() {
    for body in [
        vec![0, 0, 0x10],
        body(0x1000, "r", &[0, 4, 0, 0, 0, 3]),
        body(0x1200, "r", &[0, 5, 0, 0, 0, 2, 0, 0, 0, 3]),
        body(0x2400, "r", &[0, 1, b'k']),
        body(0x2500, "r", &[0, 2, 1]),
        vec![0, 0, 0, 0, 0, 5, b'a'],
    ] {
        let mut cur: &[u8] = &body;
        assert_eq!(
            Error::deserialize(&mut cur).unwrap_err(),
            ParseError::UnexpectedEof
        );
        assert_eq!(cur, &body[..]);
    }
    let bad_consistency = body(0x1000, "r", &[0, 99, 0, 0, 0, 3, 0, 0, 0, 1]);
    let mut cur: &[u8] = &bad_consistency;
    assert_eq!(
        Error::deserialize(&mut cur).unwrap_err(),
        ParseError::UnknownConsistency(99)
    );
}

#[test]
fn error_as_query_error() {
    let error = Error {
        error: DBError::Invalid,
        reason: "no such table".to_string(),
    };
    match error.into_query_error() {
        QueryError::DBError(DBError::Invalid, reason) => assert_eq!(reason, "no such table"),
        other => panic!("unexpected {:?}", other),
    }
}

#[test]
fn responses_by_opcode() {
    let mut cur: &[u8] = &[1, 2];
    assert!(matches!(
        Response::deserialize(ResponseOpcode::Ready, &mut cur),
        Ok(Response::Ready)
    ));
    assert_eq!(cur, &[1, 2][..]);
    assert!(matches!(
        Response::deserialize(ResponseOpcode::Event, &mut cur),
        Ok(Response::Event)
    ));
    assert!(matches!(
        Response::deserialize(ResponseOpcode::AuthChallenge, &mut cur),
        Ok(Response::AuthChallenge)
    ));
    assert!(matches!(
        Response::deserialize(ResponseOpcode::AuthSuccess, &mut cur),
        Ok(Response::AuthSuccess)
    ));
    let error = body(0x2200, "bad", &[]);
    let mut cur: &[u8] = &error;
    match Response::deserialize(ResponseOpcode::Error, &mut cur) {
        Ok(Response::Error(e)) => {
            assert_eq!(e.error, DBError::Invalid);
            assert_eq!(e.reason, "bad");
        }
        other => panic!("unexpected {:?}", other),
    }
    let void = [0, 0, 0, 1];
    let mut cur: &[u8] = &void;
    assert!(matches!(
        Response::deserialize(ResponseOpcode::Result, &mut cur),
        Ok(Response::Result(CqlResult::Void))
    ));
    let name = short_string("org.apache.cassandra.auth.PasswordAuthenticator");
    let mut cur: &[u8] = &name;
    match Response::deserialize(ResponseOpcode::Authenticate, &mut cur) {
        Ok(Response::Authenticate(a)) => assert_eq!(
            a.authenticator_name,
            "org.apache.cassandra.auth.PasswordAuthenticator"
        ),
        other => panic!("unexpected {:?}", other),
    }
    let mut supported = vec![0, 1];
    supported.extend(short_string("COMPRESSION"));
    supported.extend([0, 2]);
    supported.extend(short_string("lz4"));
    supported.extend(short_string("snappy"));
    let mut cur: &[u8] = &supported;
    match Response::deserialize(ResponseOpcode::Supported, &mut cur) {
        Ok(Response::Supported(s)) => assert_eq!(
            s.options,
            vec![(
                "COMPRESSION".to_string(),
                vec!["lz4".to_string(), "snappy".to_string()]
            )]
        ),
        other => panic!("unexpected {:?}", other),
    }
    let mut cur: &[u8] = &[0, 0];
    assert_eq!(
        Response::deserialize(ResponseOpcode::Result, &mut cur).unwrap_err(),
        ParseError::UnexpectedEof
    );
}
