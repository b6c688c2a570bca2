use scylla::frame::request::startup::Startup;
use scylla::frame::response::error::Error;
use scylla::frame::response::result::{Result as CqlResult, SetKeyspace};
use scylla::frame::response::{Authenticate, Response, Supported};
use scylla::transport::connection::{
    Compression, Handshake, HandshakeAction, StreamTable, VerifiedKeyspaceName,
    MAX_KEYSPACE_NAME_LEN, STREAM_IDS,
};
use scylla::transport::errors::{BadKeyspaceName, DBError, QueryError};

fn options(startup: &Startup) -> Vec<(String, String)> {
    startup.options.clone()
}

#[test]
fn keyspace_name_scenarios() {
    assert!(matches!(
        VerifiedKeyspaceName::new("".to_string(), false),
        Err(BadKeyspaceName::Empty)
    ));
    match VerifiedKeyspaceName::new("a".repeat(49), false) {
        Err(BadKeyspaceName::TooLong(name, len)) => {
            assert_eq!(name, "a".repeat(49));
            assert_eq!(len, 49);
        }
        other => panic!("unexpected {:?}", other),
    }
    let good = VerifiedKeyspaceName::new("good_name_1".to_string(), false).unwrap();
    assert_eq!(good.as_str(), "good_name_1");
    match VerifiedKeyspaceName::new("bad-name".to_string(), false) {
        Err(BadKeyspaceName::IllegalCharacter(name, c)) => {
            assert_eq!(name, "bad-name");
            assert_eq!(c, '-');
        }
        other => panic!("unexpected {:?}", other),
    }
}

#[test]
fn keyspace_name_limits() {
    assert_eq!(MAX_KEYSPACE_NAME_LEN, 48);
    assert!(VerifiedKeyspaceName::new("a".repeat(48), false).is_ok());
    assert!(VerifiedKeyspaceName::new("Z".to_string(), false).is_ok());
    // Length counts characters, and is looked at before the characters are.
    match VerifiedKeyspaceName::new("ż".repeat(49), false) {
        Err(BadKeyspaceName::TooLong(_, len)) => assert_eq!(len, 49),
        other => panic!("unexpected {:?}", other),
    }
    match VerifiedKeyspaceName::new("ż".repeat(48), false) {
        Err(BadKeyspaceName::IllegalCharacter(_, c)) => assert_eq!(c, 'ż'),
        other => panic!("unexpected {:?}", other),
    }
    // The first illegal character is reported.
    match VerifiedKeyspaceName::new("ab c;d".to_string(), false) {
        Err(BadKeyspaceName::IllegalCharacter(_, c)) => assert_eq!(c, ' '),
        other => panic!("unexpected {:?}", other),
    }
    for c in ['`', '@', '[', '{', '/', ':', '"', '\''] {
        let name = format!("a{}", c);
        match VerifiedKeyspaceName::new(name, false) {
            Err(BadKeyspaceName::IllegalCharacter(_, found)) => assert_eq!(found, c),
            other => panic!("unexpected {:?}", other),
        }
    }
}

#[test]
fn case_sensitive_keyspace_names_take_printable_characters() {
    let quoted = VerifiedKeyspaceName::new("My Keyspace-1!".to_string(), true).unwrap();
    assert!(quoted.is_case_sensitive());
    assert_eq!(quoted.use_statement(), "USE \"My Keyspace-1!\"");
    assert_eq!(quoted.clone().as_str(), "My Keyspace-1!");
    match VerifiedKeyspaceName::new("a\"b".to_string(), true) {
        Err(BadKeyspaceName::IllegalCharacter(_, c)) => assert_eq!(c, '"'),
        other => panic!("unexpected {:?}", other),
    }
    match VerifiedKeyspaceName::new("a\tb".to_string(), true) {
        Err(BadKeyspaceName::IllegalCharacter(_, c)) => assert_eq!(c, '\t'),
        other => panic!("unexpected {:?}", other),
    }
    match VerifiedKeyspaceName::new("zażółć".to_string(), true) {
        Err(BadKeyspaceName::IllegalCharacter(_, c)) => assert_eq!(c, 'ż'),
        other => panic!("unexpected {:?}", other),
    }
    assert!(matches!(
        VerifiedKeyspaceName::new(String::new(), true),
        Err(BadKeyspaceName::Empty)
    ));
    let plain = VerifiedKeyspaceName::new("ks".to_string(), false).unwrap();
    assert_eq!(plain.use_statement(), "USE ks");
}

#[test]
fn stream_ids_are_in_use_while_someone_waits() {
    let mut table: StreamTable<&'static str> = StreamTable::new();
    table.check();
    assert!(!table.is_in_use(0));
    assert_eq!(table.register("a"), Ok(0));
    assert_eq!(table.register("b"), Ok(1));
    assert_eq!(table.register("c"), Ok(2));
    assert!(table.is_in_use(0) && table.is_in_use(1) && table.is_in_use(2));
    assert!(!table.is_in_use(3));
    assert!(!table.is_in_use(-1));
    assert_eq!(table.take(1), Some("b"));
    assert!(!table.is_in_use(1));
    assert_eq!(table.take(1), None);
    assert_eq!(table.take(77), None);
    assert_eq!(table.take(-5), None);
    // A freed id is taken again before a fresh one.
    assert_eq!(table.register("d"), Ok(1));
    assert_eq!(table.register("e"), Ok(3));
    assert_eq!(table.take(0), Some("a"));
    assert_eq!(table.take(3), Some("e"));
    let left = table.close();
    assert_eq!(left, vec![(1, "d"), (2, "c")]);
    for id in 0..5 {
        assert!(!table.is_in_use(id));
    }
    assert!(table.close().is_empty());
    assert_eq!(table.register("f"), Ok(0));
}

#[test]
fn stream_ids_run_out_at_two_to_the_fifteenth() {
    assert_eq!(STREAM_IDS, 32768);
    let mut table: StreamTable<u32> = StreamTable::new();
    for i in 0..32768u32 {
        assert_eq!(table.register(i), Ok(i as i16));
    }
    assert_eq!(table.register(99), Err(99));
    assert!(table.is_in_use(i16::MAX));
    assert_eq!(table.take(12345), Some(12345));
    assert_eq!(table.register(7), Ok(12345));
    assert_eq!(table.register(8), Err(8));
    assert_eq!(table.close().len(), 32768);
    assert!(!table.is_in_use(0));
}

fn supported(options: &[(&str, &[&str])]) -> Response {
    Response::Supported(Supported {
        options: options
            .iter()
            .map(|(name, values)| {
                (
                    name.to_string(),
                    values.iter().map(|v| v.to_string()).collect(),
                )
            })
            .collect(),
    })
}

/// A handshake that has sent `OPTIONS` and got this answer.
fn after_options(
    wanted: Option<Compression>,
    keyspace: Option<VerifiedKeyspaceName>,
    answer: Response,
) -> (Handshake, HandshakeAction) {
    let mut handshake = Handshake::new(wanted, keyspace);
    assert!(matches!(handshake.start(), HandshakeAction::SendOptions));
    let action = handshake.response_received(answer);
    (handshake, action)
}

#[test]
fn handshake_without_keyspace() {
    let mut handshake = Handshake::new(None, None);
    assert_eq!(handshake.get_compression(), None);
    assert!(matches!(handshake.start(), HandshakeAction::SendOptions));
    assert!(matches!(handshake.start(), HandshakeAction::Idle));
    match handshake.response_received(supported(&[("COMPRESSION", &["lz4", "snappy"])])) {
        HandshakeAction::SendStartup(startup) => assert_eq!(
            options(&startup),
            vec![("CQL_VERSION".to_string(), "4.0.0".to_string())]
        ),
        _ => panic!("STARTUP follows the options"),
    }
    assert_eq!(handshake.get_compression(), None);
    assert!(matches!(
        handshake.response_received(Response::Ready),
        HandshakeAction::Done
    ));
    assert!(matches!(
        handshake.response_received(Response::Ready),
        HandshakeAction::Idle
    ));
}

#[test]
fn handshake_with_compression_and_keyspace() {
    let keyspace = VerifiedKeyspaceName::new("Ks".to_string(), true).unwrap();
    let mut handshake = Handshake::new(Some(Compression::Lz4), Some(keyspace));
    assert!(matches!(
        handshake.response_received(Response::Ready),
        HandshakeAction::Idle
    ));
    assert!(matches!(handshake.start(), HandshakeAction::SendOptions));
    assert_eq!(handshake.get_compression(), None);
    match handshake.response_received(supported(&[
        ("CQL_VERSION", &["3.4.5"]),
        ("COMPRESSION", &["snappy", "lz4"]),
    ])) {
        HandshakeAction::SendStartup(startup) => assert_eq!(
            options(&startup),
            vec![
                ("CQL_VERSION".to_string(), "4.0.0".to_string()),
                ("COMPRESSION".to_string(), "lz4".to_string())
            ]
        ),
        _ => panic!("STARTUP follows the options"),
    }
    assert_eq!(handshake.get_compression(), Some(Compression::Lz4));
    match handshake.response_received(Response::Ready) {
        HandshakeAction::SendUse(statement) => assert_eq!(statement, "USE \"Ks\""),
        _ => panic!("the keyspace is set after READY"),
    }
    assert!(matches!(
        handshake.response_received(Response::Result(CqlResult::SetKeyspace(SetKeyspace {}))),
        HandshakeAction::Done
    ));
    assert_eq!(handshake.get_compression(), Some(Compression::Lz4));
    assert_eq!(Compression::Snappy.to_str(), "snappy");
    let (handshake, action) = after_options(
        Some(Compression::Snappy),
        None,
        supported(&[("COMPRESSION", &["snappy"])]),
    );
    match action {
        HandshakeAction::SendStartup(startup) => {
            assert_eq!(startup.options[1].1, "snappy")
        }
        _ => panic!("STARTUP follows the options"),
    }
    assert_eq!(handshake.get_compression(), Some(Compression::Snappy));
}

#[test]
fn handshake_goes_without_a_compression_that_is_not_offered() {
    let plain = vec![("CQL_VERSION".to_string(), "4.0.0".to_string())];
    let answers = vec![
        supported(&[("COMPRESSION", &["snappy"])]),
        supported(&[("COMPRESSION", &[])]),
        supported(&[("CQL_VERSION", &["lz4"])]),
        supported(&[("compression", &["lz4"])]),
        supported(&[("COMPRESSION", &["LZ4"])]),
        // The first option of the name counts.
        supported(&[("COMPRESSION", &["snappy"]), ("COMPRESSION", &["lz4"])]),
        supported(&[]),
        // An answer that is no list of options offers nothing.
        Response::Ready,
        Response::Error(Error {
            error: DBError::ProtocolError,
            reason: "no OPTIONS here".to_string(),
        }),
    ];
    for answer in answers {
        let (mut handshake, action) = after_options(Some(Compression::Lz4), None, answer);
        match action {
            HandshakeAction::SendStartup(startup) => assert_eq!(options(&startup), plain),
            _ => panic!("STARTUP follows the options"),
        }
        assert_eq!(handshake.get_compression(), None);
        assert!(matches!(
            handshake.response_received(Response::Ready),
            HandshakeAction::Done
        ));
    }
}

#[test]
fn handshake_failures() {
    let error = || {
        Response::Error(Error {
            error: DBError::Overloaded,
            reason: "busy".to_string(),
        })
    };
    let (mut handshake, _) = after_options(None, None, supported(&[]));
    match handshake.response_received(error()) {
        HandshakeAction::Fail(QueryError::DBError(DBError::Overloaded, reason)) => {
            assert_eq!(reason, "busy")
        }
        _ => panic!("an error ends the handshake"),
    }
    assert!(matches!(
        handshake.response_received(Response::Ready),
        HandshakeAction::Idle
    ));

    let (mut handshake, _) = after_options(None, None, supported(&[]));
    match handshake.response_received(Response::Authenticate(Authenticate {
        authenticator_name: "PasswordAuthenticator".to_string(),
    })) {
        HandshakeAction::Fail(QueryError::ProtocolError(message)) => {
            assert_eq!(message, "Authentication is not supported")
        }
        _ => panic!("authentication is not supported"),
    }

    let (mut handshake, _) = after_options(None, None, supported(&[]));
    match handshake.response_received(Response::Result(CqlResult::Void)) {
        HandshakeAction::Fail(QueryError::ProtocolError(message)) => {
            assert_eq!(message, "Unexpected response to STARTUP message")
        }
        _ => panic!("a result is no answer to STARTUP"),
    }

    let keyspace = || VerifiedKeyspaceName::new("ks".to_string(), false).unwrap();
    let (mut handshake, _) = after_options(None, Some(keyspace()), supported(&[]));
    handshake.response_received(Response::Ready);
    match handshake.response_received(Response::Ready) {
        HandshakeAction::Fail(QueryError::ProtocolError(message)) => {
            assert_eq!(message, "USE <keyspace_name> returned unexpected response")
        }
        _ => panic!("READY is no answer to USE"),
    }
    let (mut handshake, _) = after_options(None, Some(keyspace()), supported(&[]));
    handshake.response_received(Response::Ready);
    assert!(matches!(
        handshake.response_received(error()),
        HandshakeAction::Fail(QueryError::DBError(DBError::Overloaded, _))
    ));
}
