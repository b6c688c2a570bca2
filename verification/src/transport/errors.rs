//! The errors that a session reports.

use crate::frame::frame_errors::{CompressionError, FrameError, ParseError};
use crate::frame::response::ResponseError;
use crate::frame::value::SerializeValuesError;
use crate::statement::Consistency;
use crate::text::str_equal;
use std::sync::Arc;
use vstd::prelude::*;
use vstd::std_specs::convert::FromSpecImpl;

verus! {

/// `std::io::Error`, which an I/O error of a session carries along. Nothing
/// inside it is visible to proofs.
#[verifier::external_type_specification]
#[verifier::external_body]
pub struct ExIoError(std::io::Error);

/// Why a query failed.
#[derive(Debug, Clone)]
pub enum QueryError {
    /// The database answered with an error and a message.
    DBError(DBError, String),
    /// The caller passed something that cannot be sent.
    BadQuery(BadQuery),
    /// Reading or writing failed: a broken connection and the like.
    IOError(Arc<std::io::Error>),
    /// A message was not what the protocol allows at that point.
    ProtocolError(&'static str),
}

/// An error that the database sent in answer to a request.
#[derive(Debug, Clone, PartialEq, Eq)]
pub enum DBError {
    /// The statement has a syntax error.
    SyntaxError,
    /// The statement is well formed but cannot be executed.
    Invalid,
    /// A keyspace or a table that was to be created exists already.
    AlreadyExists {
        /// The keyspace, or the keyspace of the table.
        keyspace: String,
        /// The table; empty when a keyspace was to be created.
        table: String,
    },
    /// A user defined function failed while it ran.
    FunctionFailure {
        /// The keyspace of the function.
        keyspace: String,
        /// The name of the function.
        function: String,
        /// The types of its arguments.
        arg_types: Vec<String>,
    },
    /// The credentials were not accepted.
    AuthenticationError,
    /// The user may not do what the statement asks.
    Unauthorized,
    /// The statement is invalid because of the configuration.
    ConfigError,
    /// Too few replicas are alive for the consistency level.
    Unavailable {
        /// The consistency level of the request.
        consistency: Consistency,
        /// How many replicas would have to be alive.
        required: i32,
        /// How many are alive.
        alive: i32,
    },
    /// The coordinator is overloaded.
    Overloaded,
    /// The coordinator is still bootstrapping.
    IsBootstrapping,
    /// A truncate failed.
    TruncateError,
    /// Too few replicas answered a read in time.
    ReadTimeout {
        /// The consistency level of the request.
        consistency: Consistency,
        /// How many replicas answered.
        received: i32,
        /// How many answers the consistency level asks for.
        required: i32,
        /// Whether the replica that was asked for the data answered.
        data_present: bool,
    },
    /// Too few replicas acknowledged a write in time.
    WriteTimeout {
        /// The consistency level of the request.
        consistency: Consistency,
        /// How many replicas acknowledged.
        received: i32,
        /// How many acknowledgements the consistency level asks for.
        required: i32,
        /// The kind of write.
        write_type: WriteType,
    },
    /// A read failed for another reason than time.
    ReadFailure {
        /// The consistency level of the request.
        consistency: Consistency,
        /// How many replicas answered.
        received: i32,
        /// How many answers the consistency level asks for.
        required: i32,
        /// How many replicas failed.
        numfailures: i32,
        /// Whether the replica that was asked for the data answered.
        data_present: bool,
    },
    /// A write failed for another reason than time.
    WriteFailure {
        /// The consistency level of the request.
        consistency: Consistency,
        /// How many replicas acknowledged.
        received: i32,
        /// How many acknowledgements the consistency level asks for.
        required: i32,
        /// How many replicas failed.
        numfailures: i32,
        /// The kind of write.
        write_type: WriteType,
    },
    /// The statement is not prepared on the node that was asked to execute it.
    Unprepared,
    /// The server met an error of its own.
    ServerError,
    /// The server could not make sense of what the driver sent.
    ProtocolError,
    /// An error code that the protocol does not list.
    Other(i32),
}

/// The kind of write that timed out or failed.
#[derive(Debug, Clone, PartialEq, Eq)]
pub enum WriteType {
    /// A single write that is neither batched nor a counter.
    Simple,
    /// A logged batch, whose batch log was written.
    Batch,
    /// An unlogged batch.
    UnloggedBatch,
    /// A counter write.
    Counter,
    /// The write to the batch log of a logged batch.
    BatchLog,
    /// A compare-and-set write.
    CAS,
    /// A write that updates a materialized view.
    View,
    /// A write to data tracked by change data capture.
    CDC,
    /// A kind that the protocol does not list, by its name.
    Other(String),
}

/// What a [`WriteType`] says.
pub enum WriteTypeView {
    Simple,
    Batch,
    UnloggedBatch,
    Counter,
    BatchLog,
    CAS,
    View,
    CDC,
    Other(Seq<char>),
}

impl View for WriteType {
    type V = WriteTypeView;

    open spec fn view(&self) -> WriteTypeView {
        match self {
            WriteType::Simple => WriteTypeView::Simple,
            WriteType::Batch => WriteTypeView::Batch,
            WriteType::UnloggedBatch => WriteTypeView::UnloggedBatch,
            WriteType::Counter => WriteTypeView::Counter,
            WriteType::BatchLog => WriteTypeView::BatchLog,
            WriteType::CAS => WriteTypeView::CAS,
            WriteType::View => WriteTypeView::View,
            WriteType::CDC => WriteTypeView::CDC,
            WriteType::Other(name) => WriteTypeView::Other(name@),
        }
    }
}

/// What a [`DBError`] says.
pub enum DBErrorView {
    SyntaxError,
    Invalid,
    AlreadyExists { keyspace: Seq<char>, table: Seq<char> },
    FunctionFailure { keyspace: Seq<char>, function: Seq<char>, arg_types: Seq<Seq<char>> },
    AuthenticationError,
    Unauthorized,
    ConfigError,
    Unavailable { consistency: Consistency, required: i32, alive: i32 },
    Overloaded,
    IsBootstrapping,
    TruncateError,
    ReadTimeout { consistency: Consistency, received: i32, required: i32, data_present: bool },
    WriteTimeout {
        consistency: Consistency,
        received: i32,
        required: i32,
        write_type: WriteTypeView,
    },
    ReadFailure {
        consistency: Consistency,
        received: i32,
        required: i32,
        numfailures: i32,
        data_present: bool,
    },
    WriteFailure {
        consistency: Consistency,
        received: i32,
        required: i32,
        numfailures: i32,
        write_type: WriteTypeView,
    },
    Unprepared,
    ServerError,
    ProtocolError,
    Other(i32),
}

impl View for DBError {
    type V = DBErrorView;

    open spec fn view(&self) -> DBErrorView {
        match self {
            DBError::SyntaxError => DBErrorView::SyntaxError,
            DBError::Invalid => DBErrorView::Invalid,
            DBError::AlreadyExists { keyspace, table } => DBErrorView::AlreadyExists {
                keyspace: keyspace@,
                table: table@,
            },
            DBError::FunctionFailure {
                keyspace,
                function,
                arg_types,
            } => DBErrorView::FunctionFailure {
                keyspace: keyspace@,
                function: function@,
                arg_types: arg_types.deep_view(),
            },
            DBError::AuthenticationError => DBErrorView::AuthenticationError,
            DBError::Unauthorized => DBErrorView::Unauthorized,
            DBError::ConfigError => DBErrorView::ConfigError,
            DBError::Unavailable { consistency, required, alive } => DBErrorView::Unavailable {
                consistency: *consistency,
                required: *required,
                alive: *alive,
            },
            DBError::Overloaded => DBErrorView::Overloaded,
            DBError::IsBootstrapping => DBErrorView::IsBootstrapping,
            DBError::TruncateError => DBErrorView::TruncateError,
            DBError::ReadTimeout {
                consistency,
                received,
                required,
                data_present,
            } => DBErrorView::ReadTimeout {
                consistency: *consistency,
                received: *received,
                required: *required,
                data_present: *data_present,
            },
            DBError::WriteTimeout {
                consistency,
                received,
                required,
                write_type,
            } => DBErrorView::WriteTimeout {
                consistency: *consistency,
                received: *received,
                required: *required,
                write_type: write_type@,
            },
            DBError::ReadFailure {
                consistency,
                received,
                required,
                numfailures,
                data_present,
            } => DBErrorView::ReadFailure {
                consistency: *consistency,
                received: *received,
                required: *required,
                numfailures: *numfailures,
                data_present: *data_present,
            },
            DBError::WriteFailure {
                consistency,
                received,
                required,
                numfailures,
                write_type,
            } => DBErrorView::WriteFailure {
                consistency: *consistency,
                received: *received,
                required: *required,
                numfailures: *numfailures,
                write_type: write_type@,
            },
            DBError::Unprepared => DBErrorView::Unprepared,
            DBError::ServerError => DBErrorView::ServerError,
            DBError::ProtocolError => DBErrorView::ProtocolError,
            DBError::Other(code) => DBErrorView::Other(*code),
        }
    }
}

/// The kind of write that a name on the wire stands for.
pub open spec fn write_type_named(name: Seq<char>) -> WriteTypeView {
    if name == "SIMPLE"@ {
        WriteTypeView::Simple
    } else if name == "BATCH"@ {
        WriteTypeView::Batch
    } else if name == "UNLOGGED_BATCH"@ {
        WriteTypeView::UnloggedBatch
    } else if name == "COUNTER"@ {
        WriteTypeView::Counter
    } else if name == "BATCH_LOG"@ {
        WriteTypeView::BatchLog
    } else if name == "CAS"@ {
        WriteTypeView::CAS
    } else if name == "VIEW"@ {
        WriteTypeView::View
    } else if name == "CDC"@ {
        WriteTypeView::CDC
    } else {
        WriteTypeView::Other(name)
    }
}

/// What the caller did wrong.
#[derive(Debug, Clone)]
pub enum BadQuery {
    /// The values bound to a statement could not be serialized.
    SerializeValuesError(SerializeValuesError),
    /// A batch got another number of value lists than it has statements:
    /// first the number given, then the number of statements.
    ValueLenMismatch(usize, usize),
    /// A value of the partition key is too long: its length, then the
    /// greatest length allowed.
    ValuesTooLongForKey(usize, usize),
    /// The name of the keyspace to use is not valid.
    BadKeyspaceName(BadKeyspaceName),
}

/// Why a session could not be set up.
#[derive(Debug, Clone)]
pub enum NewSessionError {
    /// A host name did not resolve to an address.
    FailedToResolveAddress(String),
    /// No node was given to connect to.
    EmptyKnownNodesList,
    /// The database answered with an error and a message.
    DBError(DBError, String),
    /// The caller passed something that cannot be sent.
    BadQuery(BadQuery),
    /// Reading or writing failed.
    IOError(Arc<std::io::Error>),
    /// A message was not what the protocol allows at that point.
    ProtocolError(&'static str),
}

/// Why a name cannot be the name of a keyspace.
#[derive(Debug, Clone)]
pub enum BadKeyspaceName {
    /// The name is empty.
    Empty,
    /// The name has more than 48 characters: the name and its length.
    TooLong(String, usize),
    /// The name holds a character other than a letter, a digit or an
    /// underscore: the name and the first such character.
    IllegalCharacter(String, char),
}

impl From<std::io::Error> for QueryError {
    fn from(io_error: std::io::Error) -> (r: QueryError) {
        QueryError::IOError(Arc::new(io_error))
    }
}

impl FromSpecImpl<std::io::Error> for QueryError {
    open spec fn obeys_from_spec() -> bool {
        true
    }

    open spec fn from_spec(io_error: std::io::Error) -> QueryError {
        QueryError::IOError(Arc::new(io_error))
    }
}

impl From<SerializeValuesError> for QueryError {
    fn from(serialized_err: SerializeValuesError) -> (r: QueryError) {
        QueryError::BadQuery(BadQuery::SerializeValuesError(serialized_err))
    }
}

impl FromSpecImpl<SerializeValuesError> for QueryError {
    open spec fn obeys_from_spec() -> bool {
        true
    }

    open spec fn from_spec(serialized_err: SerializeValuesError) -> QueryError {
        QueryError::BadQuery(BadQuery::SerializeValuesError(serialized_err))
    }
}

impl From<ParseError> for QueryError {
    fn from(_parse_error: ParseError) -> (r: QueryError) {
        QueryError::ProtocolError("Error parsing message")
    }
}

impl FromSpecImpl<ParseError> for QueryError {
    open spec fn obeys_from_spec() -> bool {
        true
    }

    open spec fn from_spec(_parse_error: ParseError) -> QueryError {
        QueryError::ProtocolError("Error parsing message")
    }
}

impl From<ResponseError> for QueryError {
    fn from(_response_error: ResponseError) -> (r: QueryError) {
        QueryError::ProtocolError("Error parsing message")
    }
}

impl FromSpecImpl<ResponseError> for QueryError {
    open spec fn obeys_from_spec() -> bool {
        true
    }

    open spec fn from_spec(_response_error: ResponseError) -> QueryError {
        QueryError::ProtocolError("Error parsing message")
    }
}

impl From<FrameError> for QueryError {
    fn from(_frame_error: FrameError) -> (r: QueryError) {
        QueryError::ProtocolError("Error parsing message frame")
    }
}

impl FromSpecImpl<FrameError> for QueryError {
    open spec fn obeys_from_spec() -> bool {
        true
    }

    open spec fn from_spec(_frame_error: FrameError) -> QueryError {
        QueryError::ProtocolError("Error parsing message frame")
    }
}

impl From<CompressionError> for QueryError {
    fn from(_compression_error: CompressionError) -> (r: QueryError) {
        QueryError::ProtocolError("Error compressing message")
    }
}

impl FromSpecImpl<CompressionError> for QueryError {
    open spec fn obeys_from_spec() -> bool {
        true
    }

    open spec fn from_spec(_compression_error: CompressionError) -> QueryError {
        QueryError::ProtocolError("Error compressing message")
    }
}

impl From<BadKeyspaceName> for QueryError {
    fn from(keyspace_err: BadKeyspaceName) -> (r: QueryError) {
        QueryError::BadQuery(BadQuery::BadKeyspaceName(keyspace_err))
    }
}

impl FromSpecImpl<BadKeyspaceName> for QueryError {
    open spec fn obeys_from_spec() -> bool {
        true
    }

    open spec fn from_spec(keyspace_err: BadKeyspaceName) -> QueryError {
        QueryError::BadQuery(BadQuery::BadKeyspaceName(keyspace_err))
    }
}

impl From<std::io::Error> for NewSessionError {
    fn from(io_error: std::io::Error) -> (r: NewSessionError) {
        NewSessionError::IOError(Arc::new(io_error))
    }
}

impl FromSpecImpl<std::io::Error> for NewSessionError {
    open spec fn obeys_from_spec() -> bool {
        true
    }

    open spec fn from_spec(io_error: std::io::Error) -> NewSessionError {
        NewSessionError::IOError(Arc::new(io_error))
    }
}

impl From<QueryError> for NewSessionError {
    fn from(query_error: QueryError) -> (r: NewSessionError) {
        match query_error {
            QueryError::DBError(e, msg) => NewSessionError::DBError(e, msg),
            QueryError::BadQuery(e) => NewSessionError::BadQuery(e),
            QueryError::IOError(e) => NewSessionError::IOError(e),
            QueryError::ProtocolError(m) => NewSessionError::ProtocolError(m),
        }
    }
}

impl FromSpecImpl<QueryError> for NewSessionError {
    open spec fn obeys_from_spec() -> bool {
        true
    }

    open spec fn from_spec(query_error: QueryError) -> NewSessionError {
        match query_error {
            QueryError::DBError(e, msg) => NewSessionError::DBError(e, msg),
            QueryError::BadQuery(e) => NewSessionError::BadQuery(e),
            QueryError::IOError(e) => NewSessionError::IOError(e),
            QueryError::ProtocolError(m) => NewSessionError::ProtocolError(m),
        }
    }
}

impl From<&str> for WriteType {
    fn from(write_type_str: &str) -> (r: WriteType)
        ensures
            r@ == write_type_named(write_type_str@),
    {
        if str_equal(write_type_str, "SIMPLE") {
            WriteType::Simple
        } else if str_equal(write_type_str, "BATCH") {
            WriteType::Batch
        } else if str_equal(write_type_str, "UNLOGGED_BATCH") {
            WriteType::UnloggedBatch
        } else if str_equal(write_type_str, "COUNTER") {
            WriteType::Counter
        } else if str_equal(write_type_str, "BATCH_LOG") {
            WriteType::BatchLog
        } else if str_equal(write_type_str, "CAS") {
            WriteType::CAS
        } else if str_equal(write_type_str, "VIEW") {
            WriteType::View
        } else if str_equal(write_type_str, "CDC") {
            WriteType::CDC
        } else {
            WriteType::Other(write_type_str.to_owned())
        }
    }
}

impl FromSpecImpl<&str> for WriteType {
    open spec fn obeys_from_spec() -> bool {
        false
    }

    open spec fn from_spec(write_type_str: &str) -> WriteType {
        arbitrary()
    }
}

} // verus!
