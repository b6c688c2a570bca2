//! The body of an `ERROR` message: a code, a message, and what the code
//! brings with it.

use crate::frame::frame_errors::ParseError;
use crate::frame::types::{
    parse_byte, parse_consistency, parse_int, parse_short_bytes, parse_string, parse_string_list,
    read_byte, read_consistency, read_int, read_short_bytes, read_string, read_string_list,
};
use crate::statement::Consistency;
use crate::transport::errors::{write_type_named, DBError, DBErrorView, QueryError, WriteType};
use vstd::prelude::*;

verus! {

/// An error that the server sent: what went wrong, and the server's words
/// for it.
#[derive(Debug)]
pub struct Error {
    pub error: DBError,
    pub reason: String,
}

/// What an [`Error`] says.
pub struct ErrorView {
    pub error: DBErrorView,
    pub reason: Seq<char>,
}

impl View for Error {
    type V = ErrorView;

    open spec fn view(&self) -> ErrorView {
        ErrorView { error: self.error@, reason: self.reason@ }
    }
}

impl Error {
    /// The error as a session reports it.
    pub fn into_query_error(self) -> (r: QueryError)
        ensures
            r == QueryError::DBError(self.error, self.reason),
    {
        QueryError::DBError(self.error, self.reason)
    }
}

/// What many errors say of the replicas: the consistency level of the
/// request, how many replicas answered and how many had to.
pub struct Replies {
    pub consistency: Consistency,
    pub received: i32,
    pub required: i32,
}

/// What a reader of the replies makes of the bytes under the cursor: a
/// `[consistency]` and two numbers, each an `[int]`.
pub open spec fn parse_replies(s: Seq<u8>) -> Result<(Replies, Seq<u8>), ParseError> {
    match parse_consistency(s) {
        Err(e) => Err(e),
        Ok((consistency, rest)) => match parse_int(rest) {
            Err(e) => Err(e),
            Ok((received, rest)) => match parse_int(rest) {
                Err(e) => Err(e),
                Ok((required, rest)) => Ok((Replies { consistency, received, required }, rest)),
            },
        },
    }
}

fn read_replies(buf: &mut &[u8]) -> (r: Result<Replies, ParseError>)
    ensures
        match r {
            Ok(v) => parse_replies(old(buf)@) == Ok::<_, ParseError>((v, final(buf)@)),
            Err(e) => parse_replies(old(buf)@) == Err::<(Replies, Seq<u8>), _>(e) && final(buf)@
                == old(buf)@,
        },
{
    let mut cur: &[u8] = *buf;
    let consistency = read_consistency(&mut cur)?;
    let received = read_int(&mut cur)?;
    let required = read_int(&mut cur)?;
    *buf = cur;
    Ok(Replies { consistency, received, required })
}

/// What comes with an error of the given code: nothing for most codes; the
/// state of the replicas for unavailability, timeouts and failures; names
/// for a failed function and for what exists already. A code that the
/// protocol does not list is kept as it is.
pub open spec fn parse_error_details(code: i32, s: Seq<u8>) -> Result<
    (DBErrorView, Seq<u8>),
    ParseError,
> {
    if code == 0x0000 {
        Ok((DBErrorView::ServerError, s))
    } else if code == 0x000A {
        Ok((DBErrorView::ProtocolError, s))
    } else if code == 0x0100 {
        Ok((DBErrorView::AuthenticationError, s))
    } else if code == 0x1000 {
        match parse_consistency(s) {
            Err(e) => Err(e),
            Ok((consistency, rest)) => match parse_int(rest) {
                Err(e) => Err(e),
                Ok((required, rest)) => match parse_int(rest) {
                    Err(e) => Err(e),
                    Ok((alive, rest)) => Ok(
                        (DBErrorView::Unavailable { consistency, required, alive }, rest),
                    ),
                },
            },
        }
    } else if code == 0x1001 {
        Ok((DBErrorView::Overloaded, s))
    } else if code == 0x1002 {
        Ok((DBErrorView::IsBootstrapping, s))
    } else if code == 0x1003 {
        Ok((DBErrorView::TruncateError, s))
    } else if code == 0x1100 {
        match parse_replies(s) {
            Err(e) => Err(e),
            Ok((replies, rest)) => match parse_string(rest) {
                Err(e) => Err(e),
                Ok((write_type, rest)) => Ok(
                    (
                        DBErrorView::WriteTimeout {
                            consistency: replies.consistency,
                            received: replies.received,
                            required: replies.required,
                            write_type: write_type_named(write_type),
                        },
                        rest,
                    ),
                ),
            },
        }
    } else if code == 0x1200 {
        match parse_replies(s) {
            Err(e) => Err(e),
            Ok((replies, rest)) => match parse_byte(rest) {
                Err(e) => Err(e),
                Ok((data_present, rest)) => Ok(
                    (
                        DBErrorView::ReadTimeout {
                            consistency: replies.consistency,
                            received: replies.received,
                            required: replies.required,
                            data_present: data_present != 0,
                        },
                        rest,
                    ),
                ),
            },
        }
    } else if code == 0x1300 {
        match parse_replies(s) {
            Err(e) => Err(e),
            Ok((replies, rest)) => match parse_int(rest) {
                Err(e) => Err(e),
                Ok((numfailures, rest)) => match parse_byte(rest) {
                    Err(e) => Err(e),
                    Ok((data_present, rest)) => Ok(
                        (
                            DBErrorView::ReadFailure {
                                consistency: replies.consistency,
                                received: replies.received,
                                required: replies.required,
                                numfailures,
                                data_present: data_present != 0,
                            },
                            rest,
                        ),
                    ),
                },
            },
        }
    } else if code == 0x1400 {
        match parse_string(s) {
            Err(e) => Err(e),
            Ok((keyspace, rest)) => match parse_string(rest) {
                Err(e) => Err(e),
                Ok((function, rest)) => match parse_string_list(rest) {
                    Err(e) => Err(e),
                    Ok((arg_types, rest)) => Ok(
                        (DBErrorView::FunctionFailure { keyspace, function, arg_types }, rest),
                    ),
                },
            },
        }
    } else if code == 0x1500 {
        match parse_replies(s) {
            Err(e) => Err(e),
            Ok((replies, rest)) => match parse_int(rest) {
                Err(e) => Err(e),
                Ok((numfailures, rest)) => match parse_string(rest) {
                    Err(e) => Err(e),
                    Ok((write_type, rest)) => Ok(
                        (
                            DBErrorView::WriteFailure {
                                consistency: replies.consistency,
                                received: replies.received,
                                required: replies.required,
                                numfailures,
                                write_type: write_type_named(write_type),
                            },
                            rest,
                        ),
                    ),
                },
            },
        }
    } else if code == 0x2000 {
        Ok((DBErrorView::SyntaxError, s))
    } else if code == 0x2100 {
        Ok((DBErrorView::Unauthorized, s))
    } else if code == 0x2200 {
        Ok((DBErrorView::Invalid, s))
    } else if code == 0x2300 {
        Ok((DBErrorView::ConfigError, s))
    } else if code == 0x2400 {
        match parse_string(s) {
            Err(e) => Err(e),
            Ok((keyspace, rest)) => match parse_string(rest) {
                Err(e) => Err(e),
                Ok((table, rest)) => Ok((DBErrorView::AlreadyExists { keyspace, table }, rest)),
            },
        }
    } else if code == 0x2500 {
        match parse_short_bytes(s) {
            Err(e) => Err(e),
            Ok((_, rest)) => Ok((DBErrorView::Unprepared, rest)),
        }
    } else {
        Ok((DBErrorView::Other(code), s))
    }
}

/// What a reader of the body of an `ERROR` makes of the bytes under the
/// cursor: the code as an `[int]`, the message as a `[string]`, and what
/// comes with the code.
pub open spec fn parse_error(s: Seq<u8>) -> Result<(ErrorView, Seq<u8>), ParseError> {
    match parse_int(s) {
        Err(e) => Err(e),
        Ok((code, rest)) => match parse_string(rest) {
            Err(e) => Err(e),
            Ok((reason, rest)) => match parse_error_details(code, rest) {
                Err(e) => Err(e),
                Ok((error, rest)) => Ok((ErrorView { error, reason }, rest)),
            },
        },
    }
}

fn read_error_details(code: i32, buf: &mut &[u8]) -> (r: Result<DBError, ParseError>)
    ensures
        match r {
            Ok(v) => parse_error_details(code, old(buf)@) == Ok::<_, ParseError>((v@, final(buf)@)),
            Err(e) => parse_error_details(code, old(buf)@) == Err::<(DBErrorView, Seq<u8>), _>(e)
                && final(buf)@ == old(buf)@,
        },
{
    let mut cur: &[u8] = *buf;
    let error = match code {
        0x0000 => DBError::ServerError,
        0x000A => DBError::ProtocolError,
        0x0100 => DBError::AuthenticationError,
        0x1000 => {
            let consistency = read_consistency(&mut cur)?;
            let required = read_int(&mut cur)?;
            let alive = read_int(&mut cur)?;
            DBError::Unavailable { consistency, required, alive }
        },
        0x1001 => DBError::Overloaded,
        0x1002 => DBError::IsBootstrapping,
        0x1003 => DBError::TruncateError,
        0x1100 => {
            let replies = read_replies(&mut cur)?;
            let write_type = WriteType::from(read_string(&mut cur)?);
            DBError::WriteTimeout {
                consistency: replies.consistency,
                received: replies.received,
                required: replies.required,
                write_type,
            }
        },
        0x1200 => {
            let replies = read_replies(&mut cur)?;
            let data_present = read_byte(&mut cur)? != 0;
            DBError::ReadTimeout {
                consistency: replies.consistency,
                received: replies.received,
                required: replies.required,
                data_present,
            }
        },
        0x1300 => {
            let replies = read_replies(&mut cur)?;
            let numfailures = read_int(&mut cur)?;
            let data_present = read_byte(&mut cur)? != 0;
            DBError::ReadFailure {
                consistency: replies.consistency,
                received: replies.received,
                required: replies.required,
                numfailures,
                data_present,
            }
        },
        0x1400 => {
            let keyspace = read_string(&mut cur)?.to_owned();
            let function = read_string(&mut cur)?.to_owned();
            let arg_types = read_string_list(&mut cur)?;
            DBError::FunctionFailure { keyspace, function, arg_types }
        },
        0x1500 => {
            let replies = read_replies(&mut cur)?;
            let numfailures = read_int(&mut cur)?;
            let write_type = WriteType::from(read_string(&mut cur)?);
            DBError::WriteFailure {
                consistency: replies.consistency,
                received: replies.received,
                required: replies.required,
                numfailures,
                write_type,
            }
        },
        0x2000 => DBError::SyntaxError,
        0x2100 => DBError::Unauthorized,
        0x2200 => DBError::Invalid,
        0x2300 => DBError::ConfigError,
        0x2400 => {
            let keyspace = read_string(&mut cur)?.to_owned();
            let table = read_string(&mut cur)?.to_owned();
            DBError::AlreadyExists { keyspace, table }
        },
        0x2500 => {
            let _ = read_short_bytes(&mut cur)?;
            DBError::Unprepared
        },
        code => DBError::Other(code),
    };
    *buf = cur;
    Ok(error)
}

impl Error {
    /// Reads the body of an `ERROR` message.
    pub fn deserialize(buf: &mut &[u8]) -> (r: Result<Error, ParseError>)
        ensures
            match r {
                Ok(v) => parse_error(old(buf)@) == Ok::<_, ParseError>((v@, final(buf)@)),
                Err(e) => parse_error(old(buf)@) == Err::<(ErrorView, Seq<u8>), _>(e)
                    && final(buf)@ == old(buf)@,
            },
    {
        let mut cur: &[u8] = *buf;
        let code = read_int(&mut cur)?;
        let reason = read_string(&mut cur)?.to_owned();
        let error = read_error_details(code, &mut cur)?;
        *buf = cur;
        Ok(Error { error, reason })
    }
}

} // verus!
