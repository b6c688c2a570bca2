//! The messages that the server sends.

pub mod cql_to_rust;
pub mod error;
pub mod result;
pub mod result_encoding;

use crate::frame::compression::{unpack_body, unpacked_body};
use crate::frame::frame_codec::{FrameHeader, Opcode, ResponseOpcode, FLAG_COMPRESSION};
use crate::frame::frame_errors::{CompressionError, ParseError};
use crate::frame::response::error::{parse_error, Error, ErrorView};
use crate::frame::response::result::{deserialize, parse_result, ResultView};
use crate::frame::types::{parse_string, parse_string_multimap, read_string, read_string_multimap};
use crate::transport::connection::Compression;
use vstd::prelude::*;

verus! {

/// A `SUPPORTED` message: the options that the server offers, each with
/// its values, in the order in which the server named them.
#[derive(Debug)]
pub struct Supported {
    pub options: Vec<(String, Vec<String>)>,
}

/// An `AUTHENTICATE` message: the name of the authenticator that the server
/// asks for.
#[derive(Debug)]
pub struct Authenticate {
    pub authenticator_name: String,
}

/// A message from the server.
#[derive(Debug)]
pub enum Response {
    Error(Error),
    Ready,
    Result(result::Result),
    Authenticate(Authenticate),
    Supported(Supported),
    /// An event that the connection registered for: nothing of it is
    /// decoded.
    Event,
    /// A challenge during authentication: nothing of it is decoded.
    AuthChallenge,
    /// The end of a successful authentication: nothing of it is decoded.
    AuthSuccess,
}

/// What a [`Response`] says.
pub enum ResponseView {
    Error(ErrorView),
    Ready,
    Result(ResultView),
    Authenticate(Seq<char>),
    Supported(Seq<(Seq<char>, Seq<Seq<char>>)>),
    Event,
    AuthChallenge,
    AuthSuccess,
}

impl View for Response {
    type V = ResponseView;

    open spec fn view(&self) -> ResponseView {
        match self {
            Response::Error(e) => ResponseView::Error(e@),
            Response::Ready => ResponseView::Ready,
            Response::Result(r) => ResponseView::Result(r@),
            Response::Authenticate(a) => ResponseView::Authenticate(a.authenticator_name@),
            Response::Supported(s) => ResponseView::Supported(s.options.deep_view()),
            Response::Event => ResponseView::Event,
            Response::AuthChallenge => ResponseView::AuthChallenge,
            Response::AuthSuccess => ResponseView::AuthSuccess,
        }
    }
}

/// What a reader of the body of a response of the given kind makes of the
/// bytes under the cursor. Nothing is read of the kinds that are not
/// decoded.
pub open spec fn parse_response(opcode: ResponseOpcode, s: Seq<u8>) -> Result<
    (ResponseView, Seq<u8>),
    ParseError,
> {
    match opcode {
        ResponseOpcode::Error => match parse_error(s) {
            Err(e) => Err(e),
            Ok((error, rest)) => Ok((ResponseView::Error(error), rest)),
        },
        ResponseOpcode::Ready => Ok((ResponseView::Ready, s)),
        ResponseOpcode::Result => match parse_result(s) {
            Err(e) => Err(e),
            Ok((result, rest)) => Ok((ResponseView::Result(result), rest)),
        },
        ResponseOpcode::Authenticate => match parse_string(s) {
            Err(e) => Err(e),
            Ok((name, rest)) => Ok((ResponseView::Authenticate(name), rest)),
        },
        ResponseOpcode::Supported => match parse_string_multimap(s) {
            Err(e) => Err(e),
            Ok((options, rest)) => Ok((ResponseView::Supported(options), rest)),
        },
        ResponseOpcode::Event => Ok((ResponseView::Event, s)),
        ResponseOpcode::AuthChallenge => Ok((ResponseView::AuthChallenge, s)),
        ResponseOpcode::AuthSuccess => Ok((ResponseView::AuthSuccess, s)),
    }
}

impl Response {
    /// Reads the body of a response of the given kind.
    pub fn deserialize(opcode: ResponseOpcode, buf: &mut &[u8]) -> (r: Result<Response, ParseError>)
        ensures
            match r {
                Ok(v) => parse_response(opcode, old(buf)@) == Ok::<_, ParseError>(
                    (v@, final(buf)@),
                ),
                Err(e) => parse_response(opcode, old(buf)@) == Err::<(ResponseView, Seq<u8>), _>(e)
                    && final(buf)@ == old(buf)@,
            },
    {
        let response = match opcode {
            ResponseOpcode::Error => Response::Error(Error::deserialize(buf)?),
            ResponseOpcode::Ready => Response::Ready,
            ResponseOpcode::Result => Response::Result(deserialize(buf)?),
            ResponseOpcode::Authenticate => Response::Authenticate(
                Authenticate { authenticator_name: read_string(buf)?.to_owned() },
            ),
            ResponseOpcode::Supported => Response::Supported(
                Supported { options: read_string_multimap(buf)? },
            ),
            ResponseOpcode::Event => Response::Event,
            ResponseOpcode::AuthChallenge => Response::AuthChallenge,
            ResponseOpcode::AuthSuccess => Response::AuthSuccess,
        };
        Ok(response)
    }
}

/// Why the frame of a header cannot be taken as a response.
#[derive(Debug, Clone, Copy, PartialEq, Eq)]
pub enum ResponseError {
    /// The frame is a request.
    NotAResponse,
    /// The body is compressed, and no compression was agreed on.
    UnexpectedCompression,
    /// The body has another length than the header says.
    WrongBodyLength,
    /// The body is compressed and does not unpack.
    Compression(CompressionError),
    /// The body does not parse.
    Parse(ParseError),
}

/// What the body of a response says, read as the opcode says.
pub open spec fn response_of_body(opcode: ResponseOpcode, body: Seq<u8>) -> Result<
    ResponseView,
    ResponseError,
> {
    match parse_response(opcode, body) {
        Ok((response, _)) => Ok(response),
        Err(e) => Err(ResponseError::Parse(e)),
    }
}

/// What a frame that came in says, on a connection on which `compression`
/// was agreed on: the frame must be a response; a body that is compressed
/// must be so by agreement; the body must be as long as the header says;
/// a compressed body is unpacked; and the body is read as the opcode says.
/// The first of these that fails is reported.
pub open spec fn response_of_frame(
    header: FrameHeader,
    body: Seq<u8>,
    compression: Option<Compression>,
) -> Result<ResponseView, ResponseError> {
    match header.opcode {
        Opcode::Request(_) => Err(ResponseError::NotAResponse),
        Opcode::Response(opcode) => if header.flags & FLAG_COMPRESSION != 0 && compression
            is None {
            Err(ResponseError::UnexpectedCompression)
        } else if body.len() != header.length {
            Err(ResponseError::WrongBodyLength)
        } else if header.flags & FLAG_COMPRESSION != 0 {
            match unpacked_body(compression->Some_0, body) {
                Ok(unpacked) => response_of_body(opcode, unpacked),
                Err(e) => Err(ResponseError::Compression(e)),
            }
        } else {
            response_of_body(opcode, body)
        },
    }
}

impl Response {
    /// Reads the response in a frame that came in on a connection on which
    /// `compression` was agreed on.
    pub fn from_frame(
        header: &FrameHeader,
        body: &[u8],
        compression: Option<Compression>,
    ) -> (r: Result<Response, ResponseError>)
        ensures
            match r {
                Ok(v) => response_of_frame(*header, body@, compression) == Ok::<_, ResponseError>(
                    v@,
                ),
                Err(e) => response_of_frame(*header, body@, compression) == Err::<ResponseView, _>(
                    e,
                ),
            },
    {
        let opcode = match header.opcode {
            Opcode::Request(_) => {
                return Err(ResponseError::NotAResponse);
            },
            Opcode::Response(opcode) => opcode,
        };
        if header.is_compressed() && compression.is_none() {
            return Err(ResponseError::UnexpectedCompression);
        }
        if body.len() != header.length {
            return Err(ResponseError::WrongBodyLength);
        }
        let unpacked: Vec<u8>;
        let mut cur: &[u8] = match compression {
            Some(c) if header.is_compressed() => {
                unpacked = match unpack_body(c, body) {
                    Ok(unpacked) => unpacked,
                    Err(e) => {
                        return Err(ResponseError::Compression(e));
                    },
                };
                unpacked.as_slice()
            },
            _ => body,
        };
        match Response::deserialize(opcode, &mut cur) {
            Ok(response) => Ok(response),
            Err(e) => Err(ResponseError::Parse(e)),
        }
    }
}

} // verus!
