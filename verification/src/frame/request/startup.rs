//! The `STARTUP` and the `OPTIONS` request.

use crate::frame::frame_codec::RequestOpcode;
use crate::frame::frame_errors::SerializeError;
use crate::frame::types::{string_map_wire, string_pairs_fit, write_string_map};
use crate::transport::connection::Compression;
use vstd::prelude::*;
use vstd::string::StringExecFns;

verus! {

/// A `STARTUP` request: the options of the connection, as pairs of a name
/// and a value.
pub struct Startup {
    pub options: Vec<(String, String)>,
}

/// The options that a connection starts with: the version of CQL, and the
/// compression if one is asked for.
pub open spec fn startup_options(compression: Option<Compression>) -> Seq<(Seq<char>, Seq<char>)> {
    match compression {
        None => seq![("CQL_VERSION"@, "4.0.0"@)],
        Some(Compression::Lz4) => seq![("CQL_VERSION"@, "4.0.0"@), ("COMPRESSION"@, "lz4"@)],
        Some(Compression::Snappy) => seq![
            ("CQL_VERSION"@, "4.0.0"@),
            ("COMPRESSION"@, "snappy"@),
        ],
    }
}

impl Startup {
    /// The request that starts a connection.
    pub fn new(compression: Option<Compression>) -> (r: Self)
        ensures
            r.options.deep_view() == startup_options(compression),
    {
        let mut options: Vec<(String, String)> = Vec::new();
        options.push((String::from_str("CQL_VERSION"), String::from_str("4.0.0")));
        if let Some(compression) = compression {
            options.push((String::from_str("COMPRESSION"), String::from_str(compression.to_str())));
        }
        assert(options.deep_view() =~= startup_options(compression));
        Startup { options }
    }

    /// The opcode of the request.
    pub fn opcode(&self) -> (r: RequestOpcode)
        ensures
            r == RequestOpcode::Startup,
    {
        RequestOpcode::Startup
    }

    /// Appends the body of the request: the options as a `[string map]`.
    /// Fails, and appends nothing, when there are more options, or an
    /// option has more bytes, than a `[short]` can say.
    pub fn serialize(&self, buf: &mut Vec<u8>) -> (r: Result<(), SerializeError>)
        ensures
            r is Ok <==> self.options@.len() <= u16::MAX && string_pairs_fit(
                self.options.deep_view(),
            ),
            r is Ok ==> final(buf)@ == old(buf)@ + string_map_wire(self.options.deep_view()),
            r is Err ==> r == Err::<(), _>(SerializeError::ShortLengthOverflow) && final(buf)@
                == old(buf)@,
    {
        write_string_map(&self.options, buf)
    }
}

/// An `OPTIONS` request, which asks what the server supports. It has no
/// body.
pub struct Options;

impl Options {
    /// The opcode of the request.
    pub fn opcode(&self) -> (r: RequestOpcode)
        ensures
            r == RequestOpcode::Options,
    {
        RequestOpcode::Options
    }

    /// Appends the body of the request: nothing.
    pub fn serialize(&self, buf: &mut Vec<u8>) -> (r: Result<(), SerializeError>)
        ensures
            r is Ok,
            final(buf)@ == old(buf)@,
    {
        Ok(())
    }
}

} // verus!
