//! The `EXECUTE` request.

use bytes::Bytes;
use crate::frame::byte_buffers::{bytes_as_slice, bytes_contents};
use crate::frame::frame_codec::RequestOpcode;
use crate::frame::frame_errors::SerializeError;
use crate::frame::request::query::{parameters_wire, QueryParameters};
use crate::frame::types::{short_bytes_wire, write_short_bytes};
use vstd::prelude::*;

verus! {

/// An `EXECUTE` request: the id of a prepared statement and how to
/// execute it.
pub struct Execute<'a> {
    pub id: Bytes,
    pub parameters: QueryParameters<'a>,
}

impl<'a> Execute<'a> {
    /// The opcode of the request.
    pub fn opcode(&self) -> (r: RequestOpcode)
        ensures
            r == RequestOpcode::Execute,
    {
        RequestOpcode::Execute
    }

    /// Appends the body of the request: the id as `[short bytes]`, and the
    /// parameters. Fails, and appends nothing, when the id has more bytes
    /// than a `[short]`, or the paging state more than an `[int]`, can say;
    /// the id is looked at first.
    pub fn serialize(&self, buf: &mut Vec<u8>) -> (r: Result<(), SerializeError>)
        ensures
            r is Ok <==> bytes_contents(&self.id).len() <= u16::MAX && (
            self.parameters@.paging_state matches Some(state) ==> state.len() <= i32::MAX),
            r is Ok ==> final(buf)@ == old(buf)@ + short_bytes_wire(bytes_contents(&self.id))
                + parameters_wire(self.parameters@),
            r is Err ==> final(buf)@ == old(buf)@ && r == Err::<(), _>(
                if bytes_contents(&self.id).len() > u16::MAX {
                    SerializeError::ShortLengthOverflow
                } else {
                    SerializeError::IntLengthOverflow
                },
            ),
    {
        let start = buf.len();
        write_short_bytes(bytes_as_slice(&self.id), buf)?;
        match self.parameters.serialize(buf) {
            Ok(()) => Ok(()),
            Err(e) => {
                buf.truncate(start);
                assert(buf@ =~= old(buf)@);
                Err(e)
            },
        }
    }
}

} // verus!
