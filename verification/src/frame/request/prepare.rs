//! The `PREPARE` request.

use crate::frame::frame_codec::RequestOpcode;
use crate::frame::frame_errors::SerializeError;
use crate::frame::types::{long_string_wire, write_long_string};
use vstd::prelude::*;
use vstd::utf8::encode_utf8;

verus! {

/// A `PREPARE` request: the text of the statement to prepare.
pub struct Prepare<'a> {
    pub query: &'a str,
}

impl<'a> Prepare<'a> {
    /// The opcode of the request.
    pub fn opcode(&self) -> (r: RequestOpcode)
        ensures
            r == RequestOpcode::Prepare,
    {
        RequestOpcode::Prepare
    }

    /// Appends the body of the request: the text as a `[long string]`.
    /// Fails, and appends nothing, when the text has more bytes than an
    /// `[int]` can say.
    pub fn serialize(&self, buf: &mut Vec<u8>) -> (r: Result<(), SerializeError>)
        ensures
            r is Ok <==> encode_utf8(self.query@).len() <= i32::MAX,
            r is Ok ==> final(buf)@ == old(buf)@ + long_string_wire(self.query@),
            r is Err ==> r == Err::<(), _>(SerializeError::IntLengthOverflow) && final(buf)@
                == old(buf)@,
    {
        write_long_string(self.query, buf)
    }
}

} // verus!
