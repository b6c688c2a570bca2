//! The `QUERY` request, and the parameters that `QUERY` and `EXECUTE`
//! share.

use bytes::Bytes;
use crate::frame::byte_buffers::bytes_as_slice;
use crate::frame::frame_codec::RequestOpcode;
use crate::frame::frame_errors::SerializeError;
use crate::frame::response::result::optional_bytes_contents;
use crate::frame::types::{
    bytes_wire, int_wire, long_string_wire, short_wire, write_bytes, write_consistency, write_int,
    write_long_string,
};
use crate::frame::value::{values_wire, SerializedValues};
use crate::statement::Consistency;
use vstd::prelude::*;
use vstd::utf8::encode_utf8;

verus! {

/// The flag that says that values follow.
pub const FLAG_VALUES: u8 = 0x01;

/// The flag that says that a page size follows.
pub const FLAG_PAGE_SIZE: u8 = 0x04;

/// The flag that says that a paging state follows.
pub const FLAG_WITH_PAGING_STATE: u8 = 0x08;

/// How a statement is to be executed.
pub struct QueryParameters<'a> {
    /// The consistency level.
    pub consistency: Consistency,
    /// The number of rows in a page, if the result is wanted in pages.
    pub page_size: Option<i32>,
    /// Where the page that is asked for starts, if it is not the first.
    pub paging_state: Option<Bytes>,
    /// The values bound to the statement.
    pub values: &'a SerializedValues,
}

/// What [`QueryParameters`] say.
pub struct QueryParametersView {
    pub consistency: Consistency,
    pub page_size: Option<i32>,
    pub paging_state: Option<Seq<u8>>,
    pub values: Seq<Option<Seq<u8>>>,
}

impl<'a> View for QueryParameters<'a> {
    type V = QueryParametersView;

    open spec fn view(&self) -> QueryParametersView {
        QueryParametersView {
            consistency: self.consistency,
            page_size: self.page_size,
            paging_state: optional_bytes_contents(self.paging_state),
            values: self.values@,
        }
    }
}

/// The flags of the parameters: which of the optional parts follow.
pub open spec fn parameters_flags(p: QueryParametersView) -> u8 {
    ((if p.values.len() > 0 {
        FLAG_VALUES as int
    } else {
        0
    }) + (if p.page_size is Some {
        FLAG_PAGE_SIZE as int
    } else {
        0
    }) + (if p.paging_state is Some {
        FLAG_WITH_PAGING_STATE as int
    } else {
        0
    })) as u8
}

/// The parameters on the wire: the consistency level, the flags, and, as
/// far as the flags say, the values with their number as a `[short]`, the
/// page size as an `[int]` and the paging state as `[bytes]`.
pub open spec fn parameters_wire(p: QueryParametersView) -> Seq<u8>
    recommends
        p.paging_state matches Some(state) ==> state.len() <= i32::MAX,
{
    short_wire(p.consistency.code()) + seq![parameters_flags(p)] + (if p.values.len() > 0 {
        short_wire(p.values.len() as u16) + values_wire(p.values)
    } else {
        Seq::empty()
    }) + (match p.page_size {
        Some(page_size) => int_wire(page_size),
        None => Seq::empty(),
    }) + (match p.paging_state {
        Some(state) => bytes_wire(state),
        None => Seq::empty(),
    })
}

impl<'a> QueryParameters<'a> {
    /// Appends the parameters. Fails, and appends nothing, when the paging
    /// state has more bytes than an `[int]` can say.
    pub fn serialize(&self, buf: &mut Vec<u8>) -> (r: Result<(), SerializeError>)
        ensures
            r is Ok <==> (self@.paging_state matches Some(state) ==> state.len() <= i32::MAX),
            r is Ok ==> final(buf)@ == old(buf)@ + parameters_wire(self@),
            r is Err ==> r == Err::<(), _>(SerializeError::IntLengthOverflow) && final(buf)@
                == old(buf)@,
    {
        if let Some(state) = &self.paging_state {
            if bytes_as_slice(state).len() > i32::MAX as usize {
                return Err(SerializeError::IntLengthOverflow);
            }
        }
        write_consistency(self.consistency, buf);
        let mut flags: u8 = 0;
        if !self.values.is_empty() {
            flags += FLAG_VALUES;
        }
        if self.page_size.is_some() {
            flags += FLAG_PAGE_SIZE;
        }
        if self.paging_state.is_some() {
            flags += FLAG_WITH_PAGING_STATE;
        }
        buf.push(flags);
        if !self.values.is_empty() {
            self.values.write_to_request(buf);
        }
        if let Some(page_size) = self.page_size {
            write_int(page_size, buf);
        }
        if let Some(state) = &self.paging_state {
            let written = write_bytes(bytes_as_slice(state), buf);
            assert(written is Ok);
        }
        assert(buf@ =~= old(buf)@ + parameters_wire(self@));
        Ok(())
    }
}

/// A `QUERY` request: the text of a statement and how to execute it.
pub struct Query<'a> {
    pub contents: &'a str,
    pub parameters: QueryParameters<'a>,
}

/// The body of a `QUERY` request: the text as a `[long string]`, and the
/// parameters.
pub open spec fn query_wire(contents: Seq<char>, parameters: QueryParametersView) -> Seq<u8> {
    long_string_wire(contents) + parameters_wire(parameters)
}

impl<'a> Query<'a> {
    /// The opcode of the request.
    pub fn opcode(&self) -> (r: RequestOpcode)
        ensures
            r == RequestOpcode::Query,
    {
        RequestOpcode::Query
    }

    /// Appends the body of the request. Fails, and appends nothing, when
    /// the text or the paging state has more bytes than an `[int]` can say.
    pub fn serialize(&self, buf: &mut Vec<u8>) -> (r: Result<(), SerializeError>)
        ensures
            r is Ok <==> encode_utf8(self.contents@).len() <= i32::MAX && (
            self.parameters@.paging_state matches Some(state) ==> state.len() <= i32::MAX),
            r is Ok ==> final(buf)@ == old(buf)@ + query_wire(self.contents@, self.parameters@),
            r is Err ==> r == Err::<(), _>(SerializeError::IntLengthOverflow) && final(buf)@
                == old(buf)@,
    {
        let start = buf.len();
        write_long_string(self.contents, buf)?;
        match self.parameters.serialize(buf) {
            Ok(()) => {
                assert(buf@ =~= old(buf)@ + query_wire(self.contents@, self.parameters@));
                Ok(())
            },
            Err(e) => {
                buf.truncate(start);
                assert(buf@ =~= old(buf)@);
                Err(e)
            },
        }
    }
}

} // verus!
