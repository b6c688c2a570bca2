//! The `BATCH` request.

use crate::frame::byte_buffers::bytes_as_slice;
use crate::frame::frame_codec::RequestOpcode;
use crate::frame::frame_errors::SerializeError;
use crate::frame::types::{
    long_string_wire, short_bytes_wire, short_wire, write_consistency, write_long_string,
    write_short, write_short_bytes,
};
use crate::frame::value::{values_wire, SerializedValues};
use crate::statement::batch::{BatchStatement, BatchStatementView};
use crate::statement::Consistency;
use vstd::prelude::*;
use vstd::utf8::encode_utf8;

verus! {

/// How the statements of a batch are applied.
#[derive(Debug, Clone, Copy, PartialEq, Eq, Structural)]
pub enum BatchType {
    /// All or none of the statements take effect, by way of a batch log.
    Logged,
    /// The statements are applied without a batch log.
    Unlogged,
    /// The statements update counters.
    Counter,
}

impl BatchType {
    /// The byte that stands for the kind on the wire.
    pub open spec fn code(self) -> u8 {
        match self {
            BatchType::Logged => 0,
            BatchType::Unlogged => 1,
            BatchType::Counter => 2,
        }
    }

    /// The byte that stands for the kind on the wire.
    pub fn to_u8(self) -> (r: u8)
        ensures
            r == self.code(),
    {
        match self {
            BatchType::Logged => 0,
            BatchType::Unlogged => 1,
            BatchType::Counter => 2,
        }
    }
}

/// A `BATCH` request: the statements, a list of values for each, and how
/// to execute them.
pub struct Batch<'a> {
    pub statements: &'a [BatchStatement],
    pub batch_type: BatchType,
    pub consistency: Consistency,
    pub values: &'a [SerializedValues],
}

/// One statement of a batch on the wire: a byte that says whether the text
/// or the id of a prepared statement follows, the text as a `[long string]`
/// or the id as `[short bytes]`, and the values with their number as a
/// `[short]`.
pub open spec fn batch_statement_wire(
    statement: BatchStatementView,
    values: Seq<Option<Seq<u8>>>,
) -> Seq<u8> {
    (match statement {
        BatchStatementView::Query(query) => seq![0u8] + long_string_wire(query.contents),
        BatchStatementView::PreparedStatement(prepared) => seq![1u8] + short_bytes_wire(
            prepared.id,
        ),
    }) + short_wire(values.len() as u16) + values_wire(values)
}

/// Why a statement does not fit its place in a batch, if it does not: its
/// text has more bytes than an `[int]`, or its id more than a `[short]`,
/// can say.
pub open spec fn batch_statement_fault(statement: BatchStatementView) -> Option<SerializeError> {
    match statement {
        BatchStatementView::Query(query) => if encode_utf8(query.contents).len() > i32::MAX {
            Some(SerializeError::IntLengthOverflow)
        } else {
            None
        },
        BatchStatementView::PreparedStatement(prepared) => if prepared.id.len() > u16::MAX {
            Some(SerializeError::ShortLengthOverflow)
        } else {
            None
        },
    }
}

/// The first `count` statements of a batch on the wire, each with its
/// values.
pub open spec fn batch_statements_wire(
    statements: Seq<BatchStatementView>,
    values: Seq<Seq<Option<Seq<u8>>>>,
    count: nat,
) -> Seq<u8>
    decreases count,
{
    if count == 0 {
        Seq::empty()
    } else {
        batch_statements_wire(statements, values, (count - 1) as nat) + batch_statement_wire(
            statements[count - 1],
            values[count - 1],
        )
    }
}

/// The fault of the first statement from position `from` on that has one.
pub open spec fn first_statement_fault(statements: Seq<BatchStatementView>, from: nat) -> Option<
    SerializeError,
>
    decreases statements.len() - from,
{
    if from >= statements.len() {
        None
    } else {
        match batch_statement_fault(statements[from as int]) {
            Some(e) => Some(e),
            None => first_statement_fault(statements, from + 1),
        }
    }
}

/// Why a batch cannot be written, if it cannot: it has more statements
/// than a `[short]` can say; or not one list of values for each statement;
/// or a statement that does not fit.
pub open spec fn batch_fault(statements: Seq<BatchStatementView>, value_lists: nat) -> Option<
    SerializeError,
> {
    if statements.len() > u16::MAX {
        Some(SerializeError::ShortLengthOverflow)
    } else if value_lists != statements.len() {
        Some(SerializeError::ValueCountMismatch)
    } else {
        first_statement_fault(statements, 0)
    }
}

/// The body of a `BATCH` request: the kind of batch, the number of
/// statements as a `[short]`, the statements with their values, the
/// consistency level, and a byte of flags, none of which is set.
pub open spec fn batch_wire(
    batch_type: BatchType,
    statements: Seq<BatchStatementView>,
    values: Seq<Seq<Option<Seq<u8>>>>,
    consistency: Consistency,
) -> Seq<u8> {
    seq![batch_type.code()] + short_wire(statements.len() as u16) + batch_statements_wire(
        statements,
        values,
        statements.len(),
    ) + short_wire(consistency.code()) + seq![0u8]
}

impl<'a> Batch<'a> {
    /// The opcode of the request.
    pub fn opcode(&self) -> (r: RequestOpcode)
        ensures
            r == RequestOpcode::Batch,
    {
        RequestOpcode::Batch
    }

    /// Appends the body of the request. Fails, and appends nothing, when
    /// the batch cannot be written.
    pub fn serialize(&self, buf: &mut Vec<u8>) -> (r: Result<(), SerializeError>)
        ensures
            match r {
                Ok(()) => batch_fault(self.statements.deep_view(), self.values@.len()) is None
                    && final(buf)@ == old(buf)@ + batch_wire(
                    self.batch_type,
                    self.statements.deep_view(),
                    self.values.deep_view(),
                    self.consistency,
                ),
                Err(e) => batch_fault(self.statements.deep_view(), self.values@.len()) == Some(e)
                    && final(buf)@ == old(buf)@,
            },
    {
        let start = buf.len();
        let count = self.statements.len();
        if count > u16::MAX as usize {
            return Err(SerializeError::ShortLengthOverflow);
        }
        if self.values.len() != count {
            return Err(SerializeError::ValueCountMismatch);
        }
        let ghost statements = self.statements.deep_view();
        let ghost values = self.values.deep_view();
        buf.push(self.batch_type.to_u8());
        write_short(count as u16, buf);
        let ghost head = old(buf)@ + seq![self.batch_type.code()] + short_wire(count as u16);
        assert(buf@ =~= head + batch_statements_wire(statements, values, 0));
        let mut i: usize = 0;
        while i < count
            invariant
                i <= count <= u16::MAX,
                count == self.statements@.len(),
                count == self.values@.len(),
                statements == self.statements.deep_view(),
                values == self.values.deep_view(),
                start == old(buf)@.len(),
                head == old(buf)@ + seq![self.batch_type.code()] + short_wire(count as u16),
                buf@ == head + batch_statements_wire(statements, values, i as nat),
                first_statement_fault(statements, 0) == first_statement_fault(statements, i as nat),
            decreases count - i,
        {
            let ghost before = buf@;
            let written = match &self.statements[i] {
                BatchStatement::Query(query) => {
                    buf.push(0);
                    write_long_string(query.get_contents(), buf)
                },
                BatchStatement::PreparedStatement(prepared) => {
                    buf.push(1);
                    write_short_bytes(bytes_as_slice(prepared.get_id()), buf)
                },
            };
            match written {
                Ok(()) => {},
                Err(e) => {
                    buf.truncate(start);
                    assert(buf@ =~= old(buf)@);
                    return Err(e);
                },
            }
            self.values[i].write_to_request(buf);
            proof {
                assert(values[i as int] == self.values@[i as int]@);
                assert(statements[i as int] == self.statements@[i as int]@);
                assert(buf@ =~= before + batch_statement_wire(
                    statements[i as int],
                    values[i as int],
                ));
            }
            i += 1;
        }
        write_consistency(self.consistency, buf);
        buf.push(0);
        assert(buf@ =~= old(buf)@ + batch_wire(
            self.batch_type,
            statements,
            values,
            self.consistency,
        ));
        Ok(())
    }
}

} // verus!
