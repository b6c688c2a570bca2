//! A statement that the server has prepared.

use bytes::Bytes;
use crate::frame::byte_buffers::{
    bytes_clone, bytes_contents, bytes_mut_contents, bytes_mut_extend_from_slice, bytes_mut_freeze,
    bytes_mut_new, bytes_mut_put_u16, bytes_mut_put_u8,
};
use crate::frame::response::result::{PreparedMetadata, PreparedMetadataView};
use crate::frame::value::SerializedValues;
use crate::statement::Consistency;
use crate::transport::retry_policy::{share_template, RetryPolicyTemplate};
use std::sync::Arc;
use vstd::prelude::*;

verus! {

/// A statement that the server has prepared, with how it is to be executed.
pub struct PreparedStatement {
    id: Bytes,
    metadata: PreparedMetadata,
    statement: String,
    page_size: Option<i32>,
    /// The consistency level of the request.
    pub consistency: Consistency,
    /// Whether applying the statement more than once leaves the same state as
    /// applying it once. `false` means that this is not known.
    pub is_idempotent: bool,
    /// The retry policy of this statement, where it is not the session's.
    pub retry_policy: Option<Arc<dyn RetryPolicyTemplate>>,
    /// Whether the server is asked to trace the execution.
    pub tracing: bool,
}

/// What a [`PreparedStatement`] says.
pub struct PreparedStatementView {
    pub id: Seq<u8>,
    pub metadata: PreparedMetadataView,
    pub statement: Seq<char>,
    pub page_size: Option<i32>,
    pub consistency: Consistency,
    pub is_idempotent: bool,
    /// The retry policy of this statement, where it is not the session's.
    pub retry_policy: Option<Arc<dyn RetryPolicyTemplate>>,
    pub tracing: bool,
}

impl PreparedStatementView {
    /// The keyspace that the statement works on: that of its first bind
    /// marker, if it has one.
    pub open spec fn keyspace_name(self) -> Option<Seq<char>> {
        if self.metadata.col_specs.len() > 0 {
            Some(self.metadata.col_specs[0].table_spec.ks_name)
        } else {
            None
        }
    }
}

impl View for PreparedStatement {
    type V = PreparedStatementView;

    closed spec fn view(&self) -> PreparedStatementView {
        PreparedStatementView {
            id: bytes_contents(&self.id),
            metadata: self.metadata@,
            statement: self.statement@,
            page_size: self.page_size,
            consistency: self.consistency,
            is_idempotent: self.is_idempotent,
            retry_policy: self.retry_policy,
            tracing: self.tracing,
        }
    }
}

/// Why the partition key of a statement could not be computed.
#[derive(Debug, Clone, Copy, PartialEq, Eq, PartialOrd, Ord)]
pub enum PartitionKeyError {
    /// No value is bound at an index of the partition key: the index, and
    /// the number of values bound.
    NoPkIndexValue(u16, i16),
    /// A value of a compound key has more than 65 535 bytes: its length.
    ValueTooLong(usize),
}

/// One value as it stands in a compound key: its length in two bytes, most
/// significant first, its bytes, and a zero byte.
pub open spec fn key_component(value: Seq<u8>) -> Seq<u8>
    recommends
        value.len() <= u16::MAX,
{
    seq![(value.len() / 0x100) as u8, (value.len() % 0x100) as u8] + value + seq![0u8]
}

/// The outcome of `more` with `done` in front of the key.
pub open spec fn key_after(done: Seq<u8>, more: Result<Seq<u8>, PartitionKeyError>) -> Result<
    Seq<u8>,
    PartitionKeyError,
> {
    match more {
        Ok(key) => Ok(done + key),
        Err(e) => Err(e),
    }
}

/// The compound key of the values at the indexes from position `from` on:
/// the components of the values that are not null, in the order of the
/// indexes. The first index without a value, or the first value that is too
/// long, is the error.
pub open spec fn compound_key(
    pk_indexes: Seq<u16>, values: Seq<Option<Seq<u8>>>, from: nat) -> Result<
    Seq<u8>,
    PartitionKeyError,
>
    decreases pk_indexes.len() - from,
{
    if from >= pk_indexes.len() {
        Ok(Seq::empty())
    } else {
        let index = pk_indexes[from as int];
        if index >= values.len() {
            Err(PartitionKeyError::NoPkIndexValue(index, values.len() as i16))
        } else {
            match values[index as int] {
                None => compound_key(pk_indexes, values, from + 1),
                Some(value) => if value.len() > u16::MAX {
                    Err(PartitionKeyError::ValueTooLong(value.len() as usize))
                } else {
                    key_after(key_component(value), compound_key(pk_indexes, values, from + 1))
                },
            }
        }
    }
}

/// The partition key of a statement whose key is made of the values at
/// `pk_indexes`. A key of one value is that value's bytes, as they are, or
/// nothing for null; any other key is compound.
pub open spec fn partition_key(pk_indexes: Seq<u16>, values: Seq<Option<Seq<u8>>>) -> Result<
    Seq<u8>,
    PartitionKeyError,
> {
    if pk_indexes.len() == 1 {
        let index = pk_indexes[0];
        if index >= values.len() {
            Err(PartitionKeyError::NoPkIndexValue(index, values.len() as i16))
        } else {
            match values[index as int] {
                None => Ok(Seq::empty()),
                Some(value) => Ok(value),
            }
        }
    } else {
        compound_key(pk_indexes, values, 0)
    }
}

/// The number of bytes that go into a compound key, from position `from` on,
/// before the key is complete or an error stops it.
pub open spec fn compound_key_written(
    pk_indexes: Seq<u16>,
    values: Seq<Option<Seq<u8>>>,
    from: nat,
) -> nat
    decreases pk_indexes.len() - from,
{
    if from >= pk_indexes.len() {
        0
    } else {
        let index = pk_indexes[from as int];
        if index >= values.len() {
            0
        } else {
            match values[index as int] {
                None => compound_key_written(pk_indexes, values, from + 1),
                Some(value) => if value.len() > u16::MAX {
                    0
                } else {
                    value.len() + 3 + compound_key_written(pk_indexes, values, from + 1)
                },
            }
        }
    }
}

/// The key can be held in memory while it is built: a buffer cannot grow
/// beyond `isize::MAX` bytes. A key of one value always can, as no value
/// is longer than that.
pub open spec fn partition_key_fits(pk_indexes: Seq<u16>, values: Seq<Option<Seq<u8>>>) -> bool {
    pk_indexes.len() != 1 ==> compound_key_written(pk_indexes, values, 0) <= isize::MAX
}

/// A compound key of at most `i16::MAX` values fits on every machine.
pub proof fn lemma_short_key_fits(pk_indexes: Seq<u16>, values: Seq<Option<Seq<u8>>>)
    requires
        pk_indexes.len() <= i16::MAX,
    ensures
        partition_key_fits(pk_indexes, values),
{
    lemma_written_bound(pk_indexes, values, 0);
    assert(pk_indexes.len() * 0x1_0002 <= 0x7fff * 0x1_0002) by (nonlinear_arith)
        requires
            pk_indexes.len() <= 0x7fff,
    ;
}

/// No value puts more than 65 538 bytes into a compound key.
pub proof fn lemma_written_bound(pk_indexes: Seq<u16>, values: Seq<Option<Seq<u8>>>, from: nat)
    requires
        from <= pk_indexes.len(),
    ensures
        compound_key_written(pk_indexes, values, from) <= (pk_indexes.len() - from) * 0x1_0002,
    decreases pk_indexes.len() - from,
{
    if from < pk_indexes.len() {
        lemma_written_bound(pk_indexes, values, from + 1);
        assert((pk_indexes.len() - from) * 0x1_0002 == (pk_indexes.len() - (from + 1)) * 0x1_0002
            + 0x1_0002) by (nonlinear_arith);
    }
}

impl PreparedStatement {
    /// A prepared statement from what the server returned for its text:
    /// unpaged, at the default consistency level, not known to be
    /// idempotent, under the session's retry policy, not traced.
    pub fn new(id: Bytes, metadata: PreparedMetadata, statement: String) -> (r: Self)
        ensures
            r@ == (PreparedStatementView {
                id: bytes_contents(&id),
                metadata: metadata@,
                statement: statement@,
                page_size: None,
                consistency: Consistency::Quorum,
                is_idempotent: false,
                retry_policy: None,
                tracing: false,
            }),
    {
        Self {
            id,
            metadata,
            statement,
            page_size: None,
            consistency: Consistency::default(),
            is_idempotent: false,
            retry_policy: None,
            tracing: false,
        }
    }

    /// The id that the server gave the statement.
    pub fn get_id(&self) -> (r: &Bytes)
        ensures
            bytes_contents(r) == self@.id,
    {
        &self.id
    }

    /// The text of the statement.
    pub fn get_statement(&self) -> (r: &str)
        ensures
            r@ == self@.statement,
    {
        self.statement.as_str()
    }

    /// What the server said of the statement's bind markers.
    pub fn get_metadata(&self) -> (r: &PreparedMetadata)
        ensures
            r@ == self@.metadata,
    {
        &self.metadata
    }

    /// Asks for the result in pages of `page_size` rows.
    pub fn set_page_size(&mut self, page_size: i32)
        requires
            page_size > 0,
        ensures
            final(self)@ == (PreparedStatementView { page_size: Some(page_size), ..old(self)@ }),
    {
        self.page_size = Some(page_size);
    }

    /// Asks for the result in one piece.
    pub fn disable_paging(&mut self)
        ensures
            final(self)@ == (PreparedStatementView { page_size: None, ..old(self)@ }),
    {
        self.page_size = None;
    }

    /// The number of rows in a page, if the result is paged.
    pub fn get_page_size(&self) -> (r: Option<i32>)
        ensures
            r == self@.page_size,
    {
        self.page_size
    }

    /// Sets the consistency level of the request.
    pub fn set_consistency(&mut self, c: Consistency)
        ensures
            final(self)@ == (PreparedStatementView { consistency: c, ..old(self)@ }),
    {
        self.consistency = c;
    }

    /// The consistency level of the request.
    pub fn get_consistency(&self) -> (r: Consistency)
        ensures
            r == self@.consistency,
    {
        self.consistency
    }

    /// Says whether the statement is known to be idempotent. A retry policy
    /// takes this into account.
    pub fn set_is_idempotent(&mut self, is_idempotent: bool)
        ensures
            final(self)@ == (PreparedStatementView { is_idempotent, ..old(self)@ }),
    {
        self.is_idempotent = is_idempotent;
    }

    /// Whether the statement is known to be idempotent.
    pub fn get_is_idempotent(&self) -> (r: bool)
        ensures
            r == self@.is_idempotent,
    {
        self.is_idempotent
    }

    /// Gives the statement a retry policy of its own, or, with `None`, puts
    /// it under the session's again.
    pub fn set_retry_policy(&mut self, retry_policy: Option<Arc<dyn RetryPolicyTemplate>>)
        ensures
            final(self)@ == (PreparedStatementView {
                retry_policy,
                ..old(self)@
            }),
    {
        self.retry_policy = retry_policy;
    }

    /// The retry policy of the statement, where it has one of its own.
    pub fn get_retry_policy(&self) -> (r: &Option<Arc<dyn RetryPolicyTemplate>>)
        ensures
            *r == self@.retry_policy,
    {
        &self.retry_policy
    }

    /// Asks the server to trace the execution, or not to.
    pub fn set_tracing(&mut self, should_trace: bool)
        ensures
            final(self)@ == (PreparedStatementView { tracing: should_trace, ..old(self)@ }),
    {
        self.tracing = should_trace;
    }

    /// Whether the server is asked to trace the execution.
    pub fn get_tracing(&self) -> (r: bool)
        ensures
            r == self@.tracing,
    {
        self.tracing
    }

    /// Tells whether the partition key for the given values can be held in
    /// memory while it is built.
    pub fn key_fits(&self, bound_values: &SerializedValues) -> (r: bool)
        ensures
            r == partition_key_fits(self@.metadata.pk_indexes, bound_values@),
    {
        let ghost indexes = self@.metadata.pk_indexes;
        let ghost values = bound_values@;
        let count = self.metadata.pk_indexes.len();
        if count == 1 {
            return true;
        }
        let mut total: usize = 0;
        let mut i: usize = 0;
        while i < count
            invariant
                i <= count == indexes.len(),
                count != 1,
                indexes == self.metadata.pk_indexes@,
                indexes == self@.metadata.pk_indexes,
                values == bound_values@,
                total <= isize::MAX,
                total + compound_key_written(indexes, values, i as nat) == compound_key_written(
                    indexes,
                    values,
                    0,
                ),
            decreases count - i,
        {
            let index = self.metadata.pk_indexes[i];
            match bound_values.get(index as usize) {
                None => {
                    return true;
                },
                Some(None) => {},
                Some(Some(v)) => {
                    let len = v.len();
                    if len > u16::MAX as usize {
                        return true;
                    }
                    if total > isize::MAX as usize - (len + 3) {
                        return false;
                    }
                    total += len + 3;
                },
            }
            i += 1;
        }
        true
    }

    /// The partition key of the row that the statement touches when the
    /// given values are bound to it. The key is built in a buffer, which
    /// must be able to hold it.
    pub fn compute_partition_key(&self, bound_values: &SerializedValues) -> (r: Result<
        Bytes,
        PartitionKeyError,
    >)
        requires
            partition_key_fits(self@.metadata.pk_indexes, bound_values@),
        ensures
            match r {
                Ok(key) => partition_key(self@.metadata.pk_indexes, bound_values@) == Ok::<
                    _,
                    PartitionKeyError,
                >(bytes_contents(&key)),
                Err(e) => partition_key(self@.metadata.pk_indexes, bound_values@) == Err::<
                    Seq<u8>,
                    _,
                >(e),
            },
    {
        let ghost indexes = self@.metadata.pk_indexes;
        let ghost values = bound_values@;
        let mut buf = bytes_mut_new();

        if self.metadata.pk_indexes.len() == 1 {
            let index = self.metadata.pk_indexes[0];
            match bound_values.get(index as usize) {
                None => {
                    return Err(PartitionKeyError::NoPkIndexValue(index, bound_values.len()));
                },
                Some(None) => {},
                Some(Some(v)) => {
                    let _ = v.len();
                    bytes_mut_extend_from_slice(&mut buf, v);
                    assert(bytes_mut_contents(&buf) =~= v@);
                },
            }
            return Ok(bytes_mut_freeze(buf));
        }
        let mut i: usize = 0;
        let count = self.metadata.pk_indexes.len();
        while i < count
            invariant
                i <= count == indexes.len(),
                count != 1,
                indexes == self.metadata.pk_indexes@,
                indexes == self@.metadata.pk_indexes,
                values == bound_values@,
                compound_key(indexes, values, 0) == key_after(
                    bytes_mut_contents(&buf),
                    compound_key(indexes, values, i as nat),
                ),
                bytes_mut_contents(&buf).len() + compound_key_written(indexes, values, i as nat)
                    <= isize::MAX,
            decreases count - i,
        {
            let index = self.metadata.pk_indexes[i];
            let ghost done = bytes_mut_contents(&buf);
            let ghost more = compound_key(indexes, values, (i + 1) as nat);
            match bound_values.get(index as usize) {
                None => {
                    return Err(PartitionKeyError::NoPkIndexValue(index, bound_values.len()));
                },
                Some(None) => {},
                Some(Some(v)) => {
                    let len = v.len();
                    if len > u16::MAX as usize {
                        return Err(PartitionKeyError::ValueTooLong(len));
                    }
                    bytes_mut_put_u16(&mut buf, len as u16);
                    bytes_mut_extend_from_slice(&mut buf, v);
                    bytes_mut_put_u8(&mut buf, 0);
                    proof {
                        assert(bytes_mut_contents(&buf) =~= done + key_component(v@));
                        if let Ok(rest) = more {
                            assert(done + (key_component(v@) + rest) =~= (done + key_component(v@))
                                + rest);
                        }
                    }
                },
            }
            i += 1;
        }
        proof {
            assert(bytes_mut_contents(&buf) + Seq::<u8>::empty() =~= bytes_mut_contents(&buf));
        }
        Ok(bytes_mut_freeze(buf))
    }

    /// The keyspace that the statement works on: that of its first bind
    /// marker, if it has one.
    pub fn get_keyspace_name(&self) -> (r: Option<&str>)
        ensures
            match r {
                Some(name) => self@.keyspace_name() == Some(name@),
                None => self@.keyspace_name() is None,
            },
    {
        if self.metadata.col_specs.len() > 0 {
            Some(self.metadata.col_specs[0].table_spec.ks_name.as_str())
        } else {
            None
        }
    }
}

impl Clone for PreparedStatement {
    fn clone(&self) -> (r: PreparedStatement)
        ensures
            r@ == self@,
    {
        PreparedStatement {
            id: bytes_clone(&self.id),
            metadata: self.metadata.clone(),
            statement: self.statement.clone(),
            page_size: self.page_size,
            consistency: self.consistency,
            is_idempotent: self.is_idempotent,
            retry_policy: share_template(&self.retry_policy),
            tracing: self.tracing,
        }
    }
}

} // verus!
