//! Several statements sent as one request.

use crate::frame::request::batch::BatchType;
use crate::statement::Consistency;
use crate::statement::prepared_statement::{PreparedStatement, PreparedStatementView};
use crate::statement::query::{new_query, Query, QueryView};
use crate::transport::retry_policy::{share_template, RetryPolicyTemplate};
use std::sync::Arc;
use vstd::prelude::*;
use vstd::std_specs::convert::FromSpecImpl;

verus! {

/// A statement that can stand in a batch.
pub enum BatchStatement {
    Query(Query),
    PreparedStatement(PreparedStatement),
}

/// What a [`BatchStatement`] says.
pub enum BatchStatementView {
    Query(QueryView),
    PreparedStatement(PreparedStatementView),
}

impl View for BatchStatement {
    type V = BatchStatementView;

    open spec fn view(&self) -> BatchStatementView {
        match self {
            BatchStatement::Query(q) => BatchStatementView::Query(q@),
            BatchStatement::PreparedStatement(p) => BatchStatementView::PreparedStatement(p@),
        }
    }
}

impl DeepView for BatchStatement {
    type V = BatchStatementView;

    open spec fn deep_view(&self) -> BatchStatementView {
        self@
    }
}

impl Clone for BatchStatement {
    fn clone(&self) -> (r: BatchStatement)
        ensures
            r@ == self@,
    {
        match self {
            BatchStatement::Query(q) => BatchStatement::Query(q.clone()),
            BatchStatement::PreparedStatement(p) => BatchStatement::PreparedStatement(p.clone()),
        }
    }
}

impl From<&str> for BatchStatement {
    fn from(s: &str) -> (r: BatchStatement)
        ensures
            r@ == BatchStatementView::Query(new_query(s@)),
    {
        BatchStatement::Query(Query::from(s))
    }
}

impl FromSpecImpl<&str> for BatchStatement {
    open spec fn obeys_from_spec() -> bool {
        false
    }

    open spec fn from_spec(s: &str) -> BatchStatement {
        arbitrary()
    }
}

impl From<Query> for BatchStatement {
    fn from(q: Query) -> (r: BatchStatement) {
        BatchStatement::Query(q)
    }
}

impl FromSpecImpl<Query> for BatchStatement {
    open spec fn obeys_from_spec() -> bool {
        true
    }

    open spec fn from_spec(q: Query) -> BatchStatement {
        BatchStatement::Query(q)
    }
}

impl From<PreparedStatement> for BatchStatement {
    fn from(p: PreparedStatement) -> (r: BatchStatement) {
        BatchStatement::PreparedStatement(p)
    }
}

impl FromSpecImpl<PreparedStatement> for BatchStatement {
    open spec fn obeys_from_spec() -> bool {
        true
    }

    open spec fn from_spec(p: PreparedStatement) -> BatchStatement {
        BatchStatement::PreparedStatement(p)
    }
}

/// Several statements that are sent as one request, with how it is to be
/// executed.
pub struct Batch {
    statements: Vec<BatchStatement>,
    batch_type: BatchType,
    /// The consistency level of the request.
    pub consistency: Consistency,
    /// Whether applying the batch more than once leaves the same state as
    /// applying it once. `false` means that this is not known.
    pub is_idempotent: bool,
    /// The retry policy of this batch, where it is not the session's.
    pub retry_policy: Option<Arc<dyn RetryPolicyTemplate>>,
}

/// What a [`Batch`] says.
pub struct BatchView {
    pub statements: Seq<BatchStatementView>,
    pub batch_type: BatchType,
    pub consistency: Consistency,
    pub is_idempotent: bool,
    /// The retry policy of this statement, where it is not the session's.
    pub retry_policy: Option<Arc<dyn RetryPolicyTemplate>>,
}

impl View for Batch {
    type V = BatchView;

    closed spec fn view(&self) -> BatchView {
        BatchView {
            statements: self.statements.deep_view(),
            batch_type: self.batch_type,
            consistency: self.consistency,
            is_idempotent: self.is_idempotent,
            retry_policy: self.retry_policy,
        }
    }
}

/// A batch as [`Batch::new`] makes it: without statements, at the default
/// consistency level, not known to be idempotent, under the session's retry
/// policy.
pub open spec fn new_batch(batch_type: BatchType) -> BatchView {
    BatchView {
        statements: Seq::empty(),
        batch_type,
        consistency: Consistency::Quorum,
        is_idempotent: false,
        retry_policy: None,
    }
}

impl Batch {
    /// An empty batch of the given kind.
    pub fn new(batch_type: BatchType) -> (r: Self)
        ensures
            r@ == new_batch(batch_type),
    {
        let r = Self {
            statements: Vec::new(),
            batch_type,
            consistency: Consistency::default(),
            is_idempotent: false,
            retry_policy: None,
        };
        assert(r.statements.deep_view() =~= Seq::empty());
        r
    }

    /// Appends a statement to the batch.
    pub fn append_statement(&mut self, statement: BatchStatement)
        ensures
            final(self)@ == (BatchView {
                statements: old(self)@.statements.push(statement@),
                ..old(self)@
            }),
    {
        let ghost before = self.statements.deep_view();
        self.statements.push(statement);
        assert(self.statements.deep_view() =~= before.push(statement@));
    }

    /// The kind of the batch.
    pub fn get_type(&self) -> (r: BatchType)
        ensures
            r == self@.batch_type,
    {
        self.batch_type
    }

    /// The statements of the batch, in the order in which they were
    /// appended.
    pub fn get_statements(&self) -> (r: &[BatchStatement])
        ensures
            r@.len() == self@.statements.len(),
            forall|i: int| 0 <= i < r@.len() ==> (#[trigger] r@[i])@ == self@.statements[i],
    {
        self.statements.as_slice()
    }

    /// Sets the consistency level of the request.
    pub fn set_consistency(&mut self, c: Consistency)
        ensures
            final(self)@ == (BatchView { consistency: c, ..old(self)@ }),
    {
        self.consistency = c;
    }

    /// The consistency level of the request.
    pub fn get_consistency(&self) -> (r: Consistency)
        ensures
            r == self@.consistency,
    {
        self.consistency
    }

    /// Says whether the batch is known to be idempotent.
    pub fn set_is_idempotent(&mut self, is_idempotent: bool)
        ensures
            final(self)@ == (BatchView { is_idempotent, ..old(self)@ }),
    {
        self.is_idempotent = is_idempotent;
    }

    /// Whether the batch is known to be idempotent.
    pub fn get_is_idempotent(&self) -> (r: bool)
        ensures
            r == self@.is_idempotent,
    {
        self.is_idempotent
    }

    /// Gives the batch a retry policy of its own, or, with `None`, puts it
    /// under the session's again.
    pub fn set_retry_policy(&mut self, retry_policy: Option<Arc<dyn RetryPolicyTemplate>>)
        ensures
            final(self)@ == (BatchView { retry_policy, ..old(self)@ }),
    {
        self.retry_policy = retry_policy;
    }

    /// The retry policy of the batch, where it has one of its own.
    pub fn get_retry_policy(&self) -> (r: &Option<Arc<dyn RetryPolicyTemplate>>)
        ensures
            *r == self@.retry_policy,
    {
        &self.retry_policy
    }
}

impl Default for Batch {
    fn default() -> (r: Self)
        ensures
            r@ == new_batch(BatchType::Logged),
    {
        Batch::new(BatchType::Logged)
    }
}

impl Clone for Batch {
    fn clone(&self) -> (r: Batch)
        ensures
            r@ == self@,
    {
        let mut statements: Vec<BatchStatement> = Vec::new();
        let mut i: usize = 0;
        while i < self.statements.len()
            invariant
                i <= self.statements@.len(),
                statements@.len() == i,
                forall|j: int| 0 <= j < i ==> statements@[j]@ == self.statements@[j]@,
            decreases self.statements@.len() - i,
        {
            statements.push(self.statements[i].clone());
            i += 1;
        }
        assert(statements.deep_view() =~= self.statements.deep_view());
        Batch {
            statements,
            batch_type: self.batch_type,
            consistency: self.consistency,
            is_idempotent: self.is_idempotent,
            retry_policy: share_template(&self.retry_policy),
        }
    }
}

} // verus!
