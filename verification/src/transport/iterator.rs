//! A result that comes in pages: the worker that fetches page after page,
//! and the iterator that hands out their rows.

use bytes::Bytes;
use crate::frame::response::cql_to_rust::{FromRow, FromRowError};
use crate::frame::response::result::{
    optional_bytes_contents, ResultMetadataView, Row, Rows, RowsView,
};
use crate::routing::Token;
use crate::statement::Consistency;
use crate::transport::errors::QueryError;
use crate::transport::metrics::{counted, Metrics};
use crate::transport::retry_policy::{
    BoxedRetryPolicy, DefaultRetryPolicy, Failure, QueryInfo, RetryDecision,
    RetryPolicyTemplate,
};
use crate::transport::session::is_empty_plan_error;
use std::sync::Arc;
use vstd::prelude::*;
use vstd::std_specs::convert::FromSpecImpl;

verus! {

/// The rows of a paged result, in the order in which the server sent them.
/// The iterator holds the rows of the pages that have arrived and hands
/// them out one by one.
pub struct RowIterator {
    current_row_idx: usize,
    current_page: Rows,
    closed: bool,
}

/// What a [`RowIterator`] says.
pub struct RowIteratorView {
    /// The rows that have arrived and were not handed out yet.
    pub remaining: Seq<Row>,
    /// No further page will arrive.
    pub closed: bool,
}

/// What the iterator has for its consumer.
pub enum NextRow {
    /// The next row.
    Row(Row),
    /// Nothing yet: the next page has to arrive first.
    Pending,
    /// Nothing more: all rows of all pages were handed out.
    Done,
}

impl View for RowIterator {
    type V = RowIteratorView;

    closed spec fn view(&self) -> RowIteratorView {
        RowIteratorView {
            remaining: self.current_page.rows@.skip(self.current_row_idx as int),
            closed: self.closed,
        }
    }
}

impl RowIterator {
    #[verifier::type_invariant]
    spec fn inv(self) -> bool {
        self.current_row_idx <= self.current_page.rows@.len()
    }

    /// An iterator to which no page has arrived yet.
    pub fn new() -> (r: Self)
        ensures
            r@.remaining == Seq::<Row>::empty(),
            !r@.closed,
    {
        let r = RowIterator { current_row_idx: 0, current_page: Rows::default(), closed: false };
        assert(r@.remaining =~= Seq::<Row>::empty());
        r
    }

    /// Whether all rows that have arrived were handed out.
    pub fn is_current_page_exhausted(&self) -> (r: bool)
        ensures
            r == (self@.remaining.len() == 0),
    {
        proof {
            use_type_invariant(self);
        }
        self.current_row_idx >= self.current_page.rows.len()
    }

    /// Takes in a page that has arrived. Its rows follow those that are
    /// still to be handed out.
    pub fn page_received(&mut self, rows: Rows)
        ensures
            final(self)@.remaining == old(self)@.remaining + rows.rows@,
            final(self)@.closed == old(self)@.closed,
    {
        proof {
            use_type_invariant(&*self);
        }
        let closed = self.closed;
        if self.current_row_idx >= self.current_page.rows.len() {
            assert(self@.remaining =~= Seq::<Row>::empty());
            assert(rows.rows@.skip(0) =~= rows.rows@);
            *self = RowIterator { current_row_idx: 0, current_page: rows, closed };
            assert(self@.remaining =~= old(self)@.remaining + rows.rows@);
        } else {
            let mut taken = RowIterator {
                current_row_idx: 0,
                current_page: Rows::default(),
                closed,
            };
            core::mem::swap(self, &mut taken);
            let RowIterator { current_row_idx, current_page, closed } = taken;
            let mut page = current_page;
            let mut more = rows;
            let ghost before = page.rows@;
            let ghost added = more.rows@;
            page.rows.append(&mut more.rows);
            assert(page.rows@ =~= before + added);
            assert((before + added).skip(current_row_idx as int) =~= before.skip(
                current_row_idx as int,
            ) + added);
            *self = RowIterator { current_row_idx, current_page: page, closed };
        }
    }

    /// Takes note that no further page will arrive.
    pub fn channel_closed(&mut self)
        ensures
            final(self)@.remaining == old(self)@.remaining,
            final(self)@.closed,
    {
        proof {
            use_type_invariant(&*self);
        }
        self.closed = true;
    }

    /// Hands out the next row, if one has arrived. At the end of the pages
    /// that have arrived, the consumer is told to wait for the next page, or,
    /// if none will arrive, that the result is at its end.
    pub fn next_row(&mut self) -> (r: NextRow)
        ensures
            match r {
                NextRow::Row(row) => old(self)@.remaining.len() > 0
                    && row == old(self)@.remaining[0]
                    && final(self)@.remaining == old(self)@.remaining.skip(1),
                NextRow::Pending => old(self)@.remaining.len() == 0 && !old(self)@.closed
                    && final(self)@.remaining == old(self)@.remaining,
                NextRow::Done => old(self)@.remaining.len() == 0 && old(self)@.closed
                    && final(self)@.remaining == old(self)@.remaining,
            },
            final(self)@.closed == old(self)@.closed,
    {
        proof {
            use_type_invariant(&*self);
        }
        let closed = self.closed;
        if self.current_row_idx >= self.current_page.rows.len() {
            return if closed {
                NextRow::Done
            } else {
                NextRow::Pending
            };
        }
        let mut taken = RowIterator { current_row_idx: 0, current_page: Rows::default(), closed };
        core::mem::swap(self, &mut taken);
        let RowIterator { current_row_idx, current_page, closed } = taken;
        let mut page = current_page;
        let ghost before = page.rows@;
        let mut row = Row::default();
        core::mem::swap(&mut page.rows[current_row_idx], &mut row);
        assert(page.rows@.skip(current_row_idx + 1) =~= before.skip(current_row_idx as int).skip(
            1,
        ));
        *self = RowIterator { current_row_idx: current_row_idx + 1, current_page: page, closed };
        NextRow::Row(row)
    }
}

/// The rows of the pages from page `from` on, page after page.
pub open spec fn rows_of_pages(pages: Seq<Seq<Row>>, from: nat) -> Seq<Row>
    decreases pages.len() - from,
{
    if from >= pages.len() {
        Seq::empty()
    } else {
        pages[from as int] + rows_of_pages(pages, from + 1)
    }
}

impl RowIteratorView {
    /// The iterator after a page has arrived.
    pub open spec fn after_page(self, rows: Seq<Row>) -> RowIteratorView {
        RowIteratorView { remaining: self.remaining + rows, ..self }
    }

    /// The iterator after all rows that had arrived were handed out.
    pub open spec fn drained(self) -> RowIteratorView {
        RowIteratorView { remaining: Seq::empty(), ..self }
    }

    /// What a consumer is handed who, for each page from page `from` on,
    /// lets the page arrive and then takes rows until the iterator makes
    /// it wait.
    pub open spec fn handed_out(self, pages: Seq<Seq<Row>>, from: nat) -> Seq<Row>
        decreases pages.len() - from,
    {
        if from >= pages.len() {
            self.remaining
        } else {
            self.after_page(pages[from as int]).remaining + self.after_page(
                pages[from as int],
            ).drained().handed_out(pages, from + 1)
        }
    }
}

/// The rows of a result come out as they came in: a consumer of a fresh
/// iterator to which the pages of a result arrive one after the other is
/// handed every row of every page, once, in the order of the pages and of
/// the rows in each page, whatever the number and the sizes of the pages.
pub proof fn lemma_pages_yield_rows_in_order(pages: Seq<Seq<Row>>, from: nat)
    ensures
        (RowIteratorView { remaining: Seq::empty(), closed: false }).handed_out(pages, from)
            == rows_of_pages(pages, from),
    decreases pages.len() - from,
{
    let fresh = RowIteratorView { remaining: Seq::empty(), closed: false };
    if from < pages.len() {
        lemma_pages_yield_rows_in_order(pages, from + 1);
        assert(fresh.after_page(pages[from as int]).remaining =~= pages[from as int]);
        assert(fresh.after_page(pages[from as int]).drained() == fresh);
    }
}

/// Where a paging worker stands.
#[derive(Debug, Clone, Copy, PartialEq, Eq, Structural)]
pub enum Phase {
    /// Not started.
    Created,
    /// A connection to the node at its position is asked for.
    Connecting,
    /// The request for a page is with the node at its position.
    Fetching,
    /// A page is with the channel, waiting for the consumer to take it.
    Delivering,
    /// Done: the last page was delivered, or the error was.
    Finished,
}

/// What the program around a paging worker is to do next.
pub enum WorkerAction {
    /// Take a connection to the node of this index.
    Connect(usize),
    /// Ask the node of this index, on the connection taken, for the page
    /// that starts at the worker's paging state.
    FetchPage(usize),
    /// Hand the page to the channel, and come back when it was taken.
    DeliverPage(Rows),
    /// Hand the worker's last error to the channel, and close it.
    DeliverError,
    /// Close the channel: the result is complete.
    Close,
    /// Nothing: the event does not fit the state of the worker.
    Idle,
}

/// The kind of a [`WorkerAction`].
#[derive(Debug, Clone, Copy, PartialEq, Eq, Structural)]
pub enum WorkerActionKind {
    Connect(usize),
    FetchPage(usize),
    DeliverPage,
    DeliverError,
    Close,
    Idle,
}

impl WorkerAction {
    /// The kind of the action.
    pub open spec fn kind(self) -> WorkerActionKind {
        match self {
            WorkerAction::Connect(node) => WorkerActionKind::Connect(node),
            WorkerAction::FetchPage(node) => WorkerActionKind::FetchPage(node),
            WorkerAction::DeliverPage(_) => WorkerActionKind::DeliverPage,
            WorkerAction::DeliverError => WorkerActionKind::DeliverError,
            WorkerAction::Close => WorkerActionKind::Close,
            WorkerAction::Idle => WorkerActionKind::Idle,
        }
    }
}

/// What happened since the worker's last action.
pub enum WorkerEvent {
    /// The worker is set going.
    Start,
    /// The connection that was asked for is there.
    ConnectionReady,
    /// No connection to the node could be had.
    ConnectionFailed(QueryError),
    /// A page arrived, with this paging state for the page that follows
    /// it, if one follows.
    PageReceived(Option<Seq<u8>>),
    /// The request for a page failed, and the retry policy decided what
    /// to do about it.
    PageFailed(QueryError, RetryDecision),
    /// The consumer took the page that was with the channel.
    PageDelivered,
}

/// The worker that fetches the pages of one result: it walks the plan of
/// nodes, asks for page after page, hands each page to the channel and
/// asks for the next one only when the page was taken.
pub struct PagingWorker {
    plan: Vec<usize>,
    position: usize,
    phase: Phase,
    paging_state: Option<Bytes>,
    retry_policy: BoxedRetryPolicy,
    retry_policy_untouched: Option<Arc<dyn RetryPolicyTemplate>>,
    last_error: QueryError,
    is_idempotent: bool,
    consistency: Consistency,
    token: Option<Token>,
}

/// What a [`PagingWorker`] says.
pub struct PagingWorkerView {
    /// The nodes to ask, first to last.
    pub plan: Seq<usize>,
    /// How many nodes of the plan are done with.
    pub position: nat,
    /// Where the worker stands.
    pub phase: Phase,
    /// Where the next page starts: nowhere before the first page, and
    /// after the last.
    pub paging_state: Option<Seq<u8>>,
    /// The last error that the worker met.
    pub last_error: QueryError,
    /// Whether the statement is known to be idempotent.
    pub is_idempotent: bool,
    /// The consistency level of the requests.
    pub consistency: Consistency,
    /// The token of the row that a prepared statement touches.
    pub token: Option<Token>,
}

impl View for PagingWorker {
    type V = PagingWorkerView;

    closed spec fn view(&self) -> PagingWorkerView {
        PagingWorkerView {
            plan: self.plan@,
            position: self.position as nat,
            phase: self.phase,
            paging_state: optional_bytes_contents(self.paging_state),
            last_error: self.last_error,
            is_idempotent: self.is_idempotent,
            consistency: self.consistency,
            token: self.token,
        }
    }
}

impl PagingWorkerView {
    /// What the retry policy is told when a request for a page fails with
    /// `error`.
    pub open spec fn failure(self, error: QueryError) -> Failure {
        Failure { error, is_idempotent: self.is_idempotent, consistency: self.consistency }
    }

    /// The worker turns to the node at its position, or, at the end of the
    /// plan, reports its last error.
    pub open spec fn turn_to_node(self) -> (PagingWorkerView, WorkerActionKind) {
        if self.position < self.plan.len() {
            (
                PagingWorkerView { phase: Phase::Connecting, ..self },
                WorkerActionKind::Connect(self.plan[self.position as int]),
            )
        } else {
            (PagingWorkerView { phase: Phase::Finished, ..self }, WorkerActionKind::DeliverError)
        }
    }

    /// The position of the node after the one at the position: one
    /// further, but not beyond the end of the plan.
    pub open spec fn next_position(self) -> nat {
        if self.position < self.plan.len() {
            self.position + 1
        } else {
            self.position
        }
    }

    /// The worker gives up and reports its last error.
    pub open spec fn give_up(self) -> (PagingWorkerView, WorkerActionKind) {
        (PagingWorkerView { phase: Phase::Finished, ..self }, WorkerActionKind::DeliverError)
    }

    /// The worker asks the node at its position for the page at its paging
    /// state.
    pub open spec fn fetch(self) -> (PagingWorkerView, WorkerActionKind) {
        if self.position < self.plan.len() {
            (
                PagingWorkerView { phase: Phase::Fetching, ..self },
                WorkerActionKind::FetchPage(self.plan[self.position as int]),
            )
        } else {
            self.give_up()
        }
    }

    /// The worker as it was, and nothing to do.
    pub open spec fn ignore(self) -> (PagingWorkerView, WorkerActionKind) {
        (self, WorkerActionKind::Idle)
    }

    /// What the worker makes of an event: the state it goes to, and the
    /// kind of action it asks for. An event that does not fit the phase of
    /// the worker changes nothing.
    pub open spec fn step(self, event: WorkerEvent) -> (PagingWorkerView, WorkerActionKind) {
        match (self.phase, event) {
            (Phase::Created, WorkerEvent::Start) => self.turn_to_node(),
            (Phase::Connecting, WorkerEvent::ConnectionReady) => self.fetch(),
            (Phase::Connecting, WorkerEvent::ConnectionFailed(error)) => PagingWorkerView {
                last_error: error,
                position: self.next_position(),
                ..self
            }.turn_to_node(),
            (Phase::Fetching, WorkerEvent::PageReceived(paging_state)) => (
                PagingWorkerView { phase: Phase::Delivering, paging_state, ..self },
                WorkerActionKind::DeliverPage,
            ),
            (Phase::Fetching, WorkerEvent::PageFailed(error, decision)) => {
                let failed = PagingWorkerView { last_error: error, ..self };
                match decision {
                    RetryDecision::RetrySameNode => failed.fetch(),
                    RetryDecision::RetryNextNode => PagingWorkerView {
                        position: self.next_position(),
                        ..failed
                    }.turn_to_node(),
                    RetryDecision::DontRetry => failed.give_up(),
                }
            },
            (Phase::Delivering, WorkerEvent::PageDelivered) => if self.paging_state is Some {
                self.fetch()
            } else {
                (PagingWorkerView { phase: Phase::Finished, ..self }, WorkerActionKind::Close)
            },
            _ => self.ignore(),
        }
    }
}

/// While a page waits for its consumer, the worker asks for no other:
/// whatever happens but the delivery of the page leaves the worker as it
/// is, and the arrival of a page never leads to a request for the next.
pub proof fn lemma_no_fetch_before_delivery(worker: PagingWorkerView, event: WorkerEvent)
    ensures
        worker.phase is Delivering && !(event is PageDelivered) ==> worker.step(event)
            == worker.ignore(),
        event is PageReceived ==> !(worker.step(event).1 is FetchPage),
        worker.step(event).1 is FetchPage ==> worker.step(event).0.phase is Fetching && !(
        worker.phase is Delivering && !(event is PageDelivered)),
        worker.step(event).1 is DeliverPage ==> worker.phase is Fetching && worker.step(
            event,
        ).0.phase is Delivering,
{
}

/// A failed page is asked for again where it began: no failure, and no
/// decision of the retry policy, changes the paging state.
pub proof fn lemma_failure_keeps_paging_state(
    worker: PagingWorkerView,
    error: QueryError,
    decision: RetryDecision,
)
    ensures
        worker.step(WorkerEvent::PageFailed(error, decision)).0.paging_state
            == worker.paging_state,
        worker.step(WorkerEvent::ConnectionFailed(error)).0.paging_state == worker.paging_state,
        worker.step(WorkerEvent::ConnectionReady).0.paging_state == worker.paging_state,
{
}

/// The counters after a request for a page failed: a failure that meets
/// the worker in phase `phase`, waiting for the page, is counted, and so is
/// the request that follows where the worker answers with an action of kind
/// `kind` that asks for the page again.
pub open spec fn counted_page_failure(
    phase: Phase,
    kind: WorkerActionKind,
    metrics: Metrics,
) -> Metrics {
    if phase is Fetching {
        Metrics {
            failed_paged_queries: counted(metrics.failed_paged_queries),
            total_paged_queries: if kind is FetchPage {
                counted(metrics.total_paged_queries)
            } else {
                metrics.total_paged_queries
            },
            ..metrics
        }
    } else {
        metrics
    }
}

/// The error of a response to a request for a page that is no page of
/// rows.
pub open spec fn is_unexpected_response_error(e: QueryError) -> bool {
    e matches QueryError::ProtocolError(message) && message@
        == "Unexpected response to next page query"@
}

impl PagingWorker {
    /// The retry policy of the page that is being fetched, as it stands.
    pub closed spec fn policy(&self) -> BoxedRetryPolicy {
        self.retry_policy
    }

    /// The retry policy of which each page gets a fresh copy, if one was
    /// given.
    pub closed spec fn template(&self) -> Option<Arc<dyn RetryPolicyTemplate>> {
        self.retry_policy_untouched
    }

    /// What the worker does when its request for a page fails with
    /// `error`: it becomes `after` and asks for an action of kind `kind`.
    /// A worker that waits for a page makes the move that its retry policy
    /// decides on when told of the failure, and the policy is then what it
    /// has become by that decision; any other worker stays as it is.
    pub open spec fn answers_failure(
        &self,
        error: QueryError,
        after: &PagingWorker,
        kind: WorkerActionKind,
    ) -> bool {
        &&& (after@, kind) == self@.step(
            WorkerEvent::PageFailed(
                error,
                self.policy().decision(error, self@.is_idempotent, self@.consistency),
            ),
        )
        &&& after.template() == self.template()
        &&& if self@.phase is Fetching {
            after.policy().follows(self.policy(), self@.failure(error))
        } else {
            after.policy() == self.policy()
        }
    }

    /// The worker has the same retry policy, in the same state, as
    /// `other`, and makes its copies of the same policy.
    pub open spec fn same_policy(&self, other: &PagingWorker) -> bool {
        self.policy() == other.policy() && self.template() == other.template()
    }

    /// A worker for a statement, over the plan of nodes for it. Each page
    /// starts with a fresh copy of the retry policy `retry_policy`, or of
    /// the default policy where none is given.
    pub fn new(
        plan: Vec<usize>,
        token: Option<Token>,
        is_idempotent: bool,
        consistency: Consistency,
        retry_policy: Option<Arc<dyn RetryPolicyTemplate>>,
    ) -> (r: Self)
        ensures
            r@.plan == plan@,
            r@.position == 0,
            r@.phase is Created,
            r@.paging_state is None,
            is_empty_plan_error(r@.last_error),
            r@.is_idempotent == is_idempotent,
            r@.consistency == consistency,
            r@.token == token,
            r.template() == retry_policy,
            r.policy().is_fresh_copy(retry_policy),
    {
        let fresh = fresh_policy(&retry_policy);
        PagingWorker {
            plan,
            position: 0,
            phase: Phase::Created,
            paging_state: None,
            retry_policy: fresh,
            retry_policy_untouched: retry_policy,
            last_error: QueryError::ProtocolError("Empty query plan"),
            is_idempotent,
            consistency,
            token,
        }
    }

    /// Where the next page starts.
    pub fn get_paging_state(&self) -> (r: &Option<Bytes>)
        ensures
            optional_bytes_contents(*r) == self@.paging_state,
    {
        &self.paging_state
    }

    /// The token of the row that a prepared statement touches: a
    /// connection for it is to be preferred.
    pub fn get_token(&self) -> (r: Option<Token>)
        ensures
            r == self@.token,
    {
        self.token
    }

    /// The last error that the worker met.
    pub fn get_last_error(&self) -> (r: &QueryError)
        ensures
            *r == self@.last_error,
    {
        &self.last_error
    }

    /// The error to report when the worker has given up.
    pub fn into_error(self) -> (r: QueryError)
        ensures
            r == self@.last_error,
    {
        self.last_error
    }

    fn fetch(&mut self) -> (r: WorkerAction)
        ensures
            (final(self)@, r.kind()) == old(self)@.fetch(),
            final(self).same_policy(old(self)),
    {
        if self.position < self.plan.len() {
            self.phase = Phase::Fetching;
            WorkerAction::FetchPage(self.plan[self.position])
        } else {
            self.phase = Phase::Finished;
            WorkerAction::DeliverError
        }
    }

    fn turn_to_node(&mut self) -> (r: WorkerAction)
        ensures
            (final(self)@, r.kind()) == old(self)@.turn_to_node(),
            final(self).same_policy(old(self)),
    {
        if self.position < self.plan.len() {
            self.phase = Phase::Connecting;
            WorkerAction::Connect(self.plan[self.position])
        } else {
            self.phase = Phase::Finished;
            WorkerAction::DeliverError
        }
    }

    fn to_next_node(&mut self) -> (r: WorkerAction)
        ensures
            (final(self)@, r.kind()) == (PagingWorkerView {
                position: old(self)@.next_position(),
                ..old(self)@
            }).turn_to_node(),
            final(self).same_policy(old(self)),
    {
        if self.position < self.plan.len() {
            self.position += 1;
        }
        self.turn_to_node()
    }

    /// Sets the worker going.
    pub fn start(&mut self) -> (r: WorkerAction)
        ensures
            (final(self)@, r.kind()) == old(self)@.step(WorkerEvent::Start),
            final(self).same_policy(old(self)),
    {
        match self.phase {
            Phase::Created => self.turn_to_node(),
            _ => WorkerAction::Idle,
        }
    }

    /// Takes note that the connection is there, counts the request and
    /// asks for the page.
    pub fn connection_ready(&mut self, metrics: &mut Metrics) -> (r: WorkerAction)
        ensures
            (final(self)@, r.kind()) == old(self)@.step(WorkerEvent::ConnectionReady),
            final(self).same_policy(old(self)),
            *final(metrics) == (if r.kind() is FetchPage {
                Metrics {
                    total_paged_queries: counted(old(metrics).total_paged_queries),
                    ..*old(metrics)
                }
            } else {
                *old(metrics)
            }),
    {
        match self.phase {
            Phase::Connecting => {
                let action = self.fetch();
                if let WorkerAction::FetchPage(_) = &action {
                    metrics.inc_total_paged_queries();
                }
                action
            },
            _ => WorkerAction::Idle,
        }
    }

    /// Takes note that no connection to the node could be had, and turns
    /// to the next node. The retry policy is not asked.
    pub fn connection_failed(&mut self, error: QueryError) -> (r: WorkerAction)
        ensures
            (final(self)@, r.kind()) == old(self)@.step(WorkerEvent::ConnectionFailed(error)),
            final(self).same_policy(old(self)),
    {
        match self.phase {
            Phase::Connecting => {
                self.last_error = error;
                self.to_next_node()
            },
            _ => WorkerAction::Idle,
        }
    }

    /// Takes in a page: its paging state says where the next page starts,
    /// the retry policy starts afresh, and the page goes to the channel.
    pub fn page_received(&mut self, rows: Rows) -> (r: WorkerAction)
        ensures
            (final(self)@, r.kind()) == old(self)@.step(
                WorkerEvent::PageReceived(rows@.metadata.paging_state),
            ),
            final(self).template() == old(self).template(),
            if old(self)@.phase is Fetching {
                final(self).policy().is_fresh_copy(old(self).template())
            } else {
                final(self).policy() == old(self).policy()
            },
            r matches WorkerAction::DeliverPage(page) ==> page@ == (RowsView {
                metadata: ResultMetadataView { paging_state: None, ..rows@.metadata },
                ..rows@
            }),
    {
        match self.phase {
            Phase::Fetching => {
                let mut rows = rows;
                let paging_state = rows.metadata.paging_state.take();
                let fresh = fresh_policy(&self.retry_policy_untouched);
                self.paging_state = paging_state;
                self.retry_policy = fresh;
                self.phase = Phase::Delivering;
                WorkerAction::DeliverPage(rows)
            },
            _ => WorkerAction::Idle,
        }
    }

    /// Makes the move that the retry policy decided on after the request
    /// for a page failed with `error`, and counts the failure.
    pub fn page_failed_with(
        &mut self,
        error: QueryError,
        decision: RetryDecision,
        metrics: &mut Metrics,
    ) -> (r: WorkerAction)
        ensures
            (final(self)@, r.kind()) == old(self)@.step(WorkerEvent::PageFailed(error, decision)),
            final(self).same_policy(old(self)),
            *final(metrics) == counted_page_failure(old(self)@.phase, r.kind(), *old(metrics)),
    {
        match self.phase {
            Phase::Fetching => {
                metrics.inc_failed_paged_queries();
                self.last_error = error;
                match decision {
                    RetryDecision::RetrySameNode => {
                        let action = self.fetch();
                        if let WorkerAction::FetchPage(_) = &action {
                            metrics.inc_total_paged_queries();
                        }
                        action
                    },
                    RetryDecision::RetryNextNode => self.to_next_node(),
                    RetryDecision::DontRetry => {
                        self.phase = Phase::Finished;
                        WorkerAction::DeliverError
                    },
                }
            },
            _ => WorkerAction::Idle,
        }
    }

    /// Takes note that the request for a page failed with `error`, asks
    /// the retry policy and makes the move that it decides on. The policy
    /// is told the error, and the idempotency and the consistency level of
    /// the statement; afterwards it is what it has become by that decision.
    /// A worker that waits for no page asks nobody.
    pub fn page_failed(&mut self, error: QueryError, metrics: &mut Metrics) -> (r: WorkerAction)
        ensures
            old(self).answers_failure(error, final(self), r.kind()),
            *final(metrics) == counted_page_failure(old(self)@.phase, r.kind(), *old(metrics)),
    {
        let decision = match self.phase {
            Phase::Fetching => {
                let query_info = QueryInfo {
                    error: &error,
                    is_idempotent: self.is_idempotent,
                    consistency: self.consistency,
                };
                ask_policy(&mut self.retry_policy, query_info)
            },
            _ => RetryDecision::DontRetry,
        };
        self.page_failed_with(error, decision, metrics)
    }

    /// Takes note that the server answered a request for a page with
    /// something else than rows: a failure like any other.
    pub fn unexpected_response(&mut self, metrics: &mut Metrics) -> (r: WorkerAction)
        ensures
            exists|error: QueryError|
                is_unexpected_response_error(error) && #[trigger] old(self).answers_failure(
                    error,
                    final(self),
                    r.kind(),
                ),
            *final(metrics) == counted_page_failure(old(self)@.phase, r.kind(), *old(metrics)),
    {
        self.page_failed(QueryError::ProtocolError(
            "Unexpected response to next page query"), metrics)
    }

    /// Takes note that the consumer took the page. If the page was not
    /// the last, the next one is asked for, and the request counted; else
    /// the channel is closed.
    pub fn page_delivered(&mut self, metrics: &mut Metrics) -> (r: WorkerAction)
        ensures
            (final(self)@, r.kind()) == old(self)@.step(WorkerEvent::PageDelivered),
            final(self).same_policy(old(self)),
            *final(metrics) == (if r.kind() is FetchPage {
                Metrics {
                    total_paged_queries: counted(old(metrics).total_paged_queries),
                    ..*old(metrics)
                }
            } else {
                *old(metrics)
            }),
    {
        match self.phase {
            Phase::Delivering => {
                if self.paging_state.is_some() {
                    let action = self.fetch();
                    if let WorkerAction::FetchPage(_) = &action {
                        metrics.inc_total_paged_queries();
                    }
                    action
                } else {
                    self.phase = Phase::Finished;
                    WorkerAction::Close
                }
            },
            _ => WorkerAction::Idle,
        }
    }
}

/// A fresh copy of a retry policy, or of the default policy where none is
/// given.
pub fn fresh_policy(template: &Option<Arc<dyn RetryPolicyTemplate>>) -> (r: BoxedRetryPolicy)
    ensures
        r.is_fresh_copy(*template),
        *template is None ==> r.policy is Some,
{
    match template {
        Some(t) => t.clone_boxed(),
        None => BoxedRetryPolicy { policy: Some(Box::new(DefaultRetryPolicy::new())) },
    }
}

/// Asks a query's retry policy what to do after a failure.
fn ask_policy(policy: &mut BoxedRetryPolicy, query_info: QueryInfo) -> (r: RetryDecision)
    ensures
        r == old(policy).decision(
            *query_info.error,
            query_info.is_idempotent,
            query_info.consistency,
        ),
        final(policy).follows(*old(policy), query_info@),
        old(policy).policy is None <==> final(policy).policy is None,
{
    policy.decide_should_retry(query_info)
}

/// Why the next row of a typed iterator is not there.
#[derive(Debug, Clone)]
pub enum NextRowError {
    /// The page of the row could not be fetched.
    QueryError(QueryError),
    /// The row is not a value of the type asked for.
    FromRowError(FromRowError),
}

impl From<QueryError> for NextRowError {
    fn from(e: QueryError) -> (r: NextRowError) {
        NextRowError::QueryError(e)
    }
}

impl FromSpecImpl<QueryError> for NextRowError {
    open spec fn obeys_from_spec() -> bool {
        true
    }

    open spec fn from_spec(e: QueryError) -> NextRowError {
        NextRowError::QueryError(e)
    }
}

impl From<FromRowError> for NextRowError {
    fn from(e: FromRowError) -> (r: NextRowError) {
        NextRowError::FromRowError(e)
    }
}

impl FromSpecImpl<FromRowError> for NextRowError {
    open spec fn obeys_from_spec() -> bool {
        true
    }

    open spec fn from_spec(e: FromRowError) -> NextRowError {
        NextRowError::FromRowError(e)
    }
}

/// The rows of a paged result as values of `RowT`.
pub struct TypedRowIterator<RowT> {
    row_iterator: RowIterator,
    phantom_data: core::marker::PhantomData<RowT>,
}

/// What a typed iterator has for its consumer.
pub enum NextTypedRow<RowT> {
    /// The next row, or why it is not a value of `RowT`.
    Row(Result<RowT, NextRowError>),
    /// Nothing yet: the next page has to arrive first.
    Pending,
    /// Nothing more.
    Done,
}

impl RowIterator {
    /// The same rows, handed out as values of `RowT`.
    pub fn into_typed<RowT: FromRow>(self) -> (r: TypedRowIterator<RowT>)
        ensures
            r.rows() == self,
    {
        TypedRowIterator { row_iterator: self, phantom_data: core::marker::PhantomData }
    }
}

impl<RowT: FromRow> TypedRowIterator<RowT> {
    /// The iterator over the rows as they came.
    pub closed spec fn rows(&self) -> RowIterator {
        self.row_iterator
    }

    /// Takes in a page that has arrived.
    pub fn page_received(&mut self, rows: Rows)
        ensures
            final(self).rows()@.remaining == old(self).rows()@.remaining + rows.rows@,
            final(self).rows()@.closed == old(self).rows()@.closed,
    {
        self.row_iterator.page_received(rows);
    }

    /// Takes note that no further page will arrive.
    pub fn channel_closed(&mut self)
        ensures
            final(self).rows()@.remaining == old(self).rows()@.remaining,
            final(self).rows()@.closed,
    {
        self.row_iterator.channel_closed();
    }

    /// Hands out the next row as a value of `RowT`.
    pub fn next_row(&mut self) -> (r: NextTypedRow<RowT>)
        ensures
            match r {
                NextTypedRow::Row(converted) => old(self).rows()@.remaining.len() > 0
                    && final(self).rows()@.remaining == old(self).rows()@.remaining.skip(1)
                    && (match converted {
                    Ok(v) => RowT::row_fault(old(self).rows()@.remaining[0]) is None
                        && RowT::row_converts(old(self).rows()@.remaining[0], v),
                    Err(NextRowError::FromRowError(e)) => RowT::row_fault(
                        old(self).rows()@.remaining[0],
                    ) == Some(e),
                    Err(NextRowError::QueryError(_)) => false,
                }),
                NextTypedRow::Pending => old(self).rows()@.remaining.len() == 0
                    && !old(self).rows()@.closed
                    && final(self).rows()@.remaining == old(self).rows()@.remaining,
                NextTypedRow::Done => old(self).rows()@.remaining.len() == 0
                    && old(self).rows()@.closed
                    && final(self).rows()@.remaining == old(self).rows()@.remaining,
            },
            final(self).rows()@.closed == old(self).rows()@.closed,
    {
        match self.row_iterator.next_row() {
            NextRow::Row(row) => match RowT::from_row(row) {
                Ok(v) => NextTypedRow::Row(Ok(v)),
                Err(e) => NextTypedRow::Row(Err(NextRowError::FromRowError(e))),
            },
            NextRow::Pending => NextTypedRow::Pending,
            NextRow::Done => NextTypedRow::Done,
        }
    }
}

} // verus!
