//! Whether a failed query is tried again, and where.

use crate::statement::Consistency;
use crate::transport::errors::{DBError, QueryError, WriteType};
use std::sync::Arc;
use vstd::prelude::*;

verus! {

/// What a retry policy is told about a failed query.
pub struct QueryInfo<'a> {
    /// The error with which the query failed.
    pub error: &'a QueryError,
    /// Whether applying the query more than once leaves the same state as
    /// applying it once. `false` means that this is not known.
    pub is_idempotent: bool,
    /// The consistency level with which the query failed.
    pub consistency: Consistency,
}

/// A failure of a query, as a retry policy is told of it.
pub struct Failure {
    /// The error with which the query failed.
    pub error: QueryError,
    /// Whether the query is known to be idempotent.
    pub is_idempotent: bool,
    /// The consistency level with which the query failed.
    pub consistency: Consistency,
}

impl<'a> View for QueryInfo<'a> {
    type V = Failure;

    open spec fn view(&self) -> Failure {
        Failure {
            error: *self.error,
            is_idempotent: self.is_idempotent,
            consistency: self.consistency,
        }
    }
}

/// What to do with a failed query.
#[derive(Debug, Clone, Copy, PartialEq, Eq, Structural)]
pub enum RetryDecision {
    RetrySameNode,
    RetryNextNode,
    DontRetry,
}

/// Decides, failure by failure, whether one query is retried. A policy may
/// keep state, so each query has an instance of its own.
pub trait RetryPolicy: Send + Sync {
    /// What the policy, as it stands, decides on `failure` once it has
    /// decided on the failures `earlier`, one after the other.
    spec fn decision_after(&self, earlier: Seq<Failure>, failure: Failure) -> RetryDecision;

    /// Decides what to do after the failure that `query_info` describes.
    /// What the policy decides from now on is what it would have decided
    /// before with this failure ahead of the others.
    fn decide_should_retry(&mut self, query_info: QueryInfo) -> (r: RetryDecision)
        ensures
            r == old(self).decision_after(Seq::empty(), query_info@),
            forall|later: Seq<Failure>, failure: Failure| #[trigger]
                final(self).decision_after(later, failure) == old(self).decision_after(
                    seq![query_info@] + later,
                    failure,
                ),
    ;
}

/// The retry policy that one query owns. A query without a policy is never
/// retried.
pub struct BoxedRetryPolicy {
    pub policy: Option<Box<dyn RetryPolicy>>,
}

/// A retry policy as a session or a statement holds it: the template of
/// which each query gets a copy for itself.
pub trait RetryPolicyTemplate: Send + Sync {
    /// What a copy of the policy decides on `failure` once it has decided
    /// on the failures `earlier`, one after the other.
    spec fn copy_decision_after(&self, earlier: Seq<Failure>, failure: Failure) -> RetryDecision;

    /// A copy of the policy, for one query.
    fn clone_boxed(&self) -> (r: BoxedRetryPolicy)
        ensures
            forall|earlier: Seq<Failure>, failure: Failure| #[trigger]
                r.decision_after(earlier, failure) == self.copy_decision_after(earlier, failure),
    ;
}

/// The policy that never retries.
#[derive(Debug, Clone, Copy)]
pub struct FallthroughRetryPolicy;

impl RetryPolicy for FallthroughRetryPolicy {
    open spec fn decision_after(&self, earlier: Seq<Failure>, failure: Failure) -> RetryDecision {
        RetryDecision::DontRetry
    }

    fn decide_should_retry(&mut self, query_info: QueryInfo) -> (r: RetryDecision)
        ensures
            r == RetryDecision::DontRetry,
    {
        RetryDecision::DontRetry
    }

}

impl RetryPolicyTemplate for FallthroughRetryPolicy {
    open spec fn copy_decision_after(
        &self,
        earlier: Seq<Failure>,
        failure: Failure,
    ) -> RetryDecision {
        RetryDecision::DontRetry
    }

    fn clone_boxed(&self) -> (r: BoxedRetryPolicy)
        ensures
            r.policy is Some,
    {
        BoxedRetryPolicy { policy: Some(Box::new(FallthroughRetryPolicy)) }
    }
}

/// The policy that retries where a retry is likely to help.
#[derive(Debug)]
pub struct DefaultRetryPolicy {
    was_unavailable_retry: bool,
    was_read_timeout_retry: bool,
}

/// What a [`DefaultRetryPolicy`] remembers of the query it serves.
pub struct DefaultRetryState {
    /// An `Unavailable` error was answered with a retry.
    pub was_unavailable_retry: bool,
    /// A `ReadTimeout` error was answered with a retry.
    pub was_read_timeout_retry: bool,
}

impl View for DefaultRetryPolicy {
    type V = DefaultRetryState;

    closed spec fn view(&self) -> DefaultRetryState {
        DefaultRetryState {
            was_unavailable_retry: self.was_unavailable_retry,
            was_read_timeout_retry: self.was_read_timeout_retry,
        }
    }
}

/// The state of a default policy that has seen no error yet.
pub open spec fn fresh_default_state() -> DefaultRetryState {
    DefaultRetryState { was_unavailable_retry: false, was_read_timeout_retry: false }
}

/// The error is one that speaks of trouble on the node that was asked: an
/// I/O error, or the database's `Overloaded`, `ServerError` or
/// `TruncateError`.
pub open spec fn is_node_trouble(error: QueryError) -> bool {
    match error {
        QueryError::IOError(_) => true,
        QueryError::DBError(DBError::Overloaded, _) => true,
        QueryError::DBError(DBError::ServerError, _) => true,
        QueryError::DBError(DBError::TruncateError, _) => true,
        _ => false,
    }
}

/// What the default policy decides in state `state` after `error`.
pub open spec fn default_decision(
    state: DefaultRetryState,
    error: QueryError,
    is_idempotent: bool,
) -> RetryDecision {
    if is_node_trouble(error) {
        if is_idempotent {
            RetryDecision::RetryNextNode
        } else {
            RetryDecision::DontRetry
        }
    } else {
        match error {
            QueryError::DBError(DBError::Unavailable { .. }, _) => if !state.was_unavailable_retry {
                RetryDecision::RetryNextNode
            } else {
                RetryDecision::DontRetry
            },
            QueryError::DBError(
                DBError::ReadTimeout { received, required, data_present, .. }, _) => if
                !state.was_read_timeout_retry && received >= required && data_present {
                RetryDecision::RetrySameNode
            } else {
                RetryDecision::DontRetry
            },
            QueryError::DBError(DBError::WriteTimeout { write_type, .. }, _) => if is_idempotent
                && write_type is BatchLog {
                RetryDecision::RetrySameNode
            } else {
                RetryDecision::DontRetry
            },
            QueryError::DBError(DBError::IsBootstrapping, _) => RetryDecision::RetryNextNode,
            _ => RetryDecision::DontRetry,
        }
    }
}

/// What the default policy remembers after it decided on `error` in state
/// `state`: a retry after `Unavailable`, and one after `ReadTimeout`, is
/// marked as spent.
pub open spec fn default_next_state(
    state: DefaultRetryState,
    error: QueryError,
    is_idempotent: bool,
) -> DefaultRetryState {
    match error {
        QueryError::DBError(DBError::Unavailable { .. }, _) => DefaultRetryState {
            was_unavailable_retry: true,
            ..state
        },
        QueryError::DBError(DBError::ReadTimeout { .. }, _) => if default_decision(
            state,
            error,
            is_idempotent,
        ) == RetryDecision::RetrySameNode {
            DefaultRetryState { was_read_timeout_retry: true, ..state }
        } else {
            state
        },
        _ => state,
    }
}

impl DefaultRetryPolicy {
    /// A policy that has seen no error yet.
    pub fn new() -> (r: DefaultRetryPolicy)
        ensures
            r@ == fresh_default_state(),
    {
        DefaultRetryPolicy { was_unavailable_retry: false, was_read_timeout_retry: false }
    }
}

/// What the default policy remembers once it has decided, from state
/// `state` on, on the failures `earlier`, one after the other.
pub open spec fn default_state_after(
    state: DefaultRetryState,
    earlier: Seq<Failure>,
) -> DefaultRetryState
    decreases earlier.len(),
{
    if earlier.len() == 0 {
        state
    } else {
        default_state_after(
            default_next_state(state, earlier[0].error, earlier[0].is_idempotent),
            earlier.skip(1),
        )
    }
}

/// What the default policy decides on `failure` once it has decided, from
/// state `state` on, on the failures `earlier`.
pub open spec fn default_decision_after(
    state: DefaultRetryState,
    earlier: Seq<Failure>,
    failure: Failure,
) -> RetryDecision {
    default_decision(default_state_after(state, earlier), failure.error, failure.is_idempotent)
}

/// To decide on a failure and then on others is to decide on all of them
/// in that order.
pub proof fn lemma_default_state_after(
    state: DefaultRetryState,
    first: Failure,
    later: Seq<Failure>,
)
    ensures
        default_state_after(
            default_next_state(state, first.error, first.is_idempotent),
            later,
        ) == default_state_after(state, seq![first] + later),
{
    assert((seq![first] + later).skip(1) =~= later);
}

impl RetryPolicy for DefaultRetryPolicy {
    open spec fn decision_after(&self, earlier: Seq<Failure>, failure: Failure) -> RetryDecision {
        default_decision_after(self@, earlier, failure)
    }

    fn decide_should_retry(&mut self, query_info: QueryInfo) -> (r: RetryDecision)
        ensures
            r == default_decision(old(self)@, *query_info.error, query_info.is_idempotent),
            final(self)@ == default_next_state(
                old(self)@,
                *query_info.error,
                query_info.is_idempotent,
            ),
    {
        proof {
            assert forall|later: Seq<Failure>| #[trigger]
                default_state_after(
                    default_next_state(
                        self@,
                        *query_info.error,
                        query_info.is_idempotent,
                    ),
                    later,
                ) == default_state_after(self@, seq![query_info@] + later) by {
                lemma_default_state_after(self@, query_info@, later);
            }
        }
        match query_info.error {
            // Trouble on this node: another one may do better.
            QueryError::IOError(_)
            | QueryError::DBError(DBError::Overloaded, _)
            | QueryError::DBError(DBError::ServerError, _)
            | QueryError::DBError(DBError::TruncateError, _) => {
                if query_info.is_idempotent {
                    RetryDecision::RetryNextNode
                } else {
                    RetryDecision::DontRetry
                }
            },
            // The node believes that too few replicas are alive. It may be
            // the node that is cut off: ask one other node, and no third.
            QueryError::DBError(DBError::Unavailable { .. }, _) => {
                if !self.was_unavailable_retry {
                    self.was_unavailable_retry = true;
                    RetryDecision::RetryNextNode
                } else {
                    RetryDecision::DontRetry
                }
            },
            // Enough replicas answered, but only with digests: the
            // coordinator picked replicas that were dying. It will know by
            // now, so ask it once more.
            QueryError::DBError(
                DBError::ReadTimeout { received, required, data_present, .. },
                _,
            ) => {
                if !self.was_read_timeout_retry && *received >= *required && *data_present {
                    self.was_read_timeout_retry = true;
                    RetryDecision::RetrySameNode
                } else {
                    RetryDecision::DontRetry
                }
            },
            // Only the write to the batch log is safe to repeat.
            QueryError::DBError(DBError::WriteTimeout { write_type, .. }, _) => {
                if query_info.is_idempotent && matches!(write_type, WriteType::BatchLog) {
                    RetryDecision::RetrySameNode
                } else {
                    RetryDecision::DontRetry
                }
            },
            // A node that is still bootstrapping cannot serve: try another.
            QueryError::DBError(DBError::IsBootstrapping, _) => RetryDecision::RetryNextNode,
            _ => RetryDecision::DontRetry,
        }
    }

}

impl RetryPolicyTemplate for DefaultRetryPolicy {
    open spec fn copy_decision_after(
        &self,
        earlier: Seq<Failure>,
        failure: Failure,
    ) -> RetryDecision {
        default_decision_after(self@, earlier, failure)
    }

    fn clone_boxed(&self) -> (r: BoxedRetryPolicy)
        ensures
            r.policy is Some,
    {
        BoxedRetryPolicy {
            policy: Some(
                Box::new(
                    DefaultRetryPolicy {
                        was_unavailable_retry: self.was_unavailable_retry,
                        was_read_timeout_retry: self.was_read_timeout_retry,
                    },
                ),
            ),
        }
    }
}

impl Default for DefaultRetryPolicy {
    fn default() -> (r: DefaultRetryPolicy)
        ensures
            r@ == fresh_default_state(),
    {
        DefaultRetryPolicy::new()
    }
}

/// The error is the database's `Unavailable`.
pub open spec fn is_unavailable(error: QueryError) -> bool {
    error matches QueryError::DBError(DBError::Unavailable { .. }, _)
}

/// A default policy that has seen no error answers the first `Unavailable`
/// with `RetryNextNode` and the second with `DontRetry`, whatever the query's
/// idempotency.
pub proof fn lemma_unavailable_retried_once(
    first: QueryError,
    first_idempotent: bool,
    second: QueryError,
    second_idempotent: bool,
)
    requires
        is_unavailable(first),
        is_unavailable(second),
    ensures
        default_decision(fresh_default_state(), first, first_idempotent)
            == RetryDecision::RetryNextNode,
        default_decision(
            default_next_state(fresh_default_state(), first, first_idempotent),
            second,
            second_idempotent,
        ) == RetryDecision::DontRetry,
{
}

/// What a default policy has spent stays spent: no error brings a retry
/// back.
pub proof fn lemma_retries_stay_spent(
    state: DefaultRetryState,
    error: QueryError,
    is_idempotent: bool,
)
    ensures
        state.was_unavailable_retry ==> default_next_state(
            state,
            error,
            is_idempotent,
        ).was_unavailable_retry,
        state.was_read_timeout_retry ==> default_next_state(
            state,
            error,
            is_idempotent,
        ).was_read_timeout_retry,
{
}

/// `Clone::clone` on a handle of a retry policy, which is `Arc::clone`
/// where there is a policy. Not proved: that the new handle is a handle on
/// the same policy.
#[verifier::external_body]
fn same_template(template: &Option<Arc<dyn RetryPolicyTemplate>>) -> (r: Option<
    Arc<dyn RetryPolicyTemplate>,
>)
    ensures
        r == *template,
{
    template.clone()
}

/// Another handle on the same template, if there is one.
pub fn share_template(template: &Option<Arc<dyn RetryPolicyTemplate>>) -> (r: Option<
    Arc<dyn RetryPolicyTemplate>,
>)
    ensures
        r == *template,
{
    same_template(template)
}

/// What the policy of a query decides that is a fresh copy of `template`,
/// or a fresh default policy where there is no template.
pub open spec fn fresh_decision_after(
    template: Option<Arc<dyn RetryPolicyTemplate>>,
    earlier: Seq<Failure>,
    failure: Failure,
) -> RetryDecision {
    match template {
        Some(t) => t.copy_decision_after(earlier, failure),
        None => default_decision_after(fresh_default_state(), earlier, failure),
    }
}

impl BoxedRetryPolicy {
    /// What the policy, as it stands, decides on `failure` once it has
    /// decided on the failures `earlier`: what the policy inside says, and
    /// `DontRetry` where there is none.
    pub open spec fn decision_after(
        self,
        earlier: Seq<Failure>,
        failure: Failure,
    ) -> RetryDecision {
        match self.policy {
            Some(policy) => policy.decision_after(earlier, failure),
            None => RetryDecision::DontRetry,
        }
    }

    /// What the policy, as it stands, decides on the failure of a query
    /// with the given error, idempotency and consistency level.
    pub open spec fn decision(
        self,
        error: QueryError,
        is_idempotent: bool,
        consistency: Consistency,
    ) -> RetryDecision {
        self.decision_after(Seq::empty(), Failure { error, is_idempotent, consistency })
    }

    /// The policy is what `before` has become by deciding on `failure`:
    /// it decides as `before` would have with that failure ahead of the
    /// others.
    pub open spec fn follows(self, before: BoxedRetryPolicy, failure: Failure) -> bool {
        forall|later: Seq<Failure>, next: Failure| #[trigger]
            self.decision_after(later, next) == before.decision_after(seq![failure] + later, next)
    }

    /// The policy is a fresh copy of `template`, or a fresh default policy
    /// where there is no template: it decides as one.
    pub open spec fn is_fresh_copy(self, template: Option<Arc<dyn RetryPolicyTemplate>>) -> bool {
        forall|earlier: Seq<Failure>, failure: Failure| #[trigger]
            self.decision_after(earlier, failure) == fresh_decision_after(
                template,
                earlier,
                failure,
            )
    }

    /// The policy of a query that is never retried.
    pub fn never() -> (r: BoxedRetryPolicy)
        ensures
            r.policy is None,
    {
        BoxedRetryPolicy { policy: None }
    }

    /// Asks the policy what to do after a failure. Without a policy the
    /// answer is `DontRetry`.
    pub fn decide_should_retry(&mut self, query_info: QueryInfo) -> (r: RetryDecision)
        ensures
            r == old(self).decision(
                *query_info.error,
                query_info.is_idempotent,
                query_info.consistency,
            ),
            final(self).follows(*old(self), query_info@),
            old(self).policy is None <==> final(self).policy is None,
    {
        match &mut self.policy {
            Some(p) => p.decide_should_retry(query_info),
            None => RetryDecision::DontRetry,
        }
    }
}

/// A query under a fresh default policy that meets `Unavailable` is sent
/// on to the next node, and given up when it meets `Unavailable` again:
/// this holds of every policy that is a fresh copy of no template, and of
/// what that policy has become by its first decision.
pub proof fn lemma_fresh_policy_retries_unavailable_once(
    policy: BoxedRetryPolicy,
    after: BoxedRetryPolicy,
    first: Failure,
    second: Failure,
)
    requires
        policy.is_fresh_copy(None),
        after.follows(policy, first),
        is_unavailable(first.error),
        is_unavailable(second.error),
    ensures
        policy.decision(first.error, first.is_idempotent, first.consistency)
            == RetryDecision::RetryNextNode,
        after.decision(second.error, second.is_idempotent, second.consistency)
            == RetryDecision::DontRetry,
{
    let none: Option<Arc<dyn RetryPolicyTemplate>> = None;
    assert(policy.decision_after(Seq::empty(), first) == fresh_decision_after(
        none,
        Seq::empty(),
        first,
    ));
    assert(after.decision_after(Seq::empty(), second) == policy.decision_after(
        seq![first] + Seq::empty(),
        second,
    ));
    assert(policy.decision_after(seq![first] + Seq::empty(), second) == fresh_decision_after(
        none,
        seq![first] + Seq::empty(),
        second,
    ));
    lemma_default_state_after(fresh_default_state(), first, Seq::empty());
}

/// A query that is known to be idempotent and runs under a fresh default
/// policy is sent on to the next node when it meets an I/O error.
pub proof fn lemma_fresh_policy_moves_on_after_io_error(policy: BoxedRetryPolicy, failure: Failure)
    requires
        policy.is_fresh_copy(None),
        failure.error is IOError,
        failure.is_idempotent,
    ensures
        policy.decision(failure.error, failure.is_idempotent, failure.consistency)
            == RetryDecision::RetryNextNode,
{
    let none: Option<Arc<dyn RetryPolicyTemplate>> = None;
    assert(policy.decision_after(Seq::empty(), failure) == fresh_decision_after(
        none,
        Seq::empty(),
        failure,
    ));
}

} // verus!
