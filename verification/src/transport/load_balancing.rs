//! In which order the nodes are asked.

use crate::routing::Token;
use crate::transport::cluster::{contains, replicas_of, ClusterData};
use vstd::prelude::*;

verus! {

/// What a load balancing policy is told about a statement.
#[derive(Debug, Clone, Copy)]
pub struct Statement<'a> {
    /// The token of the row that the statement touches, if it is known.
    pub token: Option<Token>,
    /// The keyspace that the statement works on, if it is known.
    pub keyspace: Option<&'a str>,
}

impl<'a> Default for Statement<'a> {
    fn default() -> (r: Self)
        ensures
            r.token is None,
            r.keyspace is None,
    {
        Statement { token: None, keyspace: None }
    }
}

/// What a [`Statement`] says.
pub struct StatementView {
    /// The token of the row that the statement touches, if it is known.
    pub token: Option<i64>,
    /// The keyspace that the statement works on, if it is known.
    pub keyspace: Option<Seq<char>>,
}

impl<'a> View for Statement<'a> {
    type V = StatementView;

    open spec fn view(&self) -> StatementView {
        StatementView {
            token: match self.token {
                Some(token) => Some(token.value),
                None => None,
            },
            keyspace: match self.keyspace {
                Some(name) => Some(name@),
                None => None,
            },
        }
    }
}

/// A plan names only nodes that exist, and no node twice.
pub open spec fn is_plan(plan: Seq<usize>, nodes: nat) -> bool {
    &&& plan.no_duplicates()
    &&& forall|i: int| 0 <= i < plan.len() ==> (#[trigger] plan[i]) < nodes
}

/// Says in which order the nodes of a cluster are asked to execute a
/// statement. A node is named by its index in the cluster.
pub trait LoadBalancingPolicy: Send + Sync {
    /// The policy, as it stands, may answer the statement with `plan`, and
    /// is `after` once it has done so.
    spec fn plans(
        &self,
        statement: StatementView,
        cluster: &ClusterData,
        after: &Self,
        plan: Seq<usize>,
    ) -> bool;

    /// The nodes to ask, first to last.
    fn plan(&mut self, statement: &Statement, cluster: &ClusterData) -> (r: Vec<usize>)
        ensures
            is_plan(r@, cluster.node_count()),
            old(self).plans(statement@, cluster, final(self), r@),
    ;
}

/// All nodes in turn, starting one node further with each plan.
#[derive(Debug)]
pub struct RoundRobinPolicy {
    index: usize,
}

/// All `nodes` nodes in turn, starting with node `start`.
pub open spec fn round_robin_plan(nodes: nat, start: nat) -> Seq<usize> {
    Seq::new(nodes, |i: int| ((start + i) % (nodes as int)) as usize)
}

/// A round of all nodes names each node once.
pub proof fn lemma_round_robin_plan(nodes: nat, start: nat)
    requires
        start < nodes <= usize::MAX,
    ensures
        is_plan(round_robin_plan(nodes, start), nodes),
        round_robin_plan(nodes, start).len() == nodes,
        forall|node: usize| node < nodes ==> round_robin_plan(nodes, start).contains(node),
{
    let plan = round_robin_plan(nodes, start);
    assert forall|i: int| 0 <= i < plan.len() implies (#[trigger] plan[i]) < nodes && plan[i] == (
    if start + i < nodes {
        start + i
    } else {
        start + i - nodes
    }) by {
        assert((start + i) % (nodes as int) == if start + i < nodes {
            start + i
        } else {
            start + i - nodes
        }) by (nonlinear_arith)
            requires
                0 <= i < nodes,
                start < nodes,
        ;
    }
    assert forall|node: usize| node < nodes implies plan.contains(node) by {
        let i = if node >= start {
            node - start
        } else {
            node + nodes - start
        };
        assert(plan[i] == node);
    }
}

impl RoundRobinPolicy {
    /// A policy whose first plan starts with the first node.
    pub fn new() -> (r: Self)
        ensures
            r.cursor() == 0,
    {
        RoundRobinPolicy { index: 0 }
    }

    /// How many plans the policy has made, which says where the next one
    /// starts.
    pub closed spec fn cursor(&self) -> usize {
        self.index
    }
}

/// The plan of a round robin policy that has made `cursor` plans, over
/// `nodes` nodes: all nodes in turn, the first of them the node whose index
/// is what `cursor` leaves when divided by `nodes`.
pub open spec fn round_robin_from(nodes: nat, cursor: usize) -> Seq<usize> {
    if nodes == 0 {
        Seq::empty()
    } else {
        round_robin_plan(nodes, (cursor as nat) % nodes)
    }
}

/// The cursor of a round robin policy after one more plan: it goes back to
/// the start where it cannot count further.
pub open spec fn cursor_after(cursor: usize) -> usize {
    if cursor == usize::MAX {
        0
    } else {
        (cursor + 1) as usize
    }
}

impl LoadBalancingPolicy for RoundRobinPolicy {
    /// The plan is all nodes in turn from where the cursor points, whatever
    /// the statement, and the cursor moves on by one.
    open spec fn plans(
        &self,
        statement: StatementView,
        cluster: &ClusterData,
        after: &Self,
        plan: Seq<usize>,
    ) -> bool {
        &&& plan == round_robin_from(cluster.node_count(), self.cursor())
        &&& after.cursor() == cursor_after(self.cursor())
    }

    fn plan(&mut self, statement: &Statement, cluster: &ClusterData) -> (r: Vec<usize>)
    {
        let nodes = cluster.get_nodes().len();
        let mut plan: Vec<usize> = Vec::new();
        if nodes == 0 {
            self.index = if self.index == usize::MAX {
                0
            } else {
                self.index + 1
            };
            return plan;
        }
        let start = self.index % nodes;
        self.index = if self.index == usize::MAX {
            0
        } else {
            self.index + 1
        };
        let mut i: usize = 0;
        while i < nodes
            invariant
                i <= nodes,
                start < nodes,
                plan@.len() == i,
                forall|j: int|
                    0 <= j < i ==> plan@[j] == round_robin_plan(nodes as nat, start as nat)[j],
            decreases nodes - i,
        {
            let node = if i < nodes - start {
                start + i
            } else {
                i - (nodes - start)
            };
            assert(node == (start + i) % (nodes as int)) by (nonlinear_arith)
                requires
                    start < nodes,
                    i < nodes,
                    node == if i < nodes - start {
                        start + i
                    } else {
                        i - (nodes - start)
                    },
            ;
            plan.push(node);
            i += 1;
        }
        proof {
            lemma_round_robin_plan(nodes as nat, start as nat);
            assert(plan@ =~= round_robin_plan(nodes as nat, start as nat));
        }
        plan
    }
}

/// The nodes of `plan` that are not among `taken`, in their order.
pub open spec fn without(plan: Seq<usize>, taken: Seq<usize>) -> Seq<usize>
    decreases plan.len(),
{
    if plan.len() == 0 {
        Seq::empty()
    } else if taken.contains(plan.last()) {
        without(plan.drop_last(), taken)
    } else {
        without(plan.drop_last(), taken).push(plan.last())
    }
}

/// The plan of a token aware policy: the replicas first, then what the
/// child policy plans, less the replicas.
pub open spec fn replicas_first(replicas: Seq<usize>, child_plan: Seq<usize>) -> Seq<usize> {
    replicas + without(child_plan, replicas)
}

/// What is left of a plan is part of the plan, in no other order, and holds
/// none of the nodes that were taken.
pub proof fn lemma_without(plan: Seq<usize>, taken: Seq<usize>, nodes: nat)
    requires
        is_plan(plan, nodes),
    ensures
        is_plan(without(plan, taken), nodes),
        forall|node: usize|
            without(plan, taken).contains(node) <==> plan.contains(node) && !taken.contains(node),
    decreases plan.len(),
{
    if plan.len() > 0 {
        let before = plan.drop_last();
        assert(is_plan(before, nodes)) by {
            assert forall|i: int, j: int| 0 <= i < before.len() && 0 <= j < before.len() && i
                != j implies before[i] != before[j] by {
                assert(before[i] == plan[i] && before[j] == plan[j]);
            }
            assert forall|i: int| 0 <= i < before.len() implies (#[trigger] before[i]) < nodes by {
                assert(before[i] == plan[i]);
            }
        }
        lemma_without(before, taken, nodes);
        let rest = without(before, taken);
        let last = plan.last();
        assert(!before.contains(last)) by {
            if before.contains(last) {
                let i = choose|i: int| 0 <= i < before.len() && before[i] == last;
                assert(plan[i] == plan[plan.len() - 1]);
            }
        }
        assert forall|node: usize| plan.contains(node) <==> before.contains(node) || node
            == last by {
            if plan.contains(node) {
                let i = choose|i: int| 0 <= i < plan.len() && plan[i] == node;
                if i < before.len() {
                    assert(before[i] == node);
                }
            }
            if before.contains(node) {
                let i = choose|i: int| 0 <= i < before.len() && before[i] == node;
                assert(plan[i] == node);
            }
            if node == last {
                assert(plan[plan.len() - 1] == node);
            }
        }
        if !taken.contains(last) {
            let all = rest.push(last);
            assert forall|i: int, j: int| 0 <= i < all.len() && 0 <= j < all.len() && i
                != j implies all[i] != all[j] by {
                if i == rest.len() {
                    assert(rest.contains(all[j]));
                } else if j == rest.len() {
                    assert(rest.contains(all[i]));
                }
            }
            assert forall|node: usize| all.contains(node) <==> rest.contains(node) || node
                == last by {
                if all.contains(node) {
                    let i = choose|i: int| 0 <= i < all.len() && all[i] == node;
                    if i < rest.len() {
                        assert(rest[i] == node);
                    }
                }
                if rest.contains(node) {
                    let i = choose|i: int| 0 <= i < rest.len() && rest[i] == node;
                    assert(all[i] == node);
                }
                if node == last {
                    assert(all[rest.len() as int] == node);
                }
            }
        }
    }
}

/// The replicas followed by the rest of a plan make a plan.
pub proof fn lemma_replicas_first(replicas: Seq<usize>, child_plan: Seq<usize>, nodes: nat)
    requires
        is_plan(replicas, nodes),
        is_plan(child_plan, nodes),
    ensures
        is_plan(replicas_first(replicas, child_plan), nodes),
{
    lemma_without(child_plan, replicas, nodes);
    let rest = without(child_plan, replicas);
    let all = replicas + rest;
    assert forall|i: int, j: int| 0 <= i < all.len() && 0 <= j < all.len() && i != j implies all[i]
        != all[j] by {
        if i < replicas.len() && j >= replicas.len() {
            assert(rest.contains(rest[j - replicas.len()]));
            assert(replicas.contains(replicas[i]));
        } else if j < replicas.len() && i >= replicas.len() {
            assert(rest.contains(rest[i - replicas.len()]));
            assert(replicas.contains(replicas[j]));
        }
    }
}

/// Asks the replicas of the statement's token first, and then the nodes
/// that its child policy plans.
#[derive(Debug)]
pub struct TokenAwarePolicy<C: LoadBalancingPolicy> {
    child: C,
}

impl<C: LoadBalancingPolicy> TokenAwarePolicy<C> {
    /// A token aware policy over a child policy.
    pub fn new(child: C) -> (r: Self)
        ensures
            r.child_policy() == child,
    {
        TokenAwarePolicy { child }
    }

    /// The child policy.
    pub closed spec fn child_policy(&self) -> C {
        self.child
    }
}

/// The number of replicas to look for: what the strategy of the statement's
/// keyspace says, or one where the keyspace is not known.
pub open spec fn replicas_wanted(cluster: &ClusterData, keyspace: Option<Seq<char>>) -> nat {
    match keyspace {
        Some(name) => match cluster.strategy_of(name) {
            Some(strategy) => strategy.wanted(),
            None => 1,
        },
        None => 1,
    }
}

/// The plan of a token aware policy whose child policy plans `child_plan`:
/// for a statement with a token, the replicas of the token come first; a
/// statement without a token gets the plan of the child.
pub open spec fn token_aware_plan(
    statement: StatementView,
    cluster: &ClusterData,
    child_plan: Seq<usize>,
) -> Seq<usize> {
    match statement.token {
        Some(token) => replicas_first(
            replicas_of(cluster.ring(), token, replicas_wanted(cluster, statement.keyspace)),
            child_plan,
        ),
        None => child_plan,
    }
}

impl<C: LoadBalancingPolicy> LoadBalancingPolicy for TokenAwarePolicy<C> {
    /// The child policy makes a plan of its own for the statement, and the
    /// replicas of the statement's token are put before it.
    open spec fn plans(
        &self,
        statement: StatementView,
        cluster: &ClusterData,
        after: &Self,
        plan: Seq<usize>,
    ) -> bool {
        exists|child_plan: Seq<usize>|
            {
                &&& is_plan(child_plan, cluster.node_count())
                &&& #[trigger] self.child_policy().plans(
                    statement,
                    cluster,
                    &after.child_policy(),
                    child_plan,
                )
                &&& plan == token_aware_plan(statement, cluster, child_plan)
            }
    }

    fn plan(&mut self, statement: &Statement, cluster: &ClusterData) -> (r: Vec<usize>)
    {
        let ghost child_before = self.child;
        let child_plan = self.child.plan(statement, cluster);
        assert(child_before == old(self).child_policy());
        assert(child_before.plans(statement@, cluster, &self.child_policy(), child_plan@));
        let token = match statement.token {
            Some(token) => token,
            None => {
                return child_plan;
            },
        };
        let wanted = match statement.keyspace {
            Some(name) => match cluster.get_strategy(name) {
                Some(strategy) => strategy.replicas_wanted(),
                None => 1,
            },
            None => 1,
        };
        let replicas = cluster.replicas_for_token(token, wanted);
        let mut plan: Vec<usize> = Vec::new();
        let mut i: usize = 0;
        while i < replicas.len()
            invariant
                i <= replicas@.len(),
                plan@ == replicas@.take(i as int),
            decreases replicas@.len() - i,
        {
            plan.push(replicas[i]);
            assert(replicas@.take(i as int).push(replicas@[i as int]) =~= replicas@.take(i + 1));
            i += 1;
        }
        assert(replicas@.take(i as int) =~= replicas@);
        let mut j: usize = 0;
        assert(child_plan@.take(0) =~= Seq::<usize>::empty());
        assert(plan@ =~= replicas@ + without(child_plan@.take(0), replicas@));
        while j < child_plan.len()
            invariant
                j <= child_plan@.len(),
                plan@ == replicas@ + without(child_plan@.take(j as int), replicas@),
            decreases child_plan@.len() - j,
        {
            let node = child_plan[j];
            let ghost before = plan@;
            assert(child_plan@.take(j + 1).drop_last() =~= child_plan@.take(j as int));
            assert(child_plan@.take(j + 1).last() == node);
            if !contains(&replicas, node) {
                plan.push(node);
                assert(plan@ =~= replicas@ + without(child_plan@.take(j + 1), replicas@));
            }
            j += 1;
        }
        proof {
            assert(child_plan@.take(j as int) =~= child_plan@);
            lemma_replicas_first(replicas@, child_plan@, cluster.node_count());
        }
        plan
    }
}

/// A token aware policy over a round robin policy is deterministic: the
/// cursor, the statement and the cluster settle the plan, which is the round
/// of all nodes from where the cursor points, with the replicas of the
/// statement's token put first; and each plan moves the cursor on by one.
pub proof fn lemma_token_aware_round_robin_plan(
    policy: TokenAwarePolicy<RoundRobinPolicy>,
    statement: StatementView,
    cluster: &ClusterData,
    after: TokenAwarePolicy<RoundRobinPolicy>,
    plan: Seq<usize>,
)
    requires
        policy.plans(statement, cluster, &after, plan),
    ensures
        plan == token_aware_plan(
            statement,
            cluster,
            round_robin_from(cluster.node_count(), policy.child_policy().cursor()),
        ),
        after.child_policy().cursor() == cursor_after(policy.child_policy().cursor()),
{
}

} // verus!
