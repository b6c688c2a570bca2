//! What the session knows of the cluster: the nodes, the ring of tokens and
//! how each keyspace is replicated.

use crate::frame::response::result::InetAddress;
use crate::routing::Token;
use crate::text::str_equal;
use crate::transport::connection::VerifiedKeyspaceName;
use vstd::prelude::*;

verus! {

/// An IP address and a port.
#[derive(Debug, Clone, Copy, PartialEq, Eq)]
pub struct SocketAddress {
    pub ip: InetAddress,
    pub port: u16,
}

/// A member of the cluster.
#[derive(Debug)]
pub struct Node {
    /// Where the node listens.
    pub address: SocketAddress,
    /// The datacenter of the node, if it is known.
    pub datacenter: Option<String>,
    /// The rack of the node, if it is known.
    pub rack: Option<String>,
    /// The tokens that the node owns.
    pub tokens: Vec<Token>,
}

/// How a keyspace spreads its rows over the nodes.
#[derive(Debug, Clone, Copy, PartialEq, Eq, Structural)]
pub enum Strategy {
    /// Each row lives on the owner of its token and on the nodes that follow
    /// it on the ring, `replication_factor` nodes in all.
    SimpleStrategy { replication_factor: usize },
    /// Any other strategy: only the owner of the token is known to hold the
    /// row.
    Other,
}

impl Strategy {
    /// The number of replicas that are looked for on the ring.
    pub open spec fn wanted(self) -> nat {
        match self {
            Strategy::SimpleStrategy { replication_factor } => replication_factor as nat,
            Strategy::Other => 1,
        }
    }

    /// The number of replicas that are looked for on the ring.
    pub fn replicas_wanted(self) -> (r: usize)
        ensures
            r == self.wanted(),
    {
        match self {
            Strategy::SimpleStrategy { replication_factor } => replication_factor,
            Strategy::Other => 1,
        }
    }
}

/// A keyspace and how it is replicated.
#[derive(Debug)]
pub struct Keyspace {
    pub name: String,
    pub strategy: Strategy,
}

/// One token on the ring, with the index of the node that owns it.
#[derive(Debug, Clone, Copy, PartialEq, Eq)]
pub struct RingEntry {
    pub token: Token,
    pub node: usize,
}

/// The tokens of a ring are in ascending order.
pub open spec fn ring_sorted(ring: Seq<RingEntry>) -> bool {
    forall|i: int, j: int| 0 <= i <= j < ring.len() ==> ring[i].token.value <= ring[j].token.value
}

/// Every entry of a ring names a node that exists.
pub open spec fn ring_within(ring: Seq<RingEntry>, nodes: nat) -> bool {
    forall|i: int| 0 <= i < ring.len() ==> (#[trigger] ring[i]).node < nodes
}

/// Where the walk for a token starts: at the first entry whose token is not
/// below it, or, if there is none, at the first entry of the ring.
pub open spec fn ring_start(ring: Seq<RingEntry>, token: i64) -> int {
    let first = first_not_below(ring, token, 0);
    if first >= ring.len() {
        0
    } else {
        first
    }
}

/// The first position from `from` on whose token is not below `token`, or
/// the length of the ring if there is none.
pub open spec fn first_not_below(ring: Seq<RingEntry>, token: i64, from: int) -> int
    decreases ring.len() - from,
{
    if from < 0 || from >= ring.len() {
        ring.len() as int
    } else if ring[from].token.value >= token {
        from
    } else {
        first_not_below(ring, token, from + 1)
    }
}

/// The nodes found on the first `steps` entries of a walk round the ring
/// from `start`: each node once, in the order in which the walk meets them,
/// and no more than `wanted` of them.
pub open spec fn replicas_on_walk(ring: Seq<RingEntry>, start: int, steps: nat, wanted: nat) -> Seq<
    usize,
>
    decreases steps,
{
    if steps == 0 || ring.len() == 0 {
        Seq::empty()
    } else {
        let found = replicas_on_walk(ring, start, (steps - 1) as nat, wanted);
        let node = ring[(start + steps - 1) % (ring.len() as int)].node;
        if found.len() < wanted && !found.contains(node) {
            found.push(node)
        } else {
            found
        }
    }
}

/// The replicas of a token: the nodes found on one full walk round the ring
/// from the token's place.
pub open spec fn replicas_of(ring: Seq<RingEntry>, token: i64, wanted: nat) -> Seq<usize> {
    replicas_on_walk(ring, ring_start(ring, token), ring.len(), wanted)
}

/// The replicas on a walk are nodes of the ring, no node twice, and no more
/// than were wanted.
pub proof fn lemma_replicas_on_walk(
    ring: Seq<RingEntry>,
    start: int,
    steps: nat,
    wanted: nat,
    nodes: nat,
)
    requires
        ring_within(ring, nodes),
        0 <= start,
    ensures
        replicas_on_walk(ring, start, steps, wanted).len() <= wanted,
        replicas_on_walk(ring, start, steps, wanted).len() <= steps,
        replicas_on_walk(ring, start, steps, wanted).no_duplicates(),
        forall|i: int|
            0 <= i < replicas_on_walk(ring, start, steps, wanted).len() ==> (
            #[trigger] replicas_on_walk(ring, start, steps, wanted)[i]) < nodes,
    decreases steps,
{
    if steps > 0 && ring.len() > 0 {
        lemma_replicas_on_walk(ring, start, (steps - 1) as nat, wanted, nodes);
        let found = replicas_on_walk(ring, start, (steps - 1) as nat, wanted);
        let at = (start + steps - 1) % (ring.len() as int);
        assert(0 <= at < ring.len()) by (nonlinear_arith)
            requires
                ring.len() > 0,
                at == (start + steps - 1) % (ring.len() as int),
        ;
        let node = ring[at].node;
        if found.len() < wanted && !found.contains(node) {
            let more = found.push(node);
            assert forall|i: int, j: int| 0 <= i < more.len() && 0 <= j < more.len() && i
                != j implies more[i] != more[j] by {
                if i == found.len() {
                    assert(found.contains(more[j]));
                } else if j == found.len() {
                    assert(found.contains(more[i]));
                }
            }
        }
    }
}

/// The nodes, the ring and the keyspaces of a cluster, as of one moment. A
/// refresh of the topology makes a new one.
#[derive(Debug)]
pub struct ClusterData {
    nodes: Vec<Node>,
    ring: Vec<RingEntry>,
    keyspaces: Vec<Keyspace>,
    used_keyspace: Option<VerifiedKeyspaceName>,
}

/// The ring that is built from the first `count` nodes: before the ring is
/// sorted, the tokens of node 0, then those of node 1, and so on.
pub open spec fn tokens_of_nodes(nodes: Seq<Node>, count: nat) -> Seq<RingEntry>
    decreases count,
{
    if count == 0 {
        Seq::empty()
    } else {
        tokens_of_nodes(nodes, (count - 1) as nat) + Seq::new(
            nodes[count - 1].tokens@.len(),
            |i: int| RingEntry { token: nodes[count - 1].tokens@[i], node: (count - 1) as usize },
        )
    }
}

/// The ring that holds the given entries: each entry is put into the ring
/// of those before it, where the first entry whose token is not below its
/// own stands.
pub open spec fn ring_of(entries: Seq<RingEntry>) -> Seq<RingEntry>
    decreases entries.len(),
{
    if entries.len() == 0 {
        Seq::empty()
    } else {
        let before = ring_of(entries.drop_last());
        before.insert(first_not_below(before, entries.last().token.value, 0), entries.last())
    }
}

impl ClusterData {
    /// The ring is in ascending order, names only nodes that exist, and
    /// holds the tokens of the nodes and nothing else.
    #[verifier::type_invariant]
    spec fn inv(self) -> bool {
        &&& ring_sorted(self.ring@)
        &&& ring_within(self.ring@, self.nodes@.len())
        &&& self.ring@.to_multiset() == tokens_of_nodes(
            self.nodes@,
            self.nodes@.len(),
        ).to_multiset()
    }

    /// The number of nodes.
    pub closed spec fn node_count(&self) -> nat {
        self.nodes@.len()
    }

    /// The ring of tokens.
    pub closed spec fn ring(&self) -> Seq<RingEntry> {
        self.ring@
    }

    /// The tokens of all nodes, node by node.
    pub closed spec fn owned_tokens(&self) -> Seq<RingEntry> {
        tokens_of_nodes(self.nodes@, self.nodes@.len())
    }

    /// How the keyspace of that name is replicated, where the cluster knows
    /// the keyspace: the strategy of the first keyspace of that name.
    pub closed spec fn strategy_of(&self, name: Seq<char>) -> Option<Strategy> {
        strategy_among(self.keyspaces@, name, 0)
    }

    /// A view of the cluster from its nodes and keyspaces. The ring is built
    /// from the tokens of the nodes.
    pub fn new(
        nodes: Vec<Node>,
        keyspaces: Vec<Keyspace>,
        used_keyspace: Option<VerifiedKeyspaceName>,
    ) -> (r: Self)
        ensures
            r.nodes_view() == nodes@,
            r.keyspaces_view() == keyspaces@,
            r.used_keyspace_view() == used_keyspace,
            r.ring() == ring_of(tokens_of_nodes(nodes@, nodes@.len())),
            ring_sorted(r.ring()),
            ring_within(r.ring(), nodes@.len()),
            r.ring().to_multiset() == tokens_of_nodes(nodes@, nodes@.len()).to_multiset(),
    {
        let mut ring: Vec<RingEntry> = Vec::new();
        let mut n: usize = 0;
        while n < nodes.len()
            invariant
                n <= nodes@.len(),
                ring_sorted(ring@),
                ring_within(ring@, n as nat),
                ring@.to_multiset() == tokens_of_nodes(nodes@, n as nat).to_multiset(),
                ring@ == ring_of(tokens_of_nodes(nodes@, n as nat)),
            decreases nodes@.len() - n,
        {
            let ghost before_node = ring@;
            let mut t: usize = 0;
            let node = &nodes[n];
            assert(before_node + Seq::<RingEntry>::empty() =~= before_node);
            while t < node.tokens.len()
                invariant
                    n < nodes@.len(),
                    *node == nodes@[n as int],
                    t <= node.tokens@.len(),
                    ring_sorted(ring@),
                    ring_within(ring@, (n + 1) as nat),
                    ring@.to_multiset() == (tokens_of_nodes(nodes@, n as nat) + Seq::new(
                        t as nat,
                        |i: int| RingEntry { token: node.tokens@[i], node: n },
                    )).to_multiset(),
                    ring@ == ring_of(
                        tokens_of_nodes(nodes@, n as nat) + Seq::new(
                            t as nat,
                            |i: int| RingEntry { token: node.tokens@[i], node: n },
                        ),
                    ),
                decreases node.tokens@.len() - t,
            {
                let entry = RingEntry { token: node.tokens[t], node: n };
                let ghost old_ring = ring@;
                let ghost done = tokens_of_nodes(nodes@, n as nat) + Seq::new(
                    t as nat,
                    |i: int| RingEntry { token: node.tokens@[i], node: n },
                );
                let at = lower_bound(&ring, entry.token.value);
                ring.insert(at, entry);
                proof {
                    lemma_insert_multiset(old_ring, at as int, entry);
                    vstd::seq_lib::to_multiset_build(done, entry);
                    assert(done.push(entry).drop_last() =~= done);
                    assert(done.push(entry) =~= tokens_of_nodes(nodes@, n as nat) + Seq::new(
                        (t + 1) as nat,
                        |i: int| RingEntry { token: node.tokens@[i], node: n },
                    ));
                    assert forall|i: int, j: int| 0 <= i <= j < ring@.len(
                        ) implies ring@[i].token.value
                        <= ring@[j].token.value by {
                        let a = if i < at {
                            i
                        } else {
                            i - 1
                        };
                        let b = if j < at {
                            j
                        } else {
                            j - 1
                        };
                        if i != at && j != at {
                            assert(ring@[i] == old_ring[a]);
                            assert(ring@[j] == old_ring[b]);
                        } else if i == at && j != at {
                            assert(ring@[j] == old_ring[b]);
                        } else if j == at && i != at {
                            assert(ring@[i] == old_ring[a]);
                        }
                    }
                    assert forall|i: int| 0 <= i < ring@.len() implies (#[trigger] ring@[i]).node
                        < n + 1 by {
                        if i < at {
                            assert(ring@[i] == old_ring[i]);
                        } else if i > at {
                            assert(ring@[i] == old_ring[i - 1]);
                        }
                    }
                }
                t += 1;
            }
            n += 1;
        }
        ClusterData { nodes, ring, keyspaces, used_keyspace }
    }

    /// The nodes.
    pub closed spec fn nodes_view(&self) -> Seq<Node> {
        self.nodes@
    }

    /// The keyspaces.
    pub closed spec fn keyspaces_view(&self) -> Seq<Keyspace> {
        self.keyspaces@
    }

    /// The keyspace that the session uses, if any.
    pub closed spec fn used_keyspace_view(&self) -> Option<VerifiedKeyspaceName> {
        self.used_keyspace
    }

    /// The nodes of the cluster.
    pub fn get_nodes(&self) -> (r: &Vec<Node>)
        ensures
            r@ == self.nodes_view(),
            r@.len() == self.node_count(),
    {
        &self.nodes
    }

    /// The ring of tokens: in ascending order, naming only nodes that exist,
    /// holding the tokens that the nodes own and nothing else.
    pub fn get_ring(&self) -> (r: &Vec<RingEntry>)
        ensures
            r@ == self.ring(),
            ring_sorted(r@),
            ring_within(r@, self.node_count()),
            r@.to_multiset() == self.owned_tokens().to_multiset(),
    {
        proof {
            use_type_invariant(self);
        }
        &self.ring
    }

    /// The keyspace that the session uses, if any.
    pub fn get_used_keyspace(&self) -> (r: &Option<VerifiedKeyspaceName>)
        ensures
            *r == self.used_keyspace_view(),
    {
        &self.used_keyspace
    }

    /// Makes a keyspace the one that the session uses, or none.
    pub fn set_used_keyspace(&mut self, used_keyspace: Option<VerifiedKeyspaceName>)
        ensures
            final(self).used_keyspace_view() == used_keyspace,
            final(self).nodes_view() == old(self).nodes_view(),
            final(self).keyspaces_view() == old(self).keyspaces_view(),
            final(self).ring() == old(self).ring(),
    {
        proof {
            use_type_invariant(&*self);
        }
        self.used_keyspace = used_keyspace;
    }

    /// How the keyspace of the given name is replicated, if the cluster
    /// knows the keyspace.
    pub fn get_strategy(&self, name: &str) -> (r: Option<Strategy>)
        ensures
            r == self.strategy_of(name@),
    {
        let mut i: usize = 0;
        while i < self.keyspaces.len()
            invariant
                i <= self.keyspaces@.len(),
                strategy_among(self.keyspaces@, name@, 0) == strategy_among(
                    self.keyspaces@,
                    name@,
                    i as nat,
                ),
            decreases self.keyspaces@.len() - i,
        {
            if str_equal(self.keyspaces[i].name.as_str(), name) {
                return Some(self.keyspaces[i].strategy);
            }
            i += 1;
        }
        None
    }

    /// The place of a token on the ring: the position of the first entry
    /// whose token is not below it, or the length of the ring if there is
    /// none.
    pub fn ring_position(&self, token: Token) -> (r: usize)
        ensures
            r == first_not_below(self.ring(), token.value, 0),
            r <= self.ring().len(),
            forall|i: int| 0 <= i < r ==> self.ring()[i].token.value < token.value,
            forall|i: int| r <= i < self.ring().len() ==> self.ring()[i].token.value >= token.value,
    {
        proof {
            use_type_invariant(self);
        }
        lower_bound(&self.ring, token.value)
    }

    /// The replicas of a token: the nodes met on a walk round the ring from
    /// the first token that is not below the given one, each node once, and
    /// no more than `wanted` of them.
    pub fn replicas_for_token(&self, token: Token, wanted: usize) -> (r: Vec<usize>)
        ensures
            r@ == replicas_of(self.ring(), token.value, wanted as nat),
            r@.len() <= wanted,
            r@.no_duplicates(),
            forall|i: int| 0 <= i < r@.len() ==> (#[trigger] r@[i]) < self.node_count(),
    {
        proof {
            use_type_invariant(self);
        }
        let len = self.ring.len();
        let mut found: Vec<usize> = Vec::new();
        if len == 0 {
            return found;
        }
        let first = lower_bound(&self.ring, token.value);
        let start = if first >= len {
            0
        } else {
            first
        };
        let mut steps: usize = 0;
        while steps < len
            invariant
                steps <= len == self.ring@.len(),
                len > 0,
                start < len,
                found@ == replicas_on_walk(self.ring@, start as int, steps as nat, wanted as nat),
            decreases len - steps,
        {
            let at = if steps < len - start {
                start + steps
            } else {
                steps - (len - start)
            };
            assert(at == (start + steps) % (len as int)) by (nonlinear_arith)
                requires
                    start < len,
                    steps < len,
                    at == if steps < len - start {
                        start + steps
                    } else {
                        steps - (len - start)
                    },
            ;
            let node = self.ring[at].node;
            if found.len() < wanted && !contains(&found, node) {
                found.push(node);
            }
            steps += 1;
        }
        proof {
            lemma_replicas_on_walk(
                self.ring@,
                start as int,
                len as nat,
                wanted as nat,
                self.nodes@.len(),
            );
        }
        found
    }
}

/// Tells whether a list of node indexes holds a given one.
pub fn contains(list: &Vec<usize>, node: usize) -> (r: bool)
    ensures
        r == list@.contains(node),
{
    let mut i: usize = 0;
    while i < list.len()
        invariant
            i <= list@.len(),
            forall|j: int| 0 <= j < i ==> list@[j] != node,
        decreases list@.len() - i,
    {
        if list[i] == node {
            return true;
        }
        i += 1;
    }
    false
}

/// The first position of a sorted ring whose token is not below `token`, or
/// the length of the ring if there is none.
fn lower_bound(ring: &Vec<RingEntry>, token: i64) -> (r: usize)
    requires
        ring_sorted(ring@),
    ensures
        r == first_not_below(ring@, token, 0),
        r <= ring@.len(),
        forall|i: int| 0 <= i < r ==> ring@[i].token.value < token,
        forall|i: int| r <= i < ring@.len() ==> ring@[i].token.value >= token,
{
    let mut low: usize = 0;
    let mut high: usize = ring.len();
    while low < high
        invariant
            low <= high <= ring@.len(),
            ring_sorted(ring@),
            forall|i: int| 0 <= i < low ==> ring@[i].token.value < token,
            forall|i: int| high <= i < ring@.len() ==> ring@[i].token.value >= token,
        decreases high - low,
    {
        let middle = low + (high - low) / 2;
        if ring[middle].token.value < token {
            low = middle + 1;
        } else {
            high = middle;
        }
    }
    proof {
        lemma_first_not_below(ring@, token, 0, low as int);
    }
    low
}

/// If every token before `at` is below `token`, and none from `at` on is,
/// the first token that is not below it stands at `at`.
pub proof fn lemma_first_not_below(ring: Seq<RingEntry>, token: i64, from: int, at: int)
    requires
        0 <= from <= at <= ring.len(),
        forall|i: int| 0 <= i < at ==> ring[i].token.value < token,
        forall|i: int| at <= i < ring.len() ==> ring[i].token.value >= token,
    ensures
        first_not_below(ring, token, from) == at,
    decreases at - from,
{
    if from < at {
        lemma_first_not_below(ring, token, from + 1, at);
    }
}

/// A sequence with one more element, wherever it is put, holds that element
/// once more and the others as before.
pub proof fn lemma_insert_multiset<A>(s: Seq<A>, at: int, a: A)
    requires
        0 <= at <= s.len(),
    ensures
        s.insert(at, a).to_multiset() == s.to_multiset().insert(a),
{
    let longer = s.insert(at, a);
    vstd::seq_lib::to_multiset_remove(longer, at);
    assert(longer.remove(at) =~= s);
    assert(longer[at] == a);
    longer.to_multiset_ensures();
    assert(longer.contains(a));
    assert(longer.to_multiset() =~= s.to_multiset().insert(a));
}

/// The strategy of the first keyspace of the given name from position
/// `from` on.
pub open spec fn strategy_among(keyspaces: Seq<Keyspace>, name: Seq<char>, from: nat) -> Option<
    Strategy,
>
    decreases keyspaces.len() - from,
{
    if from >= keyspaces.len() {
        None
    } else if keyspaces[from as int].name@ == name {
        Some(keyspaces[from as int].strategy)
    } else {
        strategy_among(keyspaces, name, from + 1)
    }
}

} // verus!
