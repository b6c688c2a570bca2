//! The session: what a caller asks of it, and how a request finds its way.

use crate::frame::byte_buffers::bytes_eq;
use crate::frame::response::cql_to_rust::{FromRow, FromRowError};
use crate::frame::response::result::{InetAddress, Result as QueryResult, Row};
use crate::frame::response::Response;
use crate::frame::value::SerializedValues;
use crate::routing::{murmur3_hash, murmur3_token, Token};
use crate::statement::batch::Batch;
use crate::statement::prepared_statement::{
    partition_key, partition_key_fits, PartitionKeyError, PreparedStatement,
    PreparedStatementView,
};
use crate::statement::query::Query;
use crate::statement::Consistency;
use crate::text::{str_equal, to_chars};
use crate::transport::cluster::{ClusterData, SocketAddress};
use crate::transport::connection::{
    keyspace_name_fault, Compression, ConnectionConfig, VerifiedKeyspaceName,
    VerifiedKeyspaceNameView,
};
use crate::transport::errors::{BadQuery, NewSessionError, QueryError};
use crate::transport::iterator::{
    counted_page_failure, is_unexpected_response_error, PagingWorker, WorkerAction,
    WorkerEvent,
};
use crate::transport::load_balancing::{
    is_plan, LoadBalancingPolicy, RoundRobinPolicy, Statement, StatementView,
    TokenAwarePolicy,
};
use crate::transport::metrics::{counted, counted_by, Metrics, MetricsView};
use crate::transport::retry_policy::{
    default_decision, default_next_state, fresh_default_state, is_unavailable,
    lemma_unavailable_retried_once, share_template, BoxedRetryPolicy, DefaultRetryPolicy,
    Failure, QueryInfo, RetryDecision, RetryPolicyTemplate,
};
use std::sync::Arc;
use vstd::prelude::*;
use vstd::std_specs::iter::IteratorSpec;
use vstd::string::StrSliceExecFns;

verus! {

/// The text begins with `use` in any mix of upper and lower case, and a
/// space.
pub open spec fn is_use_statement(query: Seq<char>) -> bool {
    &&& query.len() >= 4
    &&& (query[0] == 'u' || query[0] == 'U')
    &&& (query[1] == 's' || query[1] == 'S')
    &&& (query[2] == 'e' || query[2] == 'E')
    &&& query[3] == ' '
}

/// Tells whether a statement sets the keyspace.
pub fn query_is_setting_keyspace(query: &str) -> (r: bool)
    ensures
        r == is_use_statement(query@),
{
    broadcast use vstd::string::axiom_spec_iter, vstd::string::next_postcondition;

    let mut it = query.chars();
    let c0 = it.next();
    let c1 = it.next();
    let c2 = it.next();
    let c3 = it.next();
    match (c0, c1, c2, c3) {
        (Some(c0), Some(c1), Some(c2), Some(c3)) => {
            assert(query@[1] == query@.drop_first()[0]);
            assert(query@[2] == query@.drop_first().drop_first()[0]);
            assert(query@[3] == query@.drop_first().drop_first().drop_first()[0]);
            (c0 == 'u' || c0 == 'U') && (c1 == 's' || c1 == 'S') && (c2 == 'e' || c2 == 'E') && c3
                == ' '
        },
        _ => false,
    }
}

/// A character that counts as white space: the Unicode property
/// `White_Space`.
pub open spec fn is_white_space(c: char) -> bool {
    let n = c as u32;
    (0x09 <= n <= 0x0D) || n == 0x20 || n == 0x85 || n == 0xA0 || n == 0x1680 || (0x2000 <= n
        <= 0x200A) || n == 0x2028 || n == 0x2029 || n == 0x202F || n == 0x205F || n == 0x3000
}

/// A kind of character that is trimmed off a text.
#[derive(Debug, Clone, Copy, PartialEq, Eq, Structural)]
pub enum Trimmed {
    Semicolon,
    WhiteSpace,
    DoubleQuote,
}

impl Trimmed {
    /// The character is of this kind.
    pub open spec fn holds(self, c: char) -> bool {
        match self {
            Trimmed::Semicolon => c == ';',
            Trimmed::WhiteSpace => is_white_space(c),
            Trimmed::DoubleQuote => c == '"',
        }
    }

    fn test(self, c: char) -> (r: bool)
        ensures
            r == self.holds(c),
    {
        match self {
            Trimmed::Semicolon => c == ';',
            Trimmed::WhiteSpace => {
                let n = c as u32;
                (0x09 <= n && n <= 0x0D) || n == 0x20 || n == 0x85 || n == 0xA0 || n == 0x1680 || (
                0x2000 <= n && n <= 0x200A) || n == 0x2028 || n == 0x2029 || n == 0x202F || n
                    == 0x205F || n == 0x3000
            },
            Trimmed::DoubleQuote => c == '"',
        }
    }
}

/// The end of `text[from..to]` once the characters of kind `kind` at its end
/// are taken off.
pub open spec fn trimmed_end(text: Seq<char>, from: int, to: int, kind: Trimmed) -> int
    decreases to - from,
{
    if from < to && kind.holds(text[to - 1]) {
        trimmed_end(text, from, to - 1, kind)
    } else {
        to
    }
}

/// The start of `text[from..to]` once the characters of kind `kind` at its
/// start are taken off.
pub open spec fn trimmed_start(text: Seq<char>, from: int, to: int, kind: Trimmed) -> int
    decreases to - from,
{
    if from < to && kind.holds(text[from]) {
        trimmed_start(text, from + 1, to, kind)
    } else {
        from
    }
}

/// Where the name of the keyspace stands in a statement that sets the
/// keyspace, and whether the name is case sensitive. The name is what
/// follows the first four characters, without semicolons at its end, then
/// without white space around it, then without double quotes around it; it
/// is case sensitive if a double quote stood at its start.
pub open spec fn use_keyspace_target(query: Seq<char>) -> (int, int, bool) {
    let start = if query.len() < 4 {
        query.len() as int
    } else {
        4
    };
    let to = trimmed_end(query, start, query.len() as int, Trimmed::Semicolon);
    let to = trimmed_end(query, start, to, Trimmed::WhiteSpace);
    let from = trimmed_start(query, start, to, Trimmed::WhiteSpace);
    let case_sensitive = from < to && query[from] == '"';
    let name_from = trimmed_start(query, from, to, Trimmed::DoubleQuote);
    let name_to = trimmed_end(query, name_from, to, Trimmed::DoubleQuote);
    (name_from, name_to, case_sensitive)
}

fn trim_end(text: &Vec<char>, from: usize, to: usize, kind: Trimmed) -> (r: usize)
    requires
        from <= to <= text@.len(),
    ensures
        r == trimmed_end(text@, from as int, to as int, kind),
        from <= r <= to,
{
    let mut end = to;
    while from < end && kind.test(text[end - 1])
        invariant
            from <= end <= to <= text@.len(),
            trimmed_end(text@, from as int, to as int, kind) == trimmed_end(
                text@,
                from as int,
                end as int,
                kind,
            ),
        decreases end,
    {
        end -= 1;
    }
    end
}

fn trim_start(text: &Vec<char>, from: usize, to: usize, kind: Trimmed) -> (r: usize)
    requires
        from <= to <= text@.len(),
    ensures
        r == trimmed_start(text@, from as int, to as int, kind),
        from <= r <= to,
{
    let mut start = from;
    while start < to && kind.test(text[start])
        invariant
            from <= start <= to <= text@.len(),
            trimmed_start(text@, from as int, to as int, kind) == trimmed_start(
                text@,
                start as int,
                to as int,
                kind,
            ),
        decreases to - start,
    {
        start += 1;
    }
    start
}

/// The name of the keyspace that a statement sets, and whether the name is
/// case sensitive.
pub fn keyspace_of_use_statement(query: &str) -> (r: (&str, bool))
    ensures
        ({
            let (from, to, case_sensitive) = use_keyspace_target(query@);
            0 <= from <= to <= query@.len() && r.0@ == query@.subrange(from, to) && r.1
                == case_sensitive
        }),
{
    let chars = to_chars(query);
    let start = if chars.len() < 4 {
        chars.len()
    } else {
        4
    };
    let to = trim_end(&chars, start, chars.len(), Trimmed::Semicolon);
    let to = trim_end(&chars, start, to, Trimmed::WhiteSpace);
    let from = trim_start(&chars, start, to, Trimmed::WhiteSpace);
    let case_sensitive = from < to && chars[from] == '"';
    let name_from = trim_start(&chars, from, to, Trimmed::DoubleQuote);
    let name_to = trim_end(&chars, name_from, to, Trimmed::DoubleQuote);
    (query.substring_char(name_from, name_to), case_sensitive)
}

/// The token of the row that a prepared statement touches with the given
/// values bound, or why there is none: an index of the partition key without
/// a value is a fault of the protocol, a value too long for the key is a
/// fault of the caller.
pub open spec fn token_of(pk_indexes: Seq<u16>, values: Seq<Option<Seq<u8>>>) -> Result<
    i64,
    PartitionKeyError,
> {
    match partition_key(pk_indexes, values) {
        Ok(key) => Ok(murmur3_hash(key)),
        Err(e) => Err(e),
    }
}

/// The error that the session reports when no token can be computed.
pub open spec fn is_token_error(e: QueryError, cause: PartitionKeyError) -> bool {
    match cause {
        PartitionKeyError::NoPkIndexValue(_, _) => e matches QueryError::ProtocolError(message)
            && message@ == "No pk indexes - can't calculate token"@,
        PartitionKeyError::ValueTooLong(len) => e matches QueryError::BadQuery(
            BadQuery::ValuesTooLongForKey(found, max),
        ) && found == len && max == u16::MAX,
    }
}

/// Computes the token of the row that a prepared statement touches with the
/// given values bound.
pub fn calculate_token(stmt: &PreparedStatement, values: &SerializedValues) -> (r: Result<
    Token,
    QueryError,
>)
    requires
        partition_key_fits(stmt@.metadata.pk_indexes, values@),
    ensures
        match r {
            Ok(token) => token_of(stmt@.metadata.pk_indexes, values@) == Ok::<
                _,
                PartitionKeyError,
            >(token.value),
            Err(e) => token_of(stmt@.metadata.pk_indexes, values@) matches Err(cause)
                && is_token_error(e, cause),
        },
{
    let partition_key = match stmt.compute_partition_key(values) {
        Ok(key) => key,
        Err(PartitionKeyError::NoPkIndexValue(_, _)) => {
            return Err(QueryError::ProtocolError("No pk indexes - can't calculate token"));
        },
        Err(PartitionKeyError::ValueTooLong(values_len)) => {
            return Err(
                QueryError::BadQuery(BadQuery::ValuesTooLongForKey(values_len, u16::MAX as usize)),
            );
        },
    };
    Ok(murmur3_token(partition_key))
}

/// Equal statements with equal values have equal tokens: the token depends
/// on nothing but the indexes of the partition key and the values bound.
pub proof fn lemma_token_deterministic(
    pk_indexes: Seq<u16>,
    values: Seq<Option<Seq<u8>>>,
    other_indexes: Seq<u16>,
    other_values: Seq<Option<Seq<u8>>>,
)
    requires
        pk_indexes == other_indexes,
        values == other_values,
    ensures
        partition_key(pk_indexes, values) == partition_key(other_indexes, other_values),
        token_of(pk_indexes, values) == token_of(other_indexes, other_values),
{
}

/// A node that the session knows of before it has seen the cluster.
#[derive(Debug)]
pub enum KnownNode {
    /// A host name, with or without a port, still to be resolved.
    Hostname(String),
    /// An address.
    Address(SocketAddress),
}

/// What a [`KnownNode`] says.
pub enum KnownNodeView {
    Hostname(Seq<char>),
    Address(SocketAddress),
}

impl View for KnownNode {
    type V = KnownNodeView;

    open spec fn view(&self) -> KnownNodeView {
        match self {
            KnownNode::Hostname(name) => KnownNodeView::Hostname(name@),
            KnownNode::Address(address) => KnownNodeView::Address(*address),
        }
    }
}

impl DeepView for KnownNode {
    type V = KnownNodeView;

    open spec fn deep_view(&self) -> KnownNodeView {
        self@
    }
}

/// The load balancing of a session that was given no other: token aware,
/// over all nodes in turn.
pub type DefaultLoadBalancing = TokenAwarePolicy<RoundRobinPolicy>;

/// What a session is set up with.
pub struct SessionConfig<L: LoadBalancingPolicy> {
    /// The nodes to contact first, to learn of the others.
    pub known_nodes: Vec<KnownNode>,
    /// The compression to ask for. Where the server does not offer it, the
    /// session goes without.
    pub compression: Option<Compression>,
    /// Whether segments are sent as soon as they are written.
    pub tcp_nodelay: bool,
    /// In which order nodes are asked.
    pub load_balancing: L,
    /// The keyspace to use from the start, if any.
    pub used_keyspace: Option<String>,
    /// Whether the name of that keyspace is case sensitive.
    pub keyspace_case_sensitive: bool,
    /// The retry policy of statements that have none of their own. Without
    /// one, the default policy applies.
    pub retry_policy: Option<Arc<dyn RetryPolicyTemplate>>,
}

impl SessionConfig<DefaultLoadBalancing> {
    /// The default configuration: no known nodes, no compression, token
    /// aware load balancing over all nodes in turn, no keyspace, and the
    /// default retry policy.
    pub fn new() -> (r: Self)
        ensures
            r.known_nodes@.len() == 0,
            r.compression is None,
            !r.tcp_nodelay,
            r.used_keyspace is None,
            !r.keyspace_case_sensitive,
            r.retry_policy is None,
            r.load_balancing.child_policy().cursor() == 0,
    {
        SessionConfig {
            known_nodes: Vec::new(),
            compression: None,
            tcp_nodelay: false,
            load_balancing: TokenAwarePolicy::new(RoundRobinPolicy::new()),
            used_keyspace: None,
            keyspace_case_sensitive: false,
            retry_policy: None,
        }
    }
}

impl Default for SessionConfig<DefaultLoadBalancing> {
    fn default() -> (r: Self)
        ensures
            r.known_nodes@.len() == 0,
            r.compression is None,
            !r.tcp_nodelay,
            r.used_keyspace is None,
            !r.keyspace_case_sensitive,
            r.retry_policy is None,
            r.load_balancing.child_policy().cursor() == 0,
    {
        Self::new()
    }
}

impl<L: LoadBalancingPolicy> SessionConfig<L> {
    /// The two configurations differ in nothing but the nodes they know.
    pub open spec fn same_but_known_nodes(self, other: Self) -> bool {
        &&& self.compression == other.compression
        &&& self.tcp_nodelay == other.tcp_nodelay
        &&& self.load_balancing == other.load_balancing
        &&& self.used_keyspace == other.used_keyspace
        &&& self.keyspace_case_sensitive == other.keyspace_case_sensitive
        &&& self.retry_policy == other.retry_policy
    }

    /// Adds a node by its host name.
    pub fn add_known_node(&mut self, hostname: &str)
        ensures
            final(self).same_but_known_nodes(*old(self)),
            final(self).known_nodes.deep_view() == old(self).known_nodes.deep_view().push(
                KnownNodeView::Hostname(hostname@),
            ),
    {
        let ghost before = self.known_nodes.deep_view();
        let node = KnownNode::Hostname(hostname.to_owned());
        self.known_nodes.push(node);
        assert(self.known_nodes.deep_view() =~= before.push(KnownNodeView::Hostname(hostname@)));
    }

    /// Adds a node by its address.
    pub fn add_known_node_addr(&mut self, node_addr: SocketAddress)
        ensures
            final(self).same_but_known_nodes(*old(self)),
            final(self).known_nodes.deep_view() == old(self).known_nodes.deep_view().push(
                KnownNodeView::Address(node_addr),
            ),
    {
        let ghost before = self.known_nodes.deep_view();
        self.known_nodes.push(KnownNode::Address(node_addr));
        assert(self.known_nodes.deep_view() =~= before.push(KnownNodeView::Address(node_addr)));
    }

    /// Adds nodes by their host names, in the order given.
    pub fn add_known_nodes(&mut self, hostnames: &[&str])
        ensures
            final(self).same_but_known_nodes(*old(self)),
            final(self).known_nodes.deep_view() == old(self).known_nodes.deep_view() + Seq::new(
                hostnames@.len(),
                |i: int| KnownNodeView::Hostname(hostnames@[i]@),
            ),
    {
        let ghost before = self.known_nodes.deep_view();
        let ghost added = Seq::new(
            hostnames@.len(),
            |i: int| KnownNodeView::Hostname(hostnames@[i]@),
        );
        let mut i: usize = 0;
        assert(before + added.take(0) =~= before);
        while i < hostnames.len()
            invariant
                i <= hostnames@.len(),
                added == Seq::new(
                    hostnames@.len(),
                    |i: int| KnownNodeView::Hostname(hostnames@[i]@),
                ),
                (*self).same_but_known_nodes(*old(self)),
                self.known_nodes.deep_view() == before + added.take(i as int),
            decreases hostnames@.len() - i,
        {
            let ghost done = self.known_nodes.deep_view();
            self.known_nodes.push(KnownNode::Hostname(hostnames[i].to_owned()));
            assert(self.known_nodes.deep_view() =~= done.push(added[i as int]));
            assert((before + added.take(i as int)).push(added[i as int]) =~= before + added.take(
                i + 1,
            ));
            i += 1;
        }
        assert(added.take(i as int) =~= added);
    }

    /// Adds nodes by their addresses, in the order given.
    pub fn add_known_nodes_addr(&mut self, node_addrs: &[SocketAddress])
        ensures
            final(self).same_but_known_nodes(*old(self)),
            final(self).known_nodes.deep_view() == old(self).known_nodes.deep_view() + Seq::new(
                node_addrs@.len(),
                |i: int| KnownNodeView::Address(node_addrs@[i]),
            ),
    {
        let ghost before = self.known_nodes.deep_view();
        let ghost added = Seq::new(
            node_addrs@.len(),
            |i: int| KnownNodeView::Address(node_addrs@[i]),
        );
        let mut i: usize = 0;
        assert(before + added.take(0) =~= before);
        while i < node_addrs.len()
            invariant
                i <= node_addrs@.len(),
                added == Seq::new(
                    node_addrs@.len(),
                    |i: int| KnownNodeView::Address(node_addrs@[i]),
                ),
                (*self).same_but_known_nodes(*old(self)),
                self.known_nodes.deep_view() == before + added.take(i as int),
            decreases node_addrs@.len() - i,
        {
            let ghost done = self.known_nodes.deep_view();
            self.known_nodes.push(KnownNode::Address(node_addrs[i]));
            assert(self.known_nodes.deep_view() =~= done.push(added[i as int]));
            assert((before + added.take(i as int)).push(added[i as int]) =~= before + added.take(
                i + 1,
            ));
            i += 1;
        }
        assert(added.take(i as int) =~= added);
    }

    /// What a connection of this session is set up with.
    pub fn get_connection_config(&self) -> (r: ConnectionConfig)
        ensures
            r.compression == self.compression,
            r.tcp_nodelay == self.tcp_nodelay,
    {
        ConnectionConfig { compression: self.compression, tcp_nodelay: self.tcp_nodelay }
    }
}

/// The addresses among the first `count` known nodes, in their order.
pub open spec fn known_addresses(nodes: Seq<KnownNodeView>, count: nat) -> Seq<SocketAddress>
    decreases count,
{
    if count == 0 {
        Seq::empty()
    } else {
        let before = known_addresses(nodes, (count - 1) as nat);
        match nodes[count - 1] {
            KnownNodeView::Address(address) => before.push(address),
            KnownNodeView::Hostname(_) => before,
        }
    }
}

/// The host names among the first `count` known nodes, in their order.
pub open spec fn known_hostnames(nodes: Seq<KnownNodeView>, count: nat) -> Seq<Seq<char>>
    decreases count,
{
    if count == 0 {
        Seq::empty()
    } else {
        let before = known_hostnames(nodes, (count - 1) as nat);
        match nodes[count - 1] {
            KnownNodeView::Address(_) => before,
            KnownNodeView::Hostname(name) => before.push(name),
        }
    }
}

/// The views of a list of texts.
pub open spec fn str_views(texts: Seq<&str>) -> Seq<Seq<char>> {
    Seq::new(texts.len(), |i: int| texts[i]@)
}

/// Parts the known nodes into the addresses and the host names that are
/// still to be resolved. A session needs at least one known node.
pub fn split_known_nodes(known_nodes: &Vec<KnownNode>) -> (r: Result<
    (Vec<SocketAddress>, Vec<&str>),
    NewSessionError,
>)
    ensures
        match r {
            Ok((addresses, hostnames)) => known_nodes@.len() > 0 && addresses@ == known_addresses(
                known_nodes.deep_view(),
                known_nodes@.len(),
            ) && str_views(hostnames@) == known_hostnames(
                known_nodes.deep_view(),
                known_nodes@.len(),
            ),
            Err(e) => known_nodes@.len() == 0 && e is EmptyKnownNodesList,
        },
{
    if known_nodes.len() == 0 {
        return Err(NewSessionError::EmptyKnownNodesList);
    }
    let mut node_addresses: Vec<SocketAddress> = Vec::new();
    let mut to_resolve: Vec<&str> = Vec::new();
    let mut i: usize = 0;
    assert(str_views(to_resolve@) =~= Seq::empty());
    while i < known_nodes.len()
        invariant
            i <= known_nodes@.len(),
            node_addresses@ == known_addresses(known_nodes.deep_view(), i as nat),
            str_views(to_resolve@) == known_hostnames(known_nodes.deep_view(), i as nat),
        decreases known_nodes@.len() - i,
    {
        let ghost names = str_views(to_resolve@);
        match &known_nodes[i] {
            KnownNode::Hostname(hostname) => {
                to_resolve.push(hostname.as_str());
                assert(str_views(to_resolve@) =~= names.push(hostname@));
            },
            KnownNode::Address(address) => {
                node_addresses.push(*address);
            },
        }
        i += 1;
    }
    Ok((node_addresses, to_resolve))
}

/// The first address of version 4 from position `from` on.
pub open spec fn first_v4(resolved: Seq<SocketAddress>, from: nat) -> Option<SocketAddress>
    decreases resolved.len() - from,
{
    if from >= resolved.len() {
        None
    } else if resolved[from as int].ip is V4 {
        Some(resolved[from as int])
    } else {
        first_v4(resolved, from + 1)
    }
}

/// The address to take of those that a host name resolved to: the first of
/// version 4, or, where there is none, the last of all.
pub open spec fn preferred_address(resolved: Seq<SocketAddress>) -> Option<SocketAddress> {
    match first_v4(resolved, 0) {
        Some(address) => Some(address),
        None => if resolved.len() > 0 {
            Some(resolved.last())
        } else {
            None
        },
    }
}

/// Picks the address of a host from those that its name resolved to.
pub fn choose_resolved_address(hostname: &str, resolved: &[SocketAddress]) -> (r: Result<
    SocketAddress,
    NewSessionError,
>)
    ensures
        match r {
            Ok(address) => preferred_address(resolved@) == Some(address),
            Err(e) => preferred_address(resolved@) is None
                && (e matches NewSessionError::FailedToResolveAddress(
                name,
            ) && name@ == hostname@),
        },
{
    let mut ret: Option<SocketAddress> = None;
    let mut i: usize = 0;
    while i < resolved.len()
        invariant
            i <= resolved@.len(),
            first_v4(resolved@, 0) == first_v4(resolved@, i as nat),
            ret == (if i == 0 {
                None
            } else {
                Some(resolved@[i - 1])
            }),
        decreases resolved@.len() - i,
    {
        let a = resolved[i];
        match a.ip {
            InetAddress::V4(_) => {
                return Ok(a);
            },
            _ => {
                ret = Some(a);
            },
        }
        i += 1;
    }
    match ret {
        Some(a) => Ok(a),
        None => Err(NewSessionError::FailedToResolveAddress(hostname.to_owned())),
    }
}

/// The position of the last statement among the first `count` answers to a
/// `PREPARE`, if any of them is a statement.
pub open spec fn last_prepared(
    results: Seq<Result<PreparedStatement, QueryError>>,
    count: nat,
) -> Option<int>
    decreases count,
{
    if count == 0 {
        None
    } else if results[count - 1] is Ok {
        Some(count - 1)
    } else {
        last_prepared(results, (count - 1) as nat)
    }
}

/// One of the first `count` answers is a statement with another id than
/// `id`.
pub open spec fn some_id_differs(
    results: Seq<Result<PreparedStatement, QueryError>>,
    count: int,
    id: Seq<u8>,
) -> bool {
    exists|j: int| 0 <= j < count && (#[trigger] results[j] matches Ok(statement)
        && statement@.id != id)
}

/// The message of the error when nodes prepared one statement under
/// different ids.
pub open spec fn ids_differ_message() -> Seq<char> {
    "Prepared statement Ids differ, all should be equal"@
}

/// What to make of the answers of all connections to one `PREPARE`. If none
/// is a statement, the error of the first connection is returned, or, where
/// there is no answer at all, an error of the protocol. Else the last
/// statement is returned, unless an earlier one has another id: the schema
/// is then not the same on all nodes, which is reported as an error of the
/// protocol.
pub fn agree_on_prepared(results: Vec<Result<PreparedStatement, QueryError>>) -> (r: Result<
    PreparedStatement,
    QueryError,
>)
    ensures
        match last_prepared(results@, results@.len()) {
            None => if results@.len() == 0 {
                r matches Err(QueryError::ProtocolError(message)) && message@
                    == "No answer to PREPARE"@
            } else {
                r == Err::<PreparedStatement, _>(results@[0]->Err_0)
            },
            Some(k) => if some_id_differs(results@, k, (results@[k]->Ok_0)@.id) {
                r matches Err(QueryError::ProtocolError(message)) && message@
                    == ids_differ_message()
            } else {
                r == results@[k]
            },
        },
{
    let ghost all = results@;
    let mut pending = results;
    let mut first_ok: Option<Result<PreparedStatement, QueryError>> = None;
    let mut found = false;
    while !found && pending.len() > 0
        invariant
            pending@.len() <= all.len(),
            pending@ == all.take(pending@.len() as int),
            found == (first_ok matches Some(Ok(_))),
            last_prepared(all, all.len()) == (if found {
                Some(pending@.len() as int)
            } else {
                last_prepared(all, pending@.len())
            }),
            first_ok is Some ==> pending@.len() < all.len() && first_ok == Some(
                all[pending@.len() as int],
            ),
            first_ok is None ==> pending@.len() == all.len(),
            all == results@,
        decreases pending@.len() + (if found {
            0nat
        } else {
            1nat
        }),
    {
        match pending.pop() {
            Some(res) => {
                found = res.is_ok();
                first_ok = Some(res);
                assert(pending@ =~= all.take(pending@.len() as int));
            },
            None => {},
        }
    }
    let prepared: PreparedStatement = match first_ok {
        Some(Ok(statement)) => statement,
        Some(Err(e)) => {
            return Err(e);
        },
        None => {
            return Err(QueryError::ProtocolError("No answer to PREPARE"));
        },
    };
    let ghost k = pending@.len() as int;
    let mut j: usize = 0;
    while j < pending.len()
        invariant
            j <= pending@.len() == k < all.len(),
            pending@ == all.take(k),
            all[k] == Ok::<_, QueryError>(prepared),
            last_prepared(all, all.len()) == Some(k),
            all == results@,
            !some_id_differs(all, j as int, prepared@.id),
        decreases pending@.len() - j,
    {
        assert(all[j as int] == pending@[j as int]);
        if let Ok(statement) = &pending[j] {
            if !bytes_eq(prepared.get_id(), statement.get_id()) {
                assert(all[j as int] matches Ok(statement) && statement@.id != prepared@.id);
                assert(some_id_differs(all, k, prepared@.id));
                assert((all[k]->Ok_0)@.id == prepared@.id);
                return Err(
                    QueryError::ProtocolError("Prepared statement Ids differ, all should be equal"),
                );
            }
        }
        j += 1;
    }
    Ok(prepared)
}

/// What a text given to the session asks for.
#[derive(Debug, Clone, Copy)]
pub enum QueryKind<'a> {
    /// To make a keyspace the current one: its name, and whether the name
    /// is case sensitive.
    UseKeyspace(&'a str, bool),
    /// Anything else: a statement to send to a node.
    Statement,
}

/// Tells a statement that sets the keyspace, which goes to every
/// connection, from one that goes to one node.
pub fn classify_query(query: &str) -> (r: QueryKind)
    ensures
        match r {
            QueryKind::UseKeyspace(name, case_sensitive) => is_use_statement(query@) && ({
                let (from, to, sensitive) = use_keyspace_target(query@);
                name@ == query@.subrange(from, to) && case_sensitive == sensitive
            }),
            QueryKind::Statement => !is_use_statement(query@),
        },
{
    if query_is_setting_keyspace(query) {
        let (name, case_sensitive) = keyspace_of_use_statement(query);
        QueryKind::UseKeyspace(name, case_sensitive)
    } else {
        QueryKind::Statement
    }
}

/// What the program around the session is to do next for a request.
#[derive(Debug, Clone, Copy, PartialEq, Eq, Structural)]
pub enum RunAction {
    /// Take a connection to the node of this index and send the request.
    TryNode(usize),
    /// Report the last error to the caller.
    GiveUp,
}

/// A request on its way through the plan of nodes: where it stands, and the
/// last error it met.
pub struct QueryRun {
    plan: Vec<usize>,
    position: usize,
    last_error: QueryError,
    retry_policy: BoxedRetryPolicy,
    is_idempotent: bool,
    consistency: Consistency,
}

/// What a [`QueryRun`] says.
pub struct QueryRunView {
    /// The nodes to ask, first to last.
    pub plan: Seq<usize>,
    /// How many nodes of the plan are done with.
    pub position: nat,
    /// The last error that the request met.
    pub last_error: QueryError,
    /// Whether the request is known to be idempotent.
    pub is_idempotent: bool,
    /// The consistency level of the request.
    pub consistency: Consistency,
    /// Whether the request has a retry policy.
    /// Whether the request has a retry policy.
    pub has_retry_policy: bool,
}

impl View for QueryRun {
    type V = QueryRunView;

    closed spec fn view(&self) -> QueryRunView {
        QueryRunView {
            plan: self.plan@,
            position: self.position as nat,
            last_error: self.last_error,
            is_idempotent: self.is_idempotent,
            consistency: self.consistency,
            has_retry_policy: self.retry_policy.policy is Some,
        }
    }
}

/// The error of a request whose plan names no node.
pub open spec fn is_empty_plan_error(e: QueryError) -> bool {
    e matches QueryError::ProtocolError(message) && message@ == "Empty query plan"@
}

impl QueryRunView {
    /// What the retry policy is told when the request fails with `error`.
    pub open spec fn failure(self, error: QueryError) -> Failure {
        Failure { error, is_idempotent: self.is_idempotent, consistency: self.consistency }
    }

    /// What is to be done at this point: ask the node at the position, or
    /// give up when the plan is used up.
    pub open spec fn action(self) -> RunAction {
        if self.position < self.plan.len() {
            RunAction::TryNode(self.plan[self.position as int])
        } else {
            RunAction::GiveUp
        }
    }

    /// The run moved on to the next node of the plan.
    pub open spec fn at_next_node(self) -> QueryRunView {
        QueryRunView {
            position: if self.position < self.plan.len() {
                self.position + 1
            } else {
                self.position
            },
            ..self
        }
    }

    /// The run after a failure to get a connection to the node at the
    /// position: the error is kept, and the next node has its turn.
    pub open spec fn after_connection_failure(self, error: QueryError) -> QueryRunView {
        QueryRunView { last_error: error, ..self }.at_next_node()
    }

    /// The run after the retry policy decided on a failed request: the
    /// same node again, the next node, or the end of the plan.
    pub open spec fn after_decision(self, decision: RetryDecision) -> QueryRunView {
        match decision {
            RetryDecision::RetrySameNode => self,
            RetryDecision::RetryNextNode => self.at_next_node(),
            RetryDecision::DontRetry => QueryRunView {
                position: if self.position < self.plan.len() {
                    self.plan.len()
                } else {
                    self.position
                },
                ..self
            },
        }
    }

    /// The run after the request failed on the node at the position and
    /// the retry policy decided on the failure.
    pub open spec fn after_query_failure(
        self,
        error: QueryError,
        decision: RetryDecision,
    ) -> QueryRunView {
        QueryRunView { last_error: error, ..self }.after_decision(decision)
    }
}

impl QueryRun {
    /// The retry policy of the request, as it stands.
    pub closed spec fn policy(&self) -> BoxedRetryPolicy {
        self.retry_policy
    }

    /// A request at the start of its plan.
    pub fn new(
        plan: Vec<usize>,
        is_idempotent: bool,
        consistency: Consistency,
        retry_policy: BoxedRetryPolicy,
    ) -> (r: Self)
        ensures
            r@.plan == plan@,
            r@.position == 0,
            is_empty_plan_error(r@.last_error),
            r@.is_idempotent == is_idempotent,
            r@.consistency == consistency,
            r@.has_retry_policy == (retry_policy.policy is Some),
            r.policy() == retry_policy,
    {
        QueryRun {
            plan,
            position: 0,
            last_error: QueryError::ProtocolError("Empty query plan"),
            retry_policy,
            is_idempotent,
            consistency,
        }
    }

    /// What is to be done next.
    pub fn next_action(&self) -> (r: RunAction)
        ensures
            r == self@.action(),
    {
        if self.position < self.plan.len() {
            RunAction::TryNode(self.plan[self.position])
        } else {
            RunAction::GiveUp
        }
    }

    fn to_next_node(&mut self)
        ensures
            final(self)@ == old(self)@.at_next_node(),
            final(self).policy() == old(self).policy(),
    {
        if self.position < self.plan.len() {
            self.position += 1;
        }
    }

    /// Takes note that no connection to the node could be had. This is no
    /// failure of the request: the retry policy is not asked, and the next
    /// node has its turn.
    pub fn connection_failed(&mut self, error: QueryError) -> (r: RunAction)
        ensures
            final(self)@ == old(self)@.after_connection_failure(error),
            final(self).policy() == old(self).policy(),
            r == final(self)@.action(),
    {
        self.last_error = error;
        self.to_next_node();
        self.next_action()
    }

    /// Makes the move that the retry policy decided on.
    pub fn apply_decision(&mut self, decision: RetryDecision) -> (r: RunAction)
        ensures
            final(self)@ == old(self)@.after_decision(decision),
            final(self).policy() == old(self).policy(),
            r == final(self)@.action(),
    {
        match decision {
            RetryDecision::RetrySameNode => {},
            RetryDecision::RetryNextNode => {
                self.to_next_node();
            },
            RetryDecision::DontRetry => {
                if self.position < self.plan.len() {
                    self.position = self.plan.len();
                }
            },
        }
        self.next_action()
    }

    /// Takes note that the request failed on the node, asks the retry
    /// policy and makes the move that it decides on. The policy is told the
    /// error, and the idempotency and the consistency level of the
    /// request; afterwards it is what it has become by that decision. A
    /// request without a policy is not retried.
    pub fn query_failed(&mut self, error: QueryError) -> (r: RunAction)
        ensures
            final(self)@ == old(self)@.after_query_failure(
                error,
                old(self).policy().decision(
                    error,
                    old(self)@.is_idempotent,
                    old(self)@.consistency,
                ),
            ),
            final(self).policy().follows(old(self).policy(), old(self)@.failure(error)),
            r == final(self)@.action(),
    {
        self.last_error = error;
        let query_info = QueryInfo {
            error: &self.last_error,
            is_idempotent: self.is_idempotent,
            consistency: self.consistency,
        };
        let decision = self.retry_policy.decide_should_retry(query_info);
        self.apply_decision(decision)
    }

    /// The last error that the request met.
    pub fn get_last_error(&self) -> (r: &QueryError)
        ensures
            *r == self@.last_error,
    {
        &self.last_error
    }

    /// The error to report when the request is given up.
    pub fn into_error(self) -> (r: QueryError)
        ensures
            r == self@.last_error,
    {
        self.last_error
    }
}

/// A request that is not retried fails with the error that it met: after
/// `DontRetry` the run gives up, and its last error is that of the failed
/// attempt.
pub proof fn lemma_dont_retry_gives_up(run: QueryRunView, error: QueryError)
    ensures
        run.after_query_failure(error, RetryDecision::DontRetry).action() == RunAction::GiveUp,
        run.after_query_failure(error, RetryDecision::DontRetry).last_error == error,
{
}

/// A request that is sent on to the next node asks the node that follows
/// in the plan, or gives up at the end of the plan.
pub proof fn lemma_next_node_follows_plan(run: QueryRunView, error: QueryError)
    requires
        run.position < run.plan.len(),
    ensures
        run.after_query_failure(error, RetryDecision::RetryNextNode).action() == (if run.position
            + 1 < run.plan.len() {
            RunAction::TryNode(run.plan[run.position as int + 1])
        } else {
            RunAction::GiveUp
        }),
        run.after_query_failure(error, RetryDecision::RetrySameNode).action() == run.action(),
{
}

/// A request under a fresh default policy that meets `Unavailable` on one
/// node is sent to the node that follows in the plan; if that node answers
/// `Unavailable` too, the request is given up, and that second error is
/// what the caller gets.
pub proof fn lemma_unavailable_on_two_nodes(
    run: QueryRunView,
    first: QueryError,
    second: QueryError,
)
    requires
        run.position + 1 < run.plan.len(),
        is_unavailable(first),
        is_unavailable(second),
    ensures
        ({
            let first_decision = default_decision(fresh_default_state(), first, run.is_idempotent);
            let after_first = run.after_query_failure(first, first_decision);
            let second_decision = default_decision(
                default_next_state(fresh_default_state(), first, run.is_idempotent),
                second,
                run.is_idempotent,
            );
            let after_second = after_first.after_query_failure(second, second_decision);
            &&& after_first.action() == RunAction::TryNode(run.plan[run.position as int + 1])
            &&& after_second.action() == RunAction::GiveUp
            &&& after_second.last_error == second
        }),
{
    lemma_unavailable_retried_once(first, run.is_idempotent, second, run.is_idempotent);
}

/// The engine behind the session's interface: the view of the cluster, the
/// policies and the counters. It sends nothing itself; it says where a
/// request is to go, and what to do when an attempt has failed.
pub struct Session<L: LoadBalancingPolicy> {
    cluster: ClusterData,
    load_balancer: L,
    retry_policy: Option<Arc<dyn RetryPolicyTemplate>>,
    metrics: Metrics,
    prepared: Vec<String>,
}

impl<L: LoadBalancingPolicy> Session<L> {
    /// A session over a view of the cluster.
    pub fn new(
        cluster: ClusterData,
        load_balancer: L,
        retry_policy: Option<Arc<dyn RetryPolicyTemplate>>,
    ) -> (r: Self)
        ensures
            r.cluster_data() == cluster,
            r.retry_template() == retry_policy,
            r.counters() == Metrics::new_spec(),
            r.prepared_texts() == Seq::<Seq<char>>::empty(),
            r.load_balancing() == load_balancer,
    {
        let r = Session {
            cluster,
            load_balancer,
            retry_policy,
            metrics: Metrics::new(),
            prepared: Vec::new(),
        };
        assert(r.prepared.deep_view() =~= Seq::<Seq<char>>::empty());
        r
    }

    /// The texts of the statements that were prepared in this session, each
    /// once, in the order in which they were first prepared.
    pub closed spec fn prepared_texts(&self) -> Seq<Seq<char>> {
        self.prepared.deep_view()
    }

    /// Remembers that a statement was prepared. A node knows a prepared
    /// statement only once it has seen its `PREPARE`, so every connection
    /// that is opened later is to prepare the statements remembered here.
    pub fn remember_prepared(&mut self, statement: &str)
        ensures
            final(self).prepared_texts() == (if old(self).prepared_texts().contains(statement@) {
                old(self).prepared_texts()
            } else {
                old(self).prepared_texts().push(statement@)
            }),
            final(self).cluster_data() == old(self).cluster_data(),
            final(self).counters() == old(self).counters(),
            final(self).load_balancing() == old(self).load_balancing(),
            final(self).retry_template() == old(self).retry_template(),
    {
        let ghost texts = self.prepared.deep_view();
        let mut i: usize = 0;
        while i < self.prepared.len()
            invariant
                i <= self.prepared@.len(),
                texts == self.prepared.deep_view(),
                *self == *old(self),
                forall|j: int| 0 <= j < i ==> texts[j] != statement@,
            decreases self.prepared@.len() - i,
        {
            if str_equal(self.prepared[i].as_str(), statement) {
                assert(texts[i as int] == statement@);
                return ;
            }
            i += 1;
        }
        self.prepared.push(statement.to_owned());
        assert(self.prepared.deep_view() =~= texts.push(statement@));
    }

    /// The statements to prepare on a connection that was opened.
    pub fn get_prepared_texts(&self) -> (r: &Vec<String>)
        ensures
            r.deep_view() == self.prepared_texts(),
    {
        &self.prepared
    }

    /// The view of the cluster that requests are planned on.
    pub closed spec fn cluster_data(&self) -> ClusterData {
        self.cluster
    }

    /// The counters of the session.
    pub closed spec fn counters(&self) -> Metrics {
        self.metrics
    }

    /// The load balancing policy as it stands.
    pub closed spec fn load_balancing(&self) -> L {
        self.load_balancer
    }

    /// The view of the cluster that requests are planned on.
    pub fn get_cluster_data(&self) -> (r: &ClusterData)
        ensures
            *r == self.cluster_data(),
    {
        &self.cluster
    }

    /// Puts a new view of the cluster in the place of the old one, as after
    /// a refresh of the topology. Requests that are under way keep their
    /// plans.
    pub fn set_cluster_data(&mut self, cluster: ClusterData)
        ensures
            final(self).cluster_data() == cluster,
            final(self).counters() == old(self).counters(),
            final(self).prepared_texts() == old(self).prepared_texts(),
            final(self).load_balancing() == old(self).load_balancing(),
            final(self).retry_template() == old(self).retry_template(),
    {
        self.cluster = cluster;
    }

    /// The counters of the session as they stand.
    pub fn get_metrics(&self) -> (r: MetricsView)
        ensures
            r.counters() == self.counters(),
    {
        MetricsView::new(self.metrics)
    }

    /// The retry policy for one request: a copy of the statement's own, or
    /// else of the session's, or else a default policy.
    pub fn retry_policy_for(&self, own: &Option<Arc<dyn RetryPolicyTemplate>>) -> (r:
        BoxedRetryPolicy)
        ensures
            r.is_fresh_copy(self.template_for(*own)),
            *own is None && !self.has_retry_policy() ==> r.policy is Some,
    {
        match own {
            Some(template) => template.clone_boxed(),
            None => match &self.retry_policy {
                Some(template) => template.clone_boxed(),
                None => BoxedRetryPolicy { policy: Some(Box::new(DefaultRetryPolicy::new())) },
            },
        }
    }

    /// The retry policy that the session was given, if any.
    pub closed spec fn retry_template(&self) -> Option<Arc<dyn RetryPolicyTemplate>> {
        self.retry_policy
    }

    /// Whether the session was given a retry policy.
    pub open spec fn has_retry_policy(&self) -> bool {
        self.retry_template() is Some
    }

    /// The retry policy of which the requests of a statement get their
    /// copies: the statement's own, or else the session's.
    pub open spec fn template_for(
        &self,
        own: Option<Arc<dyn RetryPolicyTemplate>>,
    ) -> Option<Arc<dyn RetryPolicyTemplate>> {
        if own is Some {
            own
        } else {
            self.retry_template()
        }
    }

    /// Plans a statement given as text: no token is known, so the plan is
    /// that of the load balancing policy for any statement.
    pub fn start_query(&mut self, query: &Query) -> (r: QueryRun)
        ensures
            is_plan(r@.plan, old(self).cluster_data().node_count()),
            r@.position == 0,
            is_empty_plan_error(r@.last_error),
            r@.is_idempotent == query@.is_idempotent,
            r@.consistency == query@.consistency,
            r.policy().is_fresh_copy(old(self).template_for(query@.retry_policy)),
            final(self).cluster_data() == old(self).cluster_data(),
            final(self).prepared_texts() == old(self).prepared_texts(),
            final(self).counters() == old(self).counters(),
            old(self).load_balancing().plans(
                StatementView { token: None, keyspace: None },
                &old(self).cluster_data(),
                &final(self).load_balancing(),
                r@.plan,
            ),
            final(self).retry_template() == old(self).retry_template(),
    {
        let retry_policy = self.retry_policy_for(query.get_retry_policy());
        let statement = Statement::default();
        let plan = self.load_balancer.plan(&statement, &self.cluster);
        QueryRun::new(plan, query.get_is_idempotent(), query.get_consistency(), retry_policy)
    }

    /// Plans a prepared statement with the values bound to it: the token
    /// of the row is computed, and the plan may begin with its replicas.
    /// Where no token can be computed, nothing is planned.
    pub fn start_execute(&mut self, prepared: &PreparedStatement, values: &SerializedValues) -> (r:
        Result<(QueryRun, Token), QueryError>)
        requires
            partition_key_fits(prepared@.metadata.pk_indexes, values@),
        ensures
            match r {
                Ok((run, token)) => {
                    &&& token_of(prepared@.metadata.pk_indexes, values@) == Ok::<
                        _,
                        PartitionKeyError,
                    >(token.value)
                    &&& is_plan(run@.plan, old(self).cluster_data().node_count())
                    &&& old(self).load_balancing().plans(
                        StatementView {
                            token: Some(token.value),
                            keyspace: prepared@.keyspace_name(),
                        },
                        &old(self).cluster_data(),
                        &final(self).load_balancing(),
                        run@.plan,
                    )
                    &&& run@.position == 0
                    &&& is_empty_plan_error(run@.last_error)
                    &&& run@.is_idempotent == prepared@.is_idempotent
                    &&& run@.consistency == prepared@.consistency
                    &&& run.policy().is_fresh_copy(
                        old(self).template_for(prepared@.retry_policy),
                    )
                },
                Err(e) => (token_of(prepared@.metadata.pk_indexes, values@) matches Err(cause)
                    && is_token_error(e, cause)) && final(self).load_balancing() == old(
                    self,
                ).load_balancing(),
            },
            final(self).cluster_data() == old(self).cluster_data(),
            final(self).prepared_texts() == old(self).prepared_texts(),
            final(self).counters() == old(self).counters(),
            final(self).retry_template() == old(self).retry_template(),
    {
        let token = calculate_token(prepared, values)?;
        let statement = Statement { token: Some(token), keyspace: prepared.get_keyspace_name() };
        let retry_policy = self.retry_policy_for(prepared.get_retry_policy());
        let plan = self.load_balancer.plan(&statement, &self.cluster);
        Ok(
            (
                QueryRun::new(
                    plan,
                    prepared.get_is_idempotent(),
                    prepared.get_consistency(),
                    retry_policy,
                ),
                token,
            ),
        )
    }

    /// Plans a batch, for which `value_lists` lists of values were given:
    /// one list for each statement, or the batch is refused.
    pub fn start_batch(&mut self, batch: &Batch, value_lists: usize) -> (r: Result<
        QueryRun,
        QueryError,
    >)
        ensures
            match r {
                Ok(run) => {
                    &&& value_lists == batch@.statements.len()
                    &&& is_plan(run@.plan, old(self).cluster_data().node_count())
                    &&& old(self).load_balancing().plans(
                        StatementView { token: None, keyspace: None },
                        &old(self).cluster_data(),
                        &final(self).load_balancing(),
                        run@.plan,
                    )
                    &&& run@.position == 0
                    &&& is_empty_plan_error(run@.last_error)
                    &&& run@.is_idempotent == batch@.is_idempotent
                    &&& run@.consistency == batch@.consistency
                    &&& run.policy().is_fresh_copy(old(self).template_for(batch@.retry_policy))
                },
                Err(e) => value_lists != batch@.statements.len() && (
                e matches QueryError::BadQuery(BadQuery::ValueLenMismatch(given, expected))
                    && given == value_lists && expected == batch@.statements.len())
                    && final(self).load_balancing() == old(self).load_balancing(),
            },
            final(self).cluster_data() == old(self).cluster_data(),
            final(self).prepared_texts() == old(self).prepared_texts(),
            final(self).counters() == old(self).counters(),
            final(self).retry_template() == old(self).retry_template(),
    {
        let statements = batch.get_statements().len();
        if value_lists != statements {
            return Err(QueryError::BadQuery(BadQuery::ValueLenMismatch(value_lists, statements)));
        }
        let retry_policy = self.retry_policy_for(batch.get_retry_policy());
        let statement = Statement::default();
        let plan = self.load_balancer.plan(&statement, &self.cluster);
        Ok(QueryRun::new(plan, batch.get_is_idempotent(), batch.get_consistency(), retry_policy))
    }

    /// Plans a statement given as text whose result is wanted page by
    /// page, and sets up the worker that fetches the pages.
    pub fn start_query_iter(&mut self, query: &Query) -> (r: PagingWorker)
        ensures
            is_plan(r@.plan, old(self).cluster_data().node_count()),
            r@.position == 0,
            r@.phase is Created,
            r@.paging_state is None,
            r@.token is None,
            is_empty_plan_error(r@.last_error),
            r@.is_idempotent == query@.is_idempotent,
            r@.consistency == query@.consistency,
            r.template() == old(self).template_for(query@.retry_policy),
            r.policy().is_fresh_copy(r.template()),
            final(self).cluster_data() == old(self).cluster_data(),
            final(self).prepared_texts() == old(self).prepared_texts(),
            final(self).counters() == old(self).counters(),
            old(self).load_balancing().plans(
                StatementView { token: None, keyspace: None },
                &old(self).cluster_data(),
                &final(self).load_balancing(),
                r@.plan,
            ),
            final(self).retry_template() == old(self).retry_template(),
    {
        let retry_policy = self.retry_template_for(query.get_retry_policy());
        let statement = Statement::default();
        let plan = self.load_balancer.plan(&statement, &self.cluster);
        PagingWorker::new(
            plan,
            None,
            query.get_is_idempotent(),
            query.get_consistency(),
            retry_policy,
        )
    }

    /// Plans a prepared statement whose result is wanted page by page, and
    /// sets up the worker that fetches the pages. The token of the row says
    /// which connection of a node is preferred; the plan is that for any
    /// statement. Where no token can be computed, nothing is planned.
    pub fn start_execute_iter(
        &mut self,
        prepared: &PreparedStatement,
        values: &SerializedValues,
    ) -> (r: Result<PagingWorker, QueryError>)
        requires
            partition_key_fits(prepared@.metadata.pk_indexes, values@),
        ensures
            match r {
                Ok(worker) => {
                    &&& worker@.token matches Some(token) && token_of(
                        prepared@.metadata.pk_indexes,
                        values@,
                    ) == Ok::<_, PartitionKeyError>(token.value)
                    &&& is_plan(worker@.plan, old(self).cluster_data().node_count())
                    &&& old(self).load_balancing().plans(
                        StatementView { token: None, keyspace: None },
                        &old(self).cluster_data(),
                        &final(self).load_balancing(),
                        worker@.plan,
                    )
                    &&& worker@.position == 0
                    &&& worker@.phase is Created
                    &&& worker@.paging_state is None
                    &&& is_empty_plan_error(worker@.last_error)
                    &&& worker@.is_idempotent == prepared@.is_idempotent
                    &&& worker@.consistency == prepared@.consistency
                    &&& worker.template() == old(self).template_for(prepared@.retry_policy)
                    &&& worker.policy().is_fresh_copy(worker.template())
                },
                Err(e) => (token_of(prepared@.metadata.pk_indexes, values@) matches Err(cause)
                    && is_token_error(e, cause)) && final(self).load_balancing() == old(
                    self,
                ).load_balancing(),
            },
            final(self).cluster_data() == old(self).cluster_data(),
            final(self).prepared_texts() == old(self).prepared_texts(),
            final(self).counters() == old(self).counters(),
            final(self).retry_template() == old(self).retry_template(),
    {
        let token = calculate_token(prepared, values)?;
        let retry_policy = self.retry_template_for(prepared.get_retry_policy());
        let statement = Statement::default();
        let plan = self.load_balancer.plan(&statement, &self.cluster);
        Ok(
            PagingWorker::new(
                plan,
                Some(token),
                prepared.get_is_idempotent(),
                prepared.get_consistency(),
                retry_policy,
            ),
        )
    }

    /// The retry policy of which the requests of one statement get their
    /// copies: the statement's own, or else the session's.
    pub fn retry_template_for(&self, own: &Option<Arc<dyn RetryPolicyTemplate>>) -> (r: Option<
        Arc<dyn RetryPolicyTemplate>,
    >)
        ensures
            r == self.template_for(*own),
    {
        match own {
            Some(_) => share_template(own),
            None => share_template(&self.retry_policy),
        }
    }

    /// Tells a paging worker that its connection is there, and counts the
    /// request for a page that follows.
    pub fn worker_connection_ready(&mut self, worker: &mut PagingWorker) -> (r: WorkerAction)
        ensures
            (final(worker)@, r.kind()) == old(worker)@.step(WorkerEvent::ConnectionReady),
            final(worker).same_policy(old(worker)),
            final(self).counters() == (if r.kind() is FetchPage {
                Metrics {
                    total_paged_queries: counted(old(self).counters().total_paged_queries),
                    ..old(self).counters()
                }
            } else {
                old(self).counters()
            }),
            final(self).cluster_data() == old(self).cluster_data(),
            final(self).prepared_texts() == old(self).prepared_texts(),
            final(self).load_balancing() == old(self).load_balancing(),
            final(self).retry_template() == old(self).retry_template(),
    {
        worker.connection_ready(&mut self.metrics)
    }

    /// Tells a paging worker that its request for a page failed, and counts
    /// the failure and, where the page is asked for again at once, the new
    /// request.
    pub fn worker_page_failed(&mut self, worker: &mut PagingWorker, error: QueryError) -> (r:
        WorkerAction)
        ensures
            old(worker).answers_failure(error, final(worker), r.kind()),
            final(self).counters() == counted_page_failure(
                old(worker)@.phase,
                r.kind(),
                old(self).counters(),
            ),
            final(self).cluster_data() == old(self).cluster_data(),
            final(self).prepared_texts() == old(self).prepared_texts(),
            final(self).load_balancing() == old(self).load_balancing(),
            final(self).retry_template() == old(self).retry_template(),
    {
        worker.page_failed(error, &mut self.metrics)
    }

    /// Tells a paging worker that the answer to its request was no page of
    /// rows: a failure like any other.
    pub fn worker_unexpected_response(&mut self, worker: &mut PagingWorker) -> (r: WorkerAction)
        ensures
            exists|error: QueryError|
                is_unexpected_response_error(error) && #[trigger] old(worker).answers_failure(
                    error,
                    final(worker),
                    r.kind(),
                ),
            final(self).counters() == counted_page_failure(
                old(worker)@.phase,
                r.kind(),
                old(self).counters(),
            ),
            final(self).cluster_data() == old(self).cluster_data(),
            final(self).prepared_texts() == old(self).prepared_texts(),
            final(self).load_balancing() == old(self).load_balancing(),
            final(self).retry_template() == old(self).retry_template(),
    {
        worker.unexpected_response(&mut self.metrics)
    }

    /// Tells a paging worker that its page was taken, and counts the request
    /// for the next page if one follows.
    pub fn worker_page_delivered(&mut self, worker: &mut PagingWorker) -> (r: WorkerAction)
        ensures
            (final(worker)@, r.kind()) == old(worker)@.step(WorkerEvent::PageDelivered),
            final(worker).same_policy(old(worker)),
            final(self).counters() == (if r.kind() is FetchPage {
                Metrics {
                    total_paged_queries: counted(old(self).counters().total_paged_queries),
                    ..old(self).counters()
                }
            } else {
                old(self).counters()
            }),
            final(self).cluster_data() == old(self).cluster_data(),
            final(self).prepared_texts() == old(self).prepared_texts(),
            final(self).load_balancing() == old(self).load_balancing(),
            final(self).retry_template() == old(self).retry_template(),
    {
        worker.page_delivered(&mut self.metrics)
    }

    /// Tells a paging worker what came of its request for a page: a page of
    /// rows is taken in; an error, of the server or of the connection, is a
    /// failure on which the retry policy has its say; and so is any other
    /// message, which is out of place.
    pub fn worker_response_received(
        &mut self,
        worker: &mut PagingWorker,
        response: Result<Response, QueryError>,
    ) -> (r: WorkerAction)
        ensures
            match response {
                Ok(Response::Result(QueryResult::Rows(rows))) => {
                    &&& (final(worker)@, r.kind()) == old(worker)@.step(
                        WorkerEvent::PageReceived(rows@.metadata.paging_state),
                    )
                    &&& final(worker).template() == old(worker).template()
                    &&& if old(worker)@.phase is Fetching {
                        final(worker).policy().is_fresh_copy(old(worker).template())
                    } else {
                        final(worker).policy() == old(worker).policy()
                    }
                },
                Ok(Response::Error(e)) => old(worker).answers_failure(
                    QueryError::DBError(e.error, e.reason),
                    final(worker),
                    r.kind(),
                ),
                Ok(_) => exists|error: QueryError|
                    is_unexpected_response_error(error) && #[trigger] old(worker).answers_failure(
                        error,
                        final(worker),
                        r.kind(),
                    ),
                Err(error) => old(worker).answers_failure(error, final(worker), r.kind()),
            },
            final(self).counters() == (match response {
                Ok(Response::Result(QueryResult::Rows(_))) => old(self).counters(),
                _ => counted_page_failure(old(worker)@.phase, r.kind(), old(self).counters()),
            }),
            final(self).cluster_data() == old(self).cluster_data(),
            final(self).prepared_texts() == old(self).prepared_texts(),
            final(self).load_balancing() == old(self).load_balancing(),
            final(self).retry_template() == old(self).retry_template(),
    {
        match response {
            Ok(Response::Result(QueryResult::Rows(rows))) => worker.page_received(rows),
            Ok(Response::Error(e)) => self.worker_page_failed(worker, e.into_query_error()),
            Ok(_) => self.worker_unexpected_response(worker),
            Err(error) => self.worker_page_failed(worker, error),
        }
    }

    /// Counts a request that is about to be sent.
    pub fn request_sent(&mut self)
        ensures
            final(self).counters() == (Metrics {
                total_nonpaged_queries: counted(old(self).counters().total_nonpaged_queries),
                ..old(self).counters()
            }),
            final(self).cluster_data() == old(self).cluster_data(),
            final(self).prepared_texts() == old(self).prepared_texts(),
            final(self).load_balancing() == old(self).load_balancing(),
            final(self).retry_template() == old(self).retry_template(),
    {
        self.metrics.inc_total_nonpaged_queries();
    }

    /// Records that a request succeeded after `latency_ms` milliseconds.
    pub fn request_succeeded(&mut self, latency_ms: u64)
        ensures
            final(self).counters() == (Metrics {
                latency_count: counted(old(self).counters().latency_count),
                latency_sum_ms: counted_by(old(self).counters().latency_sum_ms, latency_ms),
                ..old(self).counters()
            }),
            final(self).cluster_data() == old(self).cluster_data(),
            final(self).prepared_texts() == old(self).prepared_texts(),
            final(self).load_balancing() == old(self).load_balancing(),
            final(self).retry_template() == old(self).retry_template(),
    {
        self.metrics.log_query_latency(latency_ms);
    }

    /// Counts a request that failed, and lets the request's retry policy
    /// decide how it goes on.
    pub fn request_failed(&mut self, run: &mut QueryRun, error: QueryError) -> (r: RunAction)
        ensures
            final(run)@ == old(run)@.after_query_failure(
                error,
                old(run).policy().decision(error, old(run)@.is_idempotent, old(run)@.consistency),
            ),
            final(run).policy().follows(old(run).policy(), old(run)@.failure(error)),
            r == final(run)@.action(),
            final(self).counters() == (Metrics {
                failed_nonpaged_queries: counted(old(self).counters().failed_nonpaged_queries),
                ..old(self).counters()
            }),
            final(self).cluster_data() == old(self).cluster_data(),
            final(self).prepared_texts() == old(self).prepared_texts(),
            final(self).load_balancing() == old(self).load_balancing(),
            final(self).retry_template() == old(self).retry_template(),
    {
        self.metrics.inc_failed_nonpaged_queries();
        run.query_failed(error)
    }

    /// Makes a keyspace the one that the session uses: connections that
    /// are open are to be sent `USE` for it, and connections that are
    /// opened later begin with it. A name with a fault is refused before
    /// anything is sent, and changes nothing.
    pub fn use_keyspace(&mut self, keyspace_name: String, case_sensitive: bool) -> (r: Result<
        VerifiedKeyspaceName,
        QueryError,
    >)
        ensures
            match r {
                Ok(verified) => keyspace_name_fault(keyspace_name@, case_sensitive) is None
                    && verified@ == (VerifiedKeyspaceNameView {
                    name: keyspace_name@,
                    is_case_sensitive: case_sensitive,
                }) && (final(self).cluster_data().used_keyspace_view() matches Some(used)
                    && used@ == verified@),
                Err(e) => (e matches QueryError::BadQuery(BadQuery::BadKeyspaceName(fault))
                    && keyspace_name_fault(keyspace_name@, case_sensitive) == Some(fault@))
                    && final(self).cluster_data() == old(self).cluster_data(),
            },
            final(self).cluster_data().nodes_view() == old(self).cluster_data().nodes_view(),
            final(self).cluster_data().ring() == old(self).cluster_data().ring(),
            final(self).cluster_data().keyspaces_view() == old(
                self,
            ).cluster_data().keyspaces_view(),
            final(self).counters() == old(self).counters(),
            final(self).prepared_texts() == old(self).prepared_texts(),
            final(self).load_balancing() == old(self).load_balancing(),
            final(self).retry_template() == old(self).retry_template(),
    {
        match VerifiedKeyspaceName::new(keyspace_name, case_sensitive) {
            Ok(verified) => {
                self.cluster.set_used_keyspace(Some(verified.clone()));
                Ok(verified)
            },
            Err(e) => Err(QueryError::BadQuery(BadQuery::BadKeyspaceName(e))),
        }
    }
}

/// Rows that can be handed out as values of a type.
pub trait IntoTypedRows {
    /// The rows, to be handed out as values of `RowT`.
    fn into_typed<RowT: FromRow>(self) -> (r: TypedRowIter<RowT>);
}

/// Hands out the rows of a result as values of `RowT`, first row first.
pub struct TypedRowIter<RowT: FromRow> {
    rows: Vec<Row>,
    next_idx: usize,
    phantom_data: core::marker::PhantomData<RowT>,
}

impl<RowT: FromRow> TypedRowIter<RowT> {
    /// The rows that were not handed out yet.
    pub closed spec fn remaining(&self) -> Seq<Row> {
        if self.next_idx <= self.rows@.len() {
            self.rows@.skip(self.next_idx as int)
        } else {
            Seq::empty()
        }
    }

    /// Hands out the next row as a value of `RowT`, or the reason why it is
    /// none; `None` after the last row.
    pub fn next(&mut self) -> (r: Option<Result<RowT, FromRowError>>)
        ensures
            match r {
                None => old(self).remaining().len() == 0 && final(self).remaining().len() == 0,
                Some(converted) => old(self).remaining().len() > 0 && final(self).remaining()
                    == old(self).remaining().skip(1) && (match converted {
                    Ok(v) => RowT::row_fault(old(self).remaining()[0]) is None
                        && RowT::row_converts(old(self).remaining()[0], v),
                    Err(e) => RowT::row_fault(old(self).remaining()[0]) == Some(e),
                }),
            },
    {
        if self.next_idx >= self.rows.len() {
            return None;
        }
        let ghost before = self.rows@;
        let mut row = Row::default();
        core::mem::swap(&mut self.rows[self.next_idx], &mut row);
        self.next_idx += 1;
        assert(self.rows@.skip(self.next_idx as int) =~= before.skip(self.next_idx - 1).skip(1));
        Some(RowT::from_row(row))
    }
}

impl IntoTypedRows for Vec<Row> {
    fn into_typed<RowT: FromRow>(self) -> (r: TypedRowIter<RowT>)
        ensures
            r.remaining() == self@,
    {
        let r = TypedRowIter { rows: self, next_idx: 0, phantom_data: core::marker::PhantomData };
        assert(r.remaining() =~= self@);
        r
    }
}

/// The error of a message that is out of place, with the words that say
/// where.
pub open spec fn is_protocol_error(e: QueryError, message: Seq<char>) -> bool {
    e matches QueryError::ProtocolError(m) && m@ == message
}

/// What the caller of a query gets for the response of the server: the
/// rows, if the response is a result with rows; nothing, if it is any other
/// result; the error, if it is one. Any other message is out of place.
pub fn rows_of_response(response: Response) -> (r: Result<Option<Vec<Row>>, QueryError>)
    ensures
        match response {
            Response::Error(e) => r == Err::<Option<Vec<Row>>, _>(
                QueryError::DBError(e.error, e.reason),
            ),
            Response::Result(QueryResult::Rows(rows)) => r == Ok::<_, QueryError>(Some(rows.rows)),
            Response::Result(_) => r == Ok::<Option<Vec<Row>>, QueryError>(None),
            _ => r matches Err(e) && is_protocol_error(e, "QUERY: Unexpected server response"@),
        },
{
    match response {
        Response::Error(e) => Err(e.into_query_error()),
        Response::Result(QueryResult::Rows(rows)) => Ok(Some(rows.rows)),
        Response::Result(_) => Ok(None),
        _ => Err(QueryError::ProtocolError("QUERY: Unexpected server response")),
    }
}

/// Tells a response that is an error from one that is none: an error from
/// the server is a failure of the request, on which the retry policy has
/// its say.
pub fn failure_of_response(response: Response) -> (r: Result<Response, QueryError>)
    ensures
        match response {
            Response::Error(e) => r == Err::<Response, _>(QueryError::DBError(e.error, e.reason)),
            _ => r == Ok::<_, QueryError>(response),
        },
{
    match response {
        Response::Error(e) => Err(e.into_query_error()),
        other => Ok(other),
    }
}

/// The prepared statement that the response to a `PREPARE` of `statement`
/// brings, or the error that it is. Any other message is out of place.
pub fn prepared_of_response(response: Response, statement: &str) -> (r: Result<
    PreparedStatement,
    QueryError,
>)
    ensures
        match response {
            Response::Error(e) => r == Err::<PreparedStatement, _>(
                QueryError::DBError(e.error, e.reason),
            ),
            Response::Result(QueryResult::Prepared(prepared)) => r matches Ok(p) && p@ == (
            PreparedStatementView {
                id: prepared@.id,
                metadata: prepared@.prepared_metadata,
                statement: statement@,
                page_size: None,
                consistency: Consistency::Quorum,
                is_idempotent: false,
                retry_policy: None,
                tracing: false,
            }),
            _ => r matches Err(e) && is_protocol_error(e, "PREPARE: Unexpected server response"@),
        },
{
    match response {
        Response::Error(e) => Err(e.into_query_error()),
        Response::Result(QueryResult::Prepared(prepared)) => Ok(
            PreparedStatement::new(prepared.id, prepared.prepared_metadata, statement.to_owned()),
        ),
        _ => Err(QueryError::ProtocolError("PREPARE: Unexpected server response")),
    }
}

/// Checks the response of a connection to `USE`: the keyspace is set, or
/// the response is an error, or it is out of place.
pub fn keyspace_set_by_response(response: Response) -> (r: Result<(), QueryError>)
    ensures
        match response {
            Response::Error(e) => r == Err::<(), _>(QueryError::DBError(e.error, e.reason)),
            Response::Result(QueryResult::SetKeyspace(_)) => r is Ok,
            _ => r matches Err(e) && is_protocol_error(
                e,
                "USE <keyspace_name> returned unexpected response"@,
            ),
        },
{
    match response {
        Response::Error(e) => Err(e.into_query_error()),
        Response::Result(QueryResult::SetKeyspace(_)) => Ok(()),
        _ => Err(QueryError::ProtocolError("USE <keyspace_name> returned unexpected response")),
    }
}

} // verus!
