use scylla::frame::response::result::InetAddress;
use scylla::routing::Token;
use scylla::transport::cluster::{
    contains, ClusterData, Keyspace, Node, RingEntry, SocketAddress, Strategy,
};
use scylla::transport::connection::VerifiedKeyspaceName;
use scylla::transport::load_balancing::{
    LoadBalancingPolicy, RoundRobinPolicy, Statement, TokenAwarePolicy,
};

fn node(last: u8, tokens: &[i64]) -> Node {
    Node {
        address: SocketAddress {
            ip: InetAddress::V4([10, 0, 0, last]),
            port: 9042,
        },
        datacenter: None,
        rack: None,
        tokens: tokens.iter().map(|t| Token { value: *t }).collect(),
    }
}

fn keyspace(name: &str, strategy: Strategy) -> Keyspace {
    Keyspace {
        name: name.to_string(),
        strategy,
    }
}

fn cluster() -> ClusterData {
    ClusterData::new(
        vec![
            node(0, &[50, -10, 300]),
            node(1, &[100, 0]),
            node(2, &[200]),
            node(3, &[]),
        ],
        vec![
            keyspace(
                "rf2",
                Strategy::SimpleStrategy {
                    replication_factor: 2,
                },
            ),
            keyspace(
                "rf3",
                Strategy::SimpleStrategy {
                    replication_factor: 3,
                },
            ),
            keyspace("local", Strategy::Other),
            keyspace(
                "rf2",
                Strategy::SimpleStrategy {
                    replication_factor: 9,
                },
            ),
        ],
        None,
    )
}

fn entry(token: i64, node: usize) -> RingEntry {
    RingEntry {
        token: Token { value: token },
        node,
    }
}

fn token(value: i64) -> Token {
    Token { value }
}

#[test]
fn ring_is_sorted_by_token() {
    let cluster = cluster();
    assert_eq!(
        cluster.get_ring(),
        &vec![
            entry(-10, 0),
            entry(0, 1),
            entry(50, 0),
            entry(100, 1),
            entry(200, 2),
            entry(300, 0),
        ]
    );
    assert_eq!(cluster.get_nodes().len(), 4);
    assert!(cluster.get_used_keyspace().is_none());
    let with_keyspace = ClusterData::new(
        vec![],
        vec![],
        Some(VerifiedKeyspaceName::new("ks".to_string(), false).unwrap()),
    );
    assert!(with_keyspace.get_ring().is_empty());
    assert_eq!(
        with_keyspace.get_used_keyspace().as_ref().map(|k| k.as_str()),
        Some("ks")
    );
    let mut cluster = cluster;
    cluster.set_used_keyspace(Some(
        VerifiedKeyspaceName::new("other".to_string(), false).unwrap(),
    ));
    assert_eq!(
        cluster.get_used_keyspace().as_ref().map(|k| k.as_str()),
        Some("other")
    );
    assert_eq!(cluster.get_ring().len(), 6);
    cluster.set_used_keyspace(None);
    assert!(cluster.get_used_keyspace().is_none());
}

#[test]
fn ring_keeps_equal_tokens_of_several_nodes() {
    let cluster = ClusterData::new(vec![node(0, &[5, 5]), node(1, &[5])], vec![], None);
    let ring = cluster.get_ring();
    assert_eq!(ring.len(), 3);
    assert!(ring.iter().all(|e| e.token.value == 5));
    assert_eq!(ring.iter().filter(|e| e.node == 0).count(), 2);
    assert_eq!(ring.iter().filter(|e| e.node == 1).count(), 1);
}

#[test]
fn ring_position_is_the_first_token_not_below() {
    let cluster = cluster();
    assert_eq!(cluster.ring_position(token(i64::MIN)), 0);
    assert_eq!(cluster.ring_position(token(-10)), 0);
    assert_eq!(cluster.ring_position(token(-9)), 1);
    assert_eq!(cluster.ring_position(token(0)), 1);
    assert_eq!(cluster.ring_position(token(1)), 2);
    assert_eq!(cluster.ring_position(token(200)), 4);
    assert_eq!(cluster.ring_position(token(201)), 5);
    assert_eq!(cluster.ring_position(token(300)), 5);
    assert_eq!(cluster.ring_position(token(301)), 6);
    let empty = ClusterData::new(vec![], vec![], None);
    assert_eq!(empty.ring_position(token(0)), 0);
}

#[test]
fn replicas_walk_the_ring_from_the_token() {
    let cluster = cluster();
    assert_eq!(cluster.replicas_for_token(token(-10), 1), vec![0]);
    assert_eq!(cluster.replicas_for_token(token(-9), 1), vec![1]);
    assert_eq!(cluster.replicas_for_token(token(1), 2), vec![0, 1]);
    assert_eq!(cluster.replicas_for_token(token(60), 3), vec![1, 2, 0]);
    assert_eq!(cluster.replicas_for_token(token(150), 2), vec![2, 0]);
    // Beyond the last token the walk starts at the first.
    assert_eq!(cluster.replicas_for_token(token(301), 2), vec![0, 1]);
    assert_eq!(cluster.replicas_for_token(token(i64::MAX), 3), vec![0, 1, 2]);
    // Node 3 owns no token: it is never a replica, however many are wanted.
    assert_eq!(cluster.replicas_for_token(token(60), 10), vec![1, 2, 0]);
    assert_eq!(cluster.replicas_for_token(token(60), 0), Vec::<usize>::new());
    let empty = ClusterData::new(vec![node(0, &[])], vec![], None);
    assert_eq!(empty.replicas_for_token(token(1), 3), Vec::<usize>::new());
}

#[test]
fn strategies_by_keyspace_name() {
    let cluster = cluster();
    assert_eq!(
        cluster.get_strategy("rf2"),
        Some(Strategy::SimpleStrategy {
            replication_factor: 2
        })
    );
    assert_eq!(cluster.get_strategy("local"), Some(Strategy::Other));
    assert_eq!(cluster.get_strategy("RF2"), None);
    assert_eq!(cluster.get_strategy(""), None);
    assert_eq!(
        Strategy::SimpleStrategy {
            replication_factor: 4
        }
        .replicas_wanted(),
        4
    );
    assert_eq!(Strategy::Other.replicas_wanted(), 1);
    assert!(contains(&vec![1, 2, 3], 2));
    assert!(!contains(&vec![1, 2, 3], 4));
    assert!(!contains(&vec![], 0));
}

#[test]
fn round_robin_starts_one_node_further_each_time() {
    let cluster = cluster();
    let mut policy = RoundRobinPolicy::new();
    let statement = Statement::default();
    assert_eq!(policy.plan(&statement, &cluster), vec![0, 1, 2, 3]);
    assert_eq!(policy.plan(&statement, &cluster), vec![1, 2, 3, 0]);
    assert_eq!(policy.plan(&statement, &cluster), vec![2, 3, 0, 1]);
    assert_eq!(policy.plan(&statement, &cluster), vec![3, 0, 1, 2]);
    assert_eq!(policy.plan(&statement, &cluster), vec![0, 1, 2, 3]);
    let nothing = ClusterData::new(vec![], vec![], None);
    assert_eq!(policy.plan(&statement, &nothing), Vec::<usize>::new());
}

#[test]
fn token_aware_puts_replicas_first() {
    let cluster = cluster();
    let mut policy = TokenAwarePolicy::new(RoundRobinPolicy::new());
    let at = |value: i64, keyspace: Option<&'static str>| Statement {
        token: Some(token(value)),
        keyspace,
    };
    // Replicas 1, 2 of token 60 at replication factor 2, then the round 0, 1, 2, 3 less them.
    assert_eq!(policy.plan(&at(60, Some("rf2")), &cluster), vec![1, 2, 0, 3]);
    // The round now starts at node 1.
    assert_eq!(
        policy.plan(&at(60, Some("rf3")), &cluster),
        vec![1, 2, 0, 3]
    );
    // An unknown keyspace, no keyspace and any other strategy: the owner alone.
    assert_eq!(
        policy.plan(&at(150, Some("unknown")), &cluster),
        vec![2, 3, 0, 1]
    );
    assert_eq!(policy.plan(&at(150, None), &cluster), vec![2, 3, 0, 1]);
    assert_eq!(
        policy.plan(&at(150, Some("local")), &cluster),
        vec![2, 0, 1, 3]
    );
    // Without a token the child policy decides alone.
    assert_eq!(
        policy.plan(&Statement::default(), &cluster),
        vec![1, 2, 3, 0]
    );
    let with_keyspace_only = Statement {
        token: None,
        keyspace: Some("rf2"),
    };
    assert_eq!(policy.plan(&with_keyspace_only, &cluster), vec![2, 3, 0, 1]);
}

#[test]
fn ring_entry_goes_before_entries_of_its_token() {
    let cluster = ClusterData::new(
        vec![node(0, &[7, 7, 3]), node(1, &[7, 1]), node(2, &[3])],
        Vec::new(),
        None,
    );
    assert_eq!(
        cluster.get_ring(),
        &vec![
            entry(1, 1),
            entry(3, 2),
            entry(3, 0),
            entry(7, 1),
            entry(7, 0),
            entry(7, 0),
        ]
    );
    // The replicas of a token are met in the order of the ring.
    assert_eq!(cluster.replicas_for_token(token(2), 3), vec![2, 0, 1]);
    assert_eq!(cluster.replicas_for_token(token(4), 3), vec![1, 0, 2]);
}
