use scylla::transport::session::query_is_setting_keyspace;

#[test]
fn test_query_is_setting_keyspace() {
    assert!(query_is_setting_keyspace("use some_keyspace"));
    assert!(query_is_setting_keyspace("UsE anotherKeySpace;"));
    assert!(query_is_setting_keyspace("USE SCREAMINGKEYSPACE"));
    assert!(!query_is_setting_keyspace("select * from users;"));
    assert!(!query_is_setting_keyspace("us"));
    assert!(!query_is_setting_keyspace(""));
}

#[test]
fn use_prefix_needs_the_space() {
    assert!(query_is_setting_keyspace("use "));
    assert!(query_is_setting_keyspace("uSE \"Ks\""));
    assert!(!query_is_setting_keyspace("use"));
    assert!(!query_is_setting_keyspace("user_table"));
    assert!(!query_is_setting_keyspace(" use ks"));
    assert!(!query_is_setting_keyspace("üse ks"));
    assert!(!query_is_setting_keyspace("use\tks"));
}
