use nu_plugin_mssql::args::{ArgValue, ConnectionArgs, Span};
use nu_plugin_mssql::commands::{Connect, Mssql, MssqlConnection, MssqlPlugin, MssqlPluginQuery, Query};
use nu_plugin_mssql::connect::{AuthMethod, ConnectionError, Endpoint};
use nu_plugin_mssql::pool::{Acquire, ConnectionPool};

fn args(user: &str, password: Option<&str>, buffer: Option<i64>) -> ConnectionArgs {
    let s = Span { start: 0, end: 1 };
    let mut named = vec![("user".to_string(), Some(ArgValue::Text(user.to_string(), s)))];
    if let Some(p) = password {
        named.push(("password".to_string(), Some(ArgValue::Text(p.to_string(), s))));
    }
    if let Some(b) = buffer {
        named.push(("row-buffer".to_string(), Some(ArgValue::Int(b, s))));
    }
    ConnectionArgs::from_call(&named, None).unwrap()
}

#[test]
fn key_ignores_password() {
    let a = args("alice", Some("one"), None).pool_key();
    let b = args("alice", Some("two"), None).pool_key();
    let c = args("bob", Some("one"), None).pool_key();
    let d = args("alice", Some("one"), Some(4)).pool_key();
    assert!(a == b);
    assert!(a != c);
    assert!(a != d);
}

#[test]
fn get_or_create_keeps_first_connection() {
    let mut pool: ConnectionPool<&str> = ConnectionPool::new();
    let key = args("alice", Some("pw"), None).pool_key();
    assert_eq!(pool.get(&key, true), None);
    assert_eq!(pool.insert(key.clone(), "first"), (0, None));
    assert_eq!(pool.insert(key.clone(), "second"), (0, Some("second")));
    assert_eq!(pool.insert(key.clone(), "third"), (0, Some("third")));
    assert_eq!(pool.len(), 1);
    assert_eq!(*pool.connection(0), "first");
    assert_eq!(pool.reference_count(&key), Some(3));
    assert_eq!(pool.get(&key, true), Some(0));
    assert_eq!(pool.reference_count(&key), Some(4));
    assert_eq!(pool.get(&key, false), Some(0));
    assert_eq!(pool.reference_count(&key), Some(4));
}

#[test]
fn distinct_keys_get_distinct_slots() {
    let mut pool: ConnectionPool<u32> = ConnectionPool::new();
    let a = args("alice", Some("pw"), None).pool_key();
    let b = args("bob", Some("pw"), None).pool_key();
    assert_eq!(pool.insert(a.clone(), 1), (0, None));
    assert_eq!(pool.insert(b.clone(), 2), (1, None));
    assert_eq!(pool.get(&b, false), Some(1));
    assert_eq!(*pool.connection(1), 2);
    pool.release(1);
    assert_eq!(pool.reference_count(&b), Some(0));
    pool.release(1);
    assert_eq!(pool.reference_count(&b), Some(0));
    pool.release(7);
    assert_eq!(pool.len(), 2);
}

#[test]
fn close_hands_over_every_connection() {
    let mut pool: ConnectionPool<u32> = ConnectionPool::new();
    pool.insert(args("a", Some("p"), None).pool_key(), 10);
    pool.insert(args("b", Some("p"), None).pool_key(), 20);
    pool.insert(args("a", Some("q"), None).pool_key(), 30);
    assert_eq!(pool.close(), vec![10, 20]);
    assert_eq!(pool.len(), 0);
    assert_eq!(pool.close(), Vec::<u32>::new());
}

#[test]
fn plugin_starts_with_empty_pool() {
    let plugin: MssqlPlugin<u8> = MssqlPlugin::new();
    assert_eq!(plugin.connection_pool.len(), 0);
}

#[test]
fn command_names() {
    assert_eq!(Mssql.name(), "mssql");
    assert_eq!(Mssql.search_terms(), vec!["mssql"]);
    assert_eq!(Connect.name(), "mssql connect");
    assert_eq!(Query.name(), "mssql query");
    assert_eq!(Query.usage(), "Run a query against a MSSQL database");
    assert_eq!(MssqlConnection.name(), "mssql connect");
    assert_eq!(MssqlPluginQuery.name(), "mssql");
}

#[test]
fn acquire_uses_pooled_or_says_how_to_open() {
    let mut pool: ConnectionPool<u32> = ConnectionPool::new();
    let a = args("alice", Some("pw"), None);
    match pool.acquire(&a, false) {
        Acquire::Open(c) => {
            assert_eq!(c.host, "localhost".to_string());
            assert_eq!(c.endpoint, Endpoint::Port(1433));
            assert_eq!(c.auth, AuthMethod::SqlServer { user: "alice".to_string(), password: "pw".to_string() });
        }
        _ => panic!("expected a configuration to open"),
    }
    assert_eq!(pool.len(), 0);
    pool.insert(a.pool_key(), 5);
    assert!(matches!(pool.acquire(&args("alice", Some("other"), None), false), Acquire::Use(0)));
    assert_eq!(pool.reference_count(&a.pool_key()), Some(2));
    let s = Span { start: 0, end: 1 };
    match pool.acquire(&args("carol", None, None), false) {
        Acquire::Fail(e) => assert_eq!(e, ConnectionError::UserWithoutPassword(s)),
        _ => panic!("expected a credential error"),
    }
}

#[test]
fn password_only_connection_is_pooled_and_found() {
    let s = Span { start: 0, end: 1 };
    let named = vec![("password".to_string(), Some(ArgValue::Text("p".to_string(), s)))];
    let a = ConnectionArgs::from_call(&named, None).unwrap();
    let mut pool: ConnectionPool<&str> = ConnectionPool::new();
    match pool.acquire(&a, false) {
        Acquire::Open(c) => {
            assert_eq!(c.auth, AuthMethod::SqlServer { user: "sa".to_string(), password: "p".to_string() });
            assert_eq!(c.database, "master".to_string());
        }
        _ => panic!("expected a configuration to open"),
    }
    let (slot, back) = pool.insert(a.pool_key(), "session");
    assert_eq!(back, None);
    assert_eq!(pool.get(&a.pool_key(), false), Some(slot));
    assert_eq!(*pool.connection(slot), "session");
}
