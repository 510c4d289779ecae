use nu_plugin_mssql::args::{ArgError, ArgValue, ConnectionArgs, QuerySource, Span, Spanned};
use nu_plugin_mssql::connect::{
    config_from_args, get_auth_method, handshake_error, AuthMethod, ConnectConfig,
    ConnectionError, Endpoint, ErrorReport, DEFAULT_PORT, LOGIN_FAILED_CODE,
};
use nu_plugin_mssql::DEFAULT_BUFFER_SIZE;

fn sp(start: usize, end: usize) -> Span {
    Span { start, end }
}

fn text(name: &str, v: &str, s: Span) -> (String, Option<ArgValue>) {
    (name.to_string(), Some(ArgValue::Text(v.to_string(), s)))
}

fn no_args() -> ConnectionArgs {
    ConnectionArgs::from_call(&vec![], None).unwrap()
}

#[test]
fn defaults_without_flags() {
    let a = no_args();
    assert_eq!(a.server, None);
    assert_eq!(a.buffer_size, DEFAULT_BUFFER_SIZE);
    assert_eq!(a.buffer_size, 10);
    assert_eq!(a.trust_cert, None);
}

#[test]
fn flags_are_read_and_later_ones_win() {
    let named = vec![
        text("server", "db1", sp(0, 3)),
        text("database", "sales", sp(4, 9)),
        ("instance".to_string(), None),
        text("server", "db2", sp(10, 13)),
        ("row-buffer".to_string(), Some(ArgValue::Int(3, sp(14, 15)))),
        text("unknown", "x", sp(16, 17)),
    ];
    let a = ConnectionArgs::from_call(&named, Some(sp(20, 30))).unwrap();
    assert_eq!(a.server, Some(Spanned { item: "db2".to_string(), span: sp(10, 13) }));
    assert_eq!(a.database, Some(Spanned { item: "sales".to_string(), span: sp(4, 9) }));
    assert_eq!(a.instance, None);
    assert_eq!(a.buffer_size, 3);
    assert_eq!(a.trust_cert, Some(sp(20, 30)));
}

#[test]
fn malformed_flags_are_errors() {
    let zero = vec![("row-buffer".to_string(), Some(ArgValue::Int(0, sp(1, 2))))];
    assert_eq!(ConnectionArgs::from_call(&zero, None), Err(ArgError::InvalidBufferSize(sp(1, 2))));
    let word = vec![text("row-buffer", "ten", sp(3, 6))];
    assert_eq!(ConnectionArgs::from_call(&word, None), Err(ArgError::InvalidBufferSize(sp(3, 6))));
    let number = vec![("server".to_string(), Some(ArgValue::Int(5, sp(7, 8))))];
    assert_eq!(ConnectionArgs::from_call(&number, None), Err(ArgError::NotText(sp(7, 8))));
}

#[test]
fn query_source_is_first_query_or_file() {
    let named = vec![
        text("server", "db", sp(0, 2)),
        ("query".to_string(), None),
        text("file", "q.sql", sp(3, 8)),
        text("query", "SELECT 1", sp(9, 17)),
    ];
    assert_eq!(QuerySource::from_call(&named), Err(ArgError::QueryAndFile(sp(3, 8))));
    let file_only = vec![("query".to_string(), None), text("file", "q.sql", sp(3, 8)), text("file", "r.sql", sp(9, 14))];
    assert_eq!(QuerySource::from_call(&file_only), Ok(QuerySource::File("q.sql".to_string(), sp(3, 8))));
    let not_text = vec![("query".to_string(), Some(ArgValue::Int(1, sp(0, 1))))];
    assert_eq!(QuerySource::from_call(&not_text), Err(ArgError::NotText(sp(0, 1))));
    let q = vec![text("query", "SELECT 1", sp(9, 17))];
    assert_eq!(QuerySource::from_call(&q), Ok(QuerySource::Query("SELECT 1".to_string(), sp(9, 17))));
    assert_eq!(QuerySource::from_call(&vec![text("server", "db", sp(0, 2))]), Err(ArgError::NoQuery));
}

#[test]
fn flag_errors_have_messages() {
    assert_eq!(ArgError::NoQuery.message(), "No query specified");
    assert_eq!(ArgError::QueryAndFile(sp(0, 1)).message(), "Give either a query or a query file, not both");
    assert_eq!(ArgError::NotText(sp(0, 1)).message(), "Expected text for this flag");
    assert_eq!(ArgError::InvalidBufferSize(sp(0, 1)).message(), "The row buffer size must be a positive integer");
}

#[test]
fn password_only_uses_default_user() {
    let named = vec![text("password", "p", sp(0, 1))];
    let a = ConnectionArgs::from_call(&named, None).unwrap();
    let c = config_from_args(&a, false).unwrap();
    assert_eq!(
        c,
        ConnectConfig {
            host: "localhost".to_string(),
            database: "master".to_string(),
            endpoint: Endpoint::Port(DEFAULT_PORT),
            auth: AuthMethod::SqlServer { user: "sa".to_string(), password: "p".to_string() },
            trust_cert: false,
        }
    );
    assert_eq!(DEFAULT_PORT, 1433);
}

#[test]
fn user_without_password_fails_at_user() {
    let named = vec![text("user", "alice", sp(5, 10)), text("server", "db", sp(11, 13))];
    let a = ConnectionArgs::from_call(&named, Some(sp(0, 1))).unwrap();
    assert_eq!(config_from_args(&a, true), Err(ConnectionError::UserWithoutPassword(sp(5, 10))));
    assert_eq!(get_auth_method(&a, false), Err(ConnectionError::UserWithoutPassword(sp(5, 10))));
}

#[test]
fn full_credentials_and_instance() {
    let named = vec![
        text("user", "bob", sp(0, 3)),
        text("password", "secret", sp(4, 10)),
        text("instance", "SQL2022", sp(11, 18)),
        text("server", "db.example", sp(19, 29)),
    ];
    let a = ConnectionArgs::from_call(&named, Some(sp(30, 31))).unwrap();
    let c = config_from_args(&a, false).unwrap();
    assert_eq!(c.host, "db.example".to_string());
    assert_eq!(c.endpoint, Endpoint::Instance("SQL2022".to_string()));
    assert_eq!(c.auth, AuthMethod::SqlServer { user: "bob".to_string(), password: "secret".to_string() });
    assert!(c.trust_cert);
}

#[test]
fn no_credentials_follow_the_platform() {
    let a = no_args();
    assert_eq!(get_auth_method(&a, true), Ok(AuthMethod::Integrated));
    assert_eq!(get_auth_method(&a, false), Ok(AuthMethod::NoAuth));
}

#[test]
fn handshake_errors_are_classified() {
    let auth = AuthMethod::SqlServer { user: "sa".to_string(), password: "p".to_string() };
    assert_eq!(
        handshake_error(Some(LOGIN_FAILED_CODE), "login".to_string(), auth.clone()),
        ConnectionError::LoginFailed(auth.clone())
    );
    assert_eq!(
        handshake_error(Some(4060), "no db".to_string(), auth.clone()),
        ConnectionError::ConnectionError("no db".to_string())
    );
    assert_eq!(
        handshake_error(None, "eof".to_string(), auth),
        ConnectionError::ConnectionError("eof".to_string())
    );
}

#[test]
fn reports_never_show_the_password() {
    let e = ConnectionError::LoginFailed(AuthMethod::SqlServer {
        user: "alice".to_string(),
        password: "hunter2".to_string(),
    });
    let r = e.to_shell_error();
    assert_eq!(r.msg, "Login failed for user \"alice\", password: <HIDDEN>".to_string());
    assert!(!r.msg.contains("hunter2"));
    assert_eq!(
        ConnectionError::UserWithoutPassword(sp(2, 7)).to_shell_error(),
        ErrorReport {
            msg: "Invalid credentials".to_string(),
            label: Some(("User specified without password".to_string(), sp(2, 7))),
        }
    );
    assert_eq!(
        ConnectionError::SetupError("refused".to_string()).to_shell_error().msg,
        "Error while setting up connection: refused".to_string()
    );
    assert_eq!(
        ConnectionError::ConnectionError("reset".to_string()).to_shell_error().msg,
        "Error while connecting to database: reset".to_string()
    );
    assert_eq!(
        ConnectionError::LoginFailed(AuthMethod::NoAuth).to_shell_error().msg,
        "Login failed for none auth".to_string()
    );
    assert_eq!(
        ConnectionError::LoginFailed(AuthMethod::Integrated).to_shell_error().msg,
        "Login failed for integrated auth".to_string()
    );
}
