//! What a connection is opened with, and how opening one can fail.

use vstd::prelude::*;
use vstd::string::*;
use crate::args::{ConnectionArgs, Span, Spanned};

verus! {

/// The server port used when no named instance is given.
pub const DEFAULT_PORT: u16 = 1433;

/// The server status code of a rejected login.
pub const LOGIN_FAILED_CODE: u32 = 18456;

/// How the client authenticates.
#[derive(Clone, Debug, PartialEq)]
pub enum AuthMethod {
    /// A SQL Server login with user name and password.
    SqlServer { user: String, password: String },
    /// The operating system's integrated security.
    Integrated,
    /// No authentication.
    NoAuth,
}

/// Where the server is reached.
#[derive(Clone, Debug, PartialEq)]
pub enum Endpoint {
    /// A named instance, resolved through the server's browser service.
    Instance(String),
    /// A TCP port on the host.
    Port(u16),
}

/// Everything needed to open a session.
#[derive(Clone, Debug, PartialEq)]
pub struct ConnectConfig {
    pub host: String,
    pub database: String,
    pub endpoint: Endpoint,
    pub auth: AuthMethod,
    pub trust_cert: bool,
}

/// Why a connection could not be opened.
#[derive(Clone, Debug, PartialEq)]
pub enum ConnectionError {
    /// A user name was given without a password; the span is the user name's.
    UserWithoutPassword(Span),
    /// The server rejected the login made with this method.
    LoginFailed(AuthMethod),
    /// The transport to the server could not be set up.
    SetupError(String),
    /// The protocol handshake failed for another reason.
    ConnectionError(String),
}

/// An error as shown to the caller: a message and an optional labelled span.
#[derive(Clone, Debug, PartialEq)]
pub struct ErrorReport {
    pub msg: String,
    pub label: Option<(String, Span)>,
}

/// The content of an [`AuthMethod`].
pub enum AuthView {
    SqlServer { user: Seq<char>, password: Seq<char> },
    Integrated,
    NoAuth,
}

impl View for AuthMethod {
    type V = AuthView;

    open spec fn view(&self) -> AuthView {
        match self {
            AuthMethod::SqlServer { user, password } => AuthView::SqlServer {
                user: user@,
                password: password@,
            },
            AuthMethod::Integrated => AuthView::Integrated,
            AuthMethod::NoAuth => AuthView::NoAuth,
        }
    }
}

/// The content of an [`Endpoint`].
pub enum EndpointView {
    Instance(Seq<char>),
    Port(u16),
}

impl View for Endpoint {
    type V = EndpointView;

    open spec fn view(&self) -> EndpointView {
        match self {
            Endpoint::Instance(s) => EndpointView::Instance(s@),
            Endpoint::Port(p) => EndpointView::Port(*p),
        }
    }
}

/// The content of a [`ConnectConfig`].
pub struct ConfigView {
    pub host: Seq<char>,
    pub database: Seq<char>,
    pub endpoint: EndpointView,
    pub auth: AuthView,
    pub trust_cert: bool,
}

impl View for ConnectConfig {
    type V = ConfigView;

    open spec fn view(&self) -> ConfigView {
        ConfigView {
            host: self.host@,
            database: self.database@,
            endpoint: self.endpoint@,
            auth: self.auth@,
            trust_cert: self.trust_cert,
        }
    }
}

/// The authentication that the credentials ask for, or the span of a user
/// name given without a password. `integrated_default` says whether this
/// platform falls back to integrated security when no credentials are given.
pub open spec fn auth_for(
    user: Option<Spanned>,
    password: Option<Spanned>,
    integrated_default: bool,
) -> Result<AuthView, Span> {
    match (user, password) {
        (Some(u), Some(p)) => Ok(AuthView::SqlServer { user: u.item@, password: p.item@ }),
        (None, Some(p)) => Ok(AuthView::SqlServer { user: "sa"@, password: p.item@ }),
        (Some(u), None) => Err(u.span),
        (None, None) => Ok(
            if integrated_default {
                AuthView::Integrated
            } else {
                AuthView::NoAuth
            },
        ),
    }
}

/// The text given, or `default` when none was.
pub open spec fn text_or(t: Option<Spanned>, default: Seq<char>) -> Seq<char> {
    match t {
        Some(s) => s.item@,
        None => default,
    }
}

/// The session configuration that the parameters describe.
pub open spec fn config_for(a: ConnectionArgs, integrated_default: bool) -> Result<ConfigView, Span> {
    match auth_for(a.user, a.password, integrated_default) {
        Err(sp) => Err(sp),
        Ok(auth) => Ok(
            ConfigView {
                host: text_or(a.server, "localhost"@),
                database: text_or(a.database, "master"@),
                endpoint: match a.instance {
                    Some(i) => EndpointView::Instance(i.item@),
                    None => EndpointView::Port(DEFAULT_PORT),
                },
                auth: auth,
                trust_cert: a.trust_cert is Some,
            },
        ),
    }
}

/// Chooses the authentication method from the credentials.
pub fn get_auth_method(args: &ConnectionArgs, integrated_default: bool) -> (r: Result<
    AuthMethod,
    ConnectionError,
>)
    ensures
        match r {
            Ok(m) => auth_for(args.user, args.password, integrated_default) == Ok::<AuthView, Span>(m@),
            Err(e) => exists|sp: Span|
                auth_for(args.user, args.password, integrated_default) == Err::<AuthView, Span>(sp)
                    && e == ConnectionError::UserWithoutPassword(sp),
        },
{
    match (&args.user, &args.password) {
        (Some(u), Some(p)) => Ok(AuthMethod::SqlServer { user: u.item.clone(), password: p.item.clone() }),
        (None, Some(p)) => Ok(AuthMethod::SqlServer { user: "sa".to_owned(), password: p.item.clone() }),
        (Some(u), None) => Err(ConnectionError::UserWithoutPassword(u.span)),
        (None, None) => Ok(
            if integrated_default {
                AuthMethod::Integrated
            } else {
                AuthMethod::NoAuth
            },
        ),
    }
}

fn text_or_exec(t: &Option<Spanned>, default: &str) -> (r: String)
    ensures
        r@ == text_or(*t, default@),
{
    match t {
        Some(s) => s.item.clone(),
        None => default.to_owned(),
    }
}

/// Applies the defaults (host `localhost`, database `master`, port 1433
/// unless a named instance is given) and the authentication method.
pub fn config_from_args(args: &ConnectionArgs, integrated_default: bool) -> (r: Result<
    ConnectConfig,
    ConnectionError,
>)
    ensures
        match r {
            Ok(c) => config_for(*args, integrated_default) == Ok::<ConfigView, Span>(c@),
            Err(e) => exists|sp: Span|
                config_for(*args, integrated_default) == Err::<ConfigView, Span>(sp)
                    && e == ConnectionError::UserWithoutPassword(sp),
        },
{
    let auth = get_auth_method(args, integrated_default)?;
    let host = text_or_exec(&args.server, "localhost");
    let database = text_or_exec(&args.database, "master");
    let endpoint = match &args.instance {
        Some(i) => Endpoint::Instance(i.item.clone()),
        None => Endpoint::Port(DEFAULT_PORT),
    };
    Ok(ConnectConfig { host, database, endpoint, auth, trust_cert: args.trust_cert.is_some() })
}

/// A user name without a password fails to configure, at the user name's
/// span, whatever the other parameters are.
pub proof fn lemma_user_without_password(a: ConnectionArgs, integrated_default: bool)
    requires
        a.user is Some,
        a.password is None,
    ensures
        config_for(a, integrated_default) == Err::<ConfigView, Span>(a.user->Some_0.span),
{
}

/// Classifies a failed protocol handshake: the server's login-failed status
/// is a rejected login made with `auth`; anything else is a connection error.
pub fn handshake_error(server_code: Option<u32>, message: String, auth: AuthMethod) -> (r:
    ConnectionError)
    ensures
        server_code == Some(LOGIN_FAILED_CODE) ==> r == ConnectionError::LoginFailed(auth),
        server_code != Some(LOGIN_FAILED_CODE) ==> r == ConnectionError::ConnectionError(message),
{
    match server_code {
        Some(code) => if code == LOGIN_FAILED_CODE {
            ConnectionError::LoginFailed(auth)
        } else {
            ConnectionError::ConnectionError(message)
        },
        None => ConnectionError::ConnectionError(message),
    }
}

/// The content of an [`ErrorReport`].
pub type ReportView = (Seq<char>, Option<(Seq<char>, Span)>);

impl ErrorReport {
    /// The content of the report.
    pub open spec fn view_of(self) -> ReportView {
        (
            self.msg@,
            match self.label {
                Some(l) => Some((l.0@, l.1)),
                None => None,
            },
        )
    }
}

/// The report shown for a connection error. No report holds a password.
pub open spec fn report_for(e: ConnectionError) -> ReportView {
    match e {
        ConnectionError::UserWithoutPassword(sp) => (
            "Invalid credentials"@,
            Some(("User specified without password"@, sp)),
        ),
        ConnectionError::LoginFailed(m) => (
            match m {
                AuthMethod::SqlServer { user, password: _ } => "Login failed for user \""@ + user@
                    + "\", password: <HIDDEN>"@,
                AuthMethod::Integrated => "Login failed for integrated auth"@,
                AuthMethod::NoAuth => "Login failed for none auth"@,
            },
            None,
        ),
        ConnectionError::SetupError(s) => ("Error while setting up connection: "@ + s@, None),
        ConnectionError::ConnectionError(s) => (
            "Error while connecting to database: "@ + s@,
            None,
        ),
    }
}

/// Two login failures that differ only in the password are reported alike.
pub proof fn lemma_report_hides_password(user: String, first: String, second: String)
    ensures
        report_for(ConnectionError::LoginFailed(AuthMethod::SqlServer { user, password: first }))
            == report_for(ConnectionError::LoginFailed(AuthMethod::SqlServer { user, password: second })),
{
}

impl ConnectionError {
    /// The report shown to the caller for this error.
    pub fn to_shell_error(&self) -> (r: ErrorReport)
        ensures
            r.view_of() == report_for(*self),
    {
        match self {
            ConnectionError::UserWithoutPassword(sp) => ErrorReport {
                msg: "Invalid credentials".to_owned(),
                label: Some(("User specified without password".to_owned(), *sp)),
            },
            ConnectionError::LoginFailed(m) => {
                let msg = match m {
                    AuthMethod::SqlServer { user, password: _ } => {
                        let mut s = "Login failed for user \"".to_owned();
                        s.append(user.as_str());
                        s.append("\", password: <HIDDEN>");
                        s
                    },
                    AuthMethod::Integrated => "Login failed for integrated auth".to_owned(),
                    AuthMethod::NoAuth => "Login failed for none auth".to_owned(),
                };
                ErrorReport { msg, label: None }
            },
            ConnectionError::SetupError(e) => {
                let mut s = "Error while setting up connection: ".to_owned();
                s.append(e.as_str());
                ErrorReport { msg: s, label: None }
            },
            ConnectionError::ConnectionError(e) => {
                let mut s = "Error while connecting to database: ".to_owned();
                s.append(e.as_str());
                ErrorReport { msg: s, label: None }
            },
        }
    }
}

} // verus!
