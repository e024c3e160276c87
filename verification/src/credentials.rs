//! Value types that describe a tunnel: how to reach and authenticate with the
//! jump host, which service to forward to, and where the local end listens.

use crate::error::TunnelError;
use vstd::prelude::*;
use vstd::string::*;

verus! {

/// Connection parameters of the jump host as the front end supplies them.
///
/// A key file, when given, is used for authentication and the password then
/// serves as its passphrase; without a key file the password is submitted.
#[derive(Debug, PartialEq, Eq)]
pub struct SshOpts {
    pub host: String,
    pub keyfile: Option<String>,
    pub password: String,
    pub port: u16,
    pub user: String,
}

/// The mathematical value of an [`SshOpts`].
pub struct SshOptsView {
    pub host: Seq<char>,
    pub keyfile: Option<Seq<char>>,
    pub password: Seq<char>,
    pub port: u16,
    pub user: Seq<char>,
}

/// The view of an optional string.
pub open spec fn opt_view(s: Option<String>) -> Option<Seq<char>> {
    match s {
        Some(text) => Some(text@),
        None => None,
    }
}

impl View for SshOpts {
    type V = SshOptsView;

    open spec fn view(&self) -> SshOptsView {
        SshOptsView {
            host: self.host@,
            keyfile: opt_view(self.keyfile),
            password: self.password@,
            port: self.port,
            user: self.user@,
        }
    }
}

/// Copies an optional string.
pub fn clone_opt(s: &Option<String>) -> (copy: Option<String>)
    ensures
        copy == *s,
{
    match s {
        Some(text) => Some(text.clone()),
        None => None,
    }
}

impl Clone for SshOpts {
    fn clone(&self) -> (copy: Self)
        ensures
            copy == *self,
    {
        SshOpts {
            host: self.host.clone(),
            keyfile: clone_opt(&self.keyfile),
            password: self.password.clone(),
            port: self.port,
            user: self.user.clone(),
        }
    }
}

impl Default for SshOpts {
    fn default() -> (opts: Self)
        ensures
            opts@ == (SshOptsView {
                host: Seq::<char>::empty(),
                keyfile: None,
                password: Seq::<char>::empty(),
                port: 0,
                user: Seq::<char>::empty(),
            }),
    {
        SshOpts { host: String::new(), keyfile: None, password: String::new(), port: 0, user: String::new() }
    }
}

/// The one way a session authenticates.
#[derive(Debug, PartialEq, Eq)]
pub enum AuthMethod {
    /// Submit this secret as the user's password.
    Password { secret: String },
    /// Load the private key at `path`, decrypting it with `passphrase` if one
    /// is given, and submit it.
    PrivateKey { path: String, passphrase: Option<String> },
}

/// The mathematical value of an [`AuthMethod`].
pub enum AuthMethodView {
    Password { secret: Seq<char> },
    PrivateKey { path: Seq<char>, passphrase: Option<Seq<char>> },
}

impl View for AuthMethod {
    type V = AuthMethodView;

    open spec fn view(&self) -> AuthMethodView {
        match self {
            AuthMethod::Password { secret } => AuthMethodView::Password { secret: secret@ },
            AuthMethod::PrivateKey { path, passphrase } => AuthMethodView::PrivateKey {
                path: path@,
                passphrase: opt_view(*passphrase),
            },
        }
    }
}

impl Clone for AuthMethod {
    fn clone(&self) -> (copy: Self)
        ensures
            copy == *self,
    {
        match self {
            AuthMethod::Password { secret } => AuthMethod::Password { secret: secret.clone() },
            AuthMethod::PrivateKey { path, passphrase } => AuthMethod::PrivateKey {
                path: path.clone(),
                passphrase: clone_opt(passphrase),
            },
        }
    }
}

/// The authentication method that the options select, or `None` where they
/// hold neither a key file nor a password.
pub open spec fn spec_auth_method(opts: SshOptsView) -> Option<AuthMethodView> {
    match opts.keyfile {
        Some(path) => Some(
            AuthMethodView::PrivateKey {
                path,
                passphrase: if opts.password.len() > 0 {
                    Some(opts.password)
                } else {
                    None
                },
            },
        ),
        None => if opts.password.len() > 0 {
            Some(AuthMethodView::Password { secret: opts.password })
        } else {
            None
        },
    }
}

impl SshOpts {
    /// Selects the authentication method.
    ///
    /// Options with neither a key file nor a password are rejected: there is
    /// no fallback to an agent or to an empty password.
    pub fn auth_method(&self) -> (selected: Result<AuthMethod, TunnelError>)
        ensures
            match spec_auth_method(self@) {
                Some(method) => selected is Ok && selected->Ok_0@ == method,
                None => selected == Err::<AuthMethod, TunnelError>(TunnelError::InvalidCredentials),
            },
    {
        let has_password = !self.password.as_str().is_empty();
        match &self.keyfile {
            Some(path) => {
                let passphrase = if has_password {
                    Some(self.password.clone())
                } else {
                    None
                };
                Ok(AuthMethod::PrivateKey { path: path.clone(), passphrase })
            },
            None => {
                if has_password {
                    Ok(AuthMethod::Password { secret: self.password.clone() })
                } else {
                    Err(TunnelError::InvalidCredentials)
                }
            },
        }
    }
}

/// Resolved credentials for one jump host.
#[derive(Debug, PartialEq, Eq)]
pub struct SshCredentials {
    pub host: String,
    pub port: u16,
    pub user: String,
    pub auth_method: AuthMethod,
}

/// The mathematical value of an [`SshCredentials`].
pub struct SshCredentialsView {
    pub host: Seq<char>,
    pub port: u16,
    pub user: Seq<char>,
    pub auth_method: AuthMethodView,
}

impl View for SshCredentials {
    type V = SshCredentialsView;

    open spec fn view(&self) -> SshCredentialsView {
        SshCredentialsView {
            host: self.host@,
            port: self.port,
            user: self.user@,
            auth_method: self.auth_method@,
        }
    }
}

impl SshCredentialsView {
    /// A password, where one is submitted, is not empty.
    pub open spec fn well_formed(self) -> bool {
        self.auth_method matches AuthMethodView::Password { secret } ==> secret.len() > 0
    }
}

/// The credentials that the options resolve to, where they resolve.
pub open spec fn spec_credentials(opts: SshOptsView) -> Option<SshCredentialsView> {
    match spec_auth_method(opts) {
        Some(auth_method) => Some(
            SshCredentialsView { host: opts.host, port: opts.port, user: opts.user, auth_method },
        ),
        None => None,
    }
}

impl Clone for SshCredentials {
    fn clone(&self) -> (copy: Self)
        ensures
            copy == *self,
    {
        SshCredentials {
            host: self.host.clone(),
            port: self.port,
            user: self.user.clone(),
            auth_method: self.auth_method.clone(),
        }
    }
}

impl SshCredentials {
    /// Resolves the front end's options into credentials.
    pub fn resolve(opts: &SshOpts) -> (resolved: Result<SshCredentials, TunnelError>)
        ensures
            match spec_credentials(opts@) {
                Some(credentials) => resolved is Ok && resolved->Ok_0@ == credentials
                    && credentials.well_formed(),
                None => resolved == Err::<SshCredentials, TunnelError>(
                    TunnelError::InvalidCredentials,
                ),
            },
    {
        match opts.auth_method() {
            Ok(auth_method) => Ok(
                SshCredentials {
                    host: opts.host.clone(),
                    port: opts.port,
                    user: opts.user.clone(),
                    auth_method,
                },
            ),
            Err(e) => Err(e),
        }
    }
}

/// The service that the jump host can reach and the caller cannot.
#[derive(Debug, PartialEq, Eq)]
pub struct TargetEndpoint {
    pub host: String,
    pub port: u32,
}

/// The mathematical value of a [`TargetEndpoint`].
pub struct TargetEndpointView {
    pub host: Seq<char>,
    pub port: u32,
}

impl View for TargetEndpoint {
    type V = TargetEndpointView;

    open spec fn view(&self) -> TargetEndpointView {
        TargetEndpointView { host: self.host@, port: self.port }
    }
}

impl Clone for TargetEndpoint {
    fn clone(&self) -> (copy: Self)
        ensures
            copy == *self,
    {
        TargetEndpoint { host: self.host.clone(), port: self.port }
    }
}

/// The loopback address on which every tunnel listens.
pub open spec fn spec_loopback() -> Seq<char> {
    "127.0.0.1"@
}

/// The local end of a tunnel: the loopback address and the port that the
/// operating system assigned when the listener was bound.
#[derive(Clone, Copy, Debug, PartialEq, Eq, Structural)]
pub struct LocalBinding {
    port: u16,
}

impl LocalBinding {
    /// The bound port.
    pub closed spec fn spec_port(self) -> u16 {
        self.port
    }

    /// A bound port is never zero.
    #[verifier::type_invariant]
    pub closed spec fn well_formed(self) -> bool {
        self.port != 0
    }

    /// The binding of a listener on `port`.
    pub closed spec fn on_port(port: u16) -> LocalBinding {
        LocalBinding { port }
    }

    /// The binding of a listener on a port has that port.
    pub broadcast proof fn on_port_has_port(port: u16)
        ensures
            #[trigger] LocalBinding::on_port(port).spec_port() == port,
    {
    }

    /// Records the port of a listener that has been bound. Port zero asks the
    /// operating system to choose and is never what it chose.
    pub fn bound(port: u16) -> (binding: Option<LocalBinding>)
        ensures
            port == 0 ==> binding is None,
            port != 0 ==> binding == Some(LocalBinding::on_port(port)),
            port != 0 ==> binding->Some_0.spec_port() == port,
    {
        if port == 0 {
            None
        } else {
            Some(LocalBinding { port })
        }
    }

    /// The port on which the tunnel listens.
    pub fn port(&self) -> (port: u16)
        ensures
            port == self.spec_port(),
            port != 0,
    {
        proof {
            use_type_invariant(self);
        }
        self.port
    }

    /// The address on which the tunnel listens.
    pub fn address(&self) -> (address: String)
        ensures
            address@ == spec_loopback(),
    {
        "127.0.0.1".to_string()
    }
}

} // verus!
