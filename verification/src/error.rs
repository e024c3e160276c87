//! Error kinds of the tunnel and the error values handed to the front end.

use vstd::prelude::*;
use vstd::string::*;

verus! {

/// How far a failure reaches.
#[derive(Clone, Copy, Debug, PartialEq, Eq, Structural)]
pub enum ErrorScope {
    /// Aborts the attempt to open the tunnel; nothing is left running.
    Open,
    /// Ends one forwarded connection; the tunnel and its other links go on.
    Link,
    /// Answers one call made on a tunnel that has been closed.
    Call,
}

/// Why an operation of the tunnel failed.
///
/// The kinds carry no text of their own, so no secret can travel in one.
#[derive(Clone, Copy, Debug, PartialEq, Eq, Structural)]
pub enum TunnelError {
    /// Neither a password nor a key file was given.
    InvalidCredentials,
    /// The jump host could not be reached.
    Transport,
    /// Connecting or authenticating took longer than allowed.
    Timeout,
    /// The key file could not be read or its passphrase was wrong.
    KeyLoad,
    /// The jump host rejected the credentials.
    Auth,
    /// The exchange in which the credentials were submitted broke off.
    AuthFailed,
    /// No local port could be bound.
    Bind,
    /// The jump host could not open a channel to the target.
    Channel,
    /// A relay in progress hit an I/O error.
    LinkIo,
    /// The tunnel has been closed.
    SessionClosed,
}

impl TunnelError {
    /// The reach of each kind of failure.
    pub open spec fn spec_scope(self) -> ErrorScope {
        match self {
            TunnelError::Channel | TunnelError::LinkIo => ErrorScope::Link,
            TunnelError::SessionClosed => ErrorScope::Call,
            _ => ErrorScope::Open,
        }
    }

    /// The text shown for each kind of failure.
    pub open spec fn spec_message(self) -> Seq<char> {
        match self {
            TunnelError::InvalidCredentials => "No password or key file was given for the SSH Server"@,
            TunnelError::Transport => "Failed to connect to the SSH Server"@,
            TunnelError::Timeout => "Timed out while connecting to the SSH Server"@,
            TunnelError::KeyLoad => "Failed to load the SSH key file"@,
            TunnelError::Auth => "Failed to authenticate with the jump host"@,
            TunnelError::AuthFailed => "Failed to authenticate with the SSH Server"@,
            TunnelError::Bind => "Failed to bind a local port for the tunnel"@,
            TunnelError::Channel => "Failed to open a channel to the target host"@,
            TunnelError::LinkIo => "Error during bidirectional copy"@,
            TunnelError::SessionClosed => "The tunnel is closed"@,
        }
    }

    /// Whether the failure aborts the opening of a tunnel, ends a single
    /// link, or answers a call on a closed tunnel.
    pub fn scope(&self) -> (scope: ErrorScope)
        ensures
            scope == self.spec_scope(),
    {
        match self {
            TunnelError::Channel | TunnelError::LinkIo => ErrorScope::Link,
            TunnelError::SessionClosed => ErrorScope::Call,
            _ => ErrorScope::Open,
        }
    }

    /// The text to show for this failure. It depends on the kind alone.
    pub fn message(&self) -> (text: String)
        ensures
            text@ == self.spec_message(),
    {
        match self {
            TunnelError::InvalidCredentials => "No password or key file was given for the SSH Server".to_string(),
            TunnelError::Transport => "Failed to connect to the SSH Server".to_string(),
            TunnelError::Timeout => "Timed out while connecting to the SSH Server".to_string(),
            TunnelError::KeyLoad => "Failed to load the SSH key file".to_string(),
            TunnelError::Auth => "Failed to authenticate with the jump host".to_string(),
            TunnelError::AuthFailed => "Failed to authenticate with the SSH Server".to_string(),
            TunnelError::Bind => "Failed to bind a local port for the tunnel".to_string(),
            TunnelError::Channel => "Failed to open a channel to the target host".to_string(),
            TunnelError::LinkIo => "Error during bidirectional copy".to_string(),
            TunnelError::SessionClosed => "The tunnel is closed".to_string(),
        }
    }
}

/// An error as the front end receives it: a message and nothing else.
#[derive(Debug, PartialEq, Eq)]
pub struct AppError {
    pub error: String,
}

impl View for AppError {
    type V = Seq<char>;

    open spec fn view(&self) -> Seq<char> {
        self.error@
    }
}

impl AppError {
    /// An error with this message.
    pub fn new(message: &str) -> (error: AppError)
        ensures
            error@ == message@,
    {
        AppError { error: message.to_string() }
    }

    /// Wraps whatever `err` displays as. For a string that is the string.
    pub fn from<E: core::fmt::Display + ?Sized>(err: &E) -> (wrapped: AppError)
        ensures
            to_string_from_display_ensures::<E>(err, wrapped.error),
    {
        AppError { error: err.to_string() }
    }

    /// Wraps the message of a tunnel failure.
    pub fn from_tunnel(err: TunnelError) -> (wrapped: AppError)
        ensures
            wrapped@ == err.spec_message(),
    {
        AppError { error: err.message() }
    }

    /// The message, for display.
    pub fn message(&self) -> (text: String)
        ensures
            text@ == self@,
    {
        self.error.clone()
    }
}

/// An error of a query as the front end receives it.
#[derive(Debug, PartialEq, Eq)]
pub struct QueryError {
    pub error: String,
}

impl View for QueryError {
    type V = Seq<char>;

    open spec fn view(&self) -> Seq<char> {
        self.error@
    }
}

impl QueryError {
    /// Wraps whatever `err` displays as. For a string that is the string.
    pub fn from<E: core::fmt::Display + ?Sized>(err: &E) -> (wrapped: QueryError)
        ensures
            to_string_from_display_ensures::<E>(err, wrapped.error),
    {
        QueryError { error: err.to_string() }
    }
}

/// The error that wraps a string carries that string.
pub proof fn string_is_wrapped_as_it_is(err: &str, wrapped: AppError)
    requires
        to_string_from_display_ensures::<str>(err, wrapped.error),
    ensures
        wrapped@ == err@,
{
}

} // verus!
