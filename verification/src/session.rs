//! One SSH session to the jump host: the order in which it connects and
//! authenticates, the requests for forwarding channels it may make while it
//! is authenticated, and its disconnection.
//!
//! The session here is the bookkeeping of the real one. The caller owns the
//! transport, carries out each [`SessionAction`] and reports the outcome as a
//! [`SessionEvent`].

use crate::credentials::{
    clone_opt, opt_view, AuthMethod, AuthMethodView, SshCredentials, SshCredentialsView,
    TargetEndpoint, TargetEndpointView,
};
use crate::error::TunnelError;
use vstd::prelude::*;
use vstd::string::*;

verus! {

/// Seconds allowed for reaching the jump host and authenticating with it.
pub const CONNECT_TIMEOUT_SECS: u64 = 30;

/// Where a session stands.
#[derive(Clone, Copy, Debug, PartialEq, Eq, Structural)]
pub enum SessionPhase {
    /// The transport to the jump host is being established.
    Connecting,
    /// The private key is being read and decrypted.
    LoadingKey,
    /// The credentials have been submitted.
    Authenticating,
    /// The jump host accepted the credentials.
    Authenticated,
    /// The session was disconnected or lost its transport.
    Closed,
    /// The session never became authenticated.
    Failed { error: TunnelError },
}

impl SessionPhase {
    /// The phases in which the session is still being opened.
    pub open spec fn opening(self) -> bool {
        self is Connecting || self is LoadingKey || self is Authenticating
    }
}

/// What the caller reports to the session.
#[derive(Clone, Copy, Debug, PartialEq, Eq, Structural)]
pub enum SessionEvent {
    /// The transport is up and the server's key was accepted.
    TransportUp,
    /// The jump host could not be reached, its key was not accepted, or the
    /// transport broke.
    TransportFailed,
    /// The time allowed for opening the session ran out.
    TimedOut,
    /// The private key was read and decrypted.
    KeyLoaded,
    /// The key file is missing or unreadable, or the passphrase is wrong.
    KeyUnreadable,
    /// The jump host accepted the credentials.
    AuthAccepted,
    /// The jump host rejected the credentials.
    AuthRejected,
    /// The submission of the credentials itself failed.
    AuthErrored,
}

/// What the session asks of the caller.
#[derive(Debug, PartialEq, Eq)]
pub enum SessionAction {
    /// Nothing to do: the event does not concern the session as it stands.
    Ignore,
    /// Establish the transport to `host:port`.
    OpenTransport { host: String, port: u16 },
    /// Read the private key at `path`, decrypting it with `passphrase`.
    LoadKey { path: String, passphrase: Option<String> },
    /// Authenticate `user` with the key that was loaded.
    SubmitKey { user: String },
    /// Authenticate `user` with the password `secret`.
    SubmitPassword { user: String, secret: String },
    /// The session is authenticated.
    Ready,
    /// Drop the transport, if there is one: the session failed with `error`.
    Abort { error: TunnelError },
    /// Drop the transport: an authenticated session lost it.
    Lost,
}

/// The mathematical value of a [`SessionAction`].
pub enum SessionActionView {
    Ignore,
    OpenTransport { host: Seq<char>, port: u16 },
    LoadKey { path: Seq<char>, passphrase: Option<Seq<char>> },
    SubmitKey { user: Seq<char> },
    SubmitPassword { user: Seq<char>, secret: Seq<char> },
    Ready,
    Abort { error: TunnelError },
    Lost,
}

impl View for SessionAction {
    type V = SessionActionView;

    open spec fn view(&self) -> SessionActionView {
        match self {
            SessionAction::Ignore => SessionActionView::Ignore,
            SessionAction::OpenTransport { host, port } => SessionActionView::OpenTransport {
                host: host@,
                port: *port,
            },
            SessionAction::LoadKey { path, passphrase } => SessionActionView::LoadKey {
                path: path@,
                passphrase: opt_view(*passphrase),
            },
            SessionAction::SubmitKey { user } => SessionActionView::SubmitKey { user: user@ },
            SessionAction::SubmitPassword { user, secret } => SessionActionView::SubmitPassword {
                user: user@,
                secret: secret@,
            },
            SessionAction::Ready => SessionActionView::Ready,
            SessionAction::Abort { error } => SessionActionView::Abort { error: *error },
            SessionAction::Lost => SessionActionView::Lost,
        }
    }
}

/// A request for a channel that the jump host forwards to the target.
#[derive(Debug, PartialEq, Eq)]
pub struct ChannelRequest {
    pub target_host: String,
    pub target_port: u32,
    pub originator_address: String,
    pub originator_port: u32,
}

/// The mathematical value of a [`ChannelRequest`].
pub struct ChannelRequestView {
    pub target_host: Seq<char>,
    pub target_port: u32,
    pub originator_address: Seq<char>,
    pub originator_port: u32,
}

impl View for ChannelRequest {
    type V = ChannelRequestView;

    open spec fn view(&self) -> ChannelRequestView {
        ChannelRequestView {
            target_host: self.target_host@,
            target_port: self.target_port,
            originator_address: self.originator_address@,
            originator_port: self.originator_port,
        }
    }
}

/// The farewell sent to the jump host when a session is disconnected.
#[derive(Debug, PartialEq, Eq)]
pub struct DisconnectNotice {
    pub reason: String,
    pub language: String,
}

/// The mathematical value of a [`DisconnectNotice`].
pub struct DisconnectNoticeView {
    pub reason: Seq<char>,
    pub language: Seq<char>,
}

impl View for DisconnectNotice {
    type V = DisconnectNoticeView;

    open spec fn view(&self) -> DisconnectNoticeView {
        DisconnectNoticeView { reason: self.reason@, language: self.language@ }
    }
}

/// The view of an optional notice.
pub open spec fn notice_view(notice: Option<DisconnectNotice>) -> Option<DisconnectNoticeView> {
    match notice {
        Some(n) => Some(n@),
        None => None,
    }
}

/// The language in which the reason of a farewell is written.
#[derive(Clone, Copy, Debug, PartialEq, Eq, Structural)]
pub enum LanguageTag {
    /// No language is named.
    Unspecified,
    English,
}

impl LanguageTag {
    /// The tag as it is sent.
    pub open spec fn spec_text(self) -> Seq<char> {
        match self {
            LanguageTag::Unspecified => "none"@,
            LanguageTag::English => "eng"@,
        }
    }

    /// The tag as it is sent.
    pub fn text(&self) -> (text: &'static str)
        ensures
            text@ == self.spec_text(),
    {
        match self {
            LanguageTag::Unspecified => "none",
            LanguageTag::English => "eng",
        }
    }
}

/// The mathematical value of an [`SshSession`].
pub struct SessionModel {
    pub phase: SessionPhase,
    pub credentials: SshCredentialsView,
}

impl SessionModel {
    /// A session that is about to connect with `credentials`.
    pub open spec fn start(credentials: SshCredentialsView) -> SessionModel {
        SessionModel { phase: SessionPhase::Connecting, credentials }
    }

    /// The first thing a session asks for: the transport to the jump host.
    pub open spec fn first_action(self) -> SessionActionView {
        SessionActionView::OpenTransport { host: self.credentials.host, port: self.credentials.port }
    }

    /// What the session asks for once the transport is up: the key where it
    /// authenticates with one, else the submission of the password.
    pub open spec fn after_transport(self) -> (SessionPhase, SessionActionView) {
        match self.credentials.auth_method {
            AuthMethodView::PrivateKey { path, passphrase } => (
                SessionPhase::LoadingKey,
                SessionActionView::LoadKey { path, passphrase },
            ),
            AuthMethodView::Password { secret } => (
                SessionPhase::Authenticating,
                SessionActionView::SubmitPassword { user: self.credentials.user, secret },
            ),
        }
    }

    /// The phase after `event` and the action that the session asks for.
    ///
    /// While the session is being opened, each step's outcome either moves it
    /// forward or fails it for good; a timeout or a broken transport fails it
    /// from any of these phases. An authenticated session only reacts to the
    /// loss of its transport. Everything else is ignored.
    pub open spec fn react(self, event: SessionEvent) -> (SessionPhase, SessionActionView) {
        if self.phase.opening() && event is TimedOut {
            (
                SessionPhase::Failed { error: TunnelError::Timeout },
                SessionActionView::Abort { error: TunnelError::Timeout },
            )
        } else if self.phase.opening() && event is TransportFailed {
            (
                SessionPhase::Failed { error: TunnelError::Transport },
                SessionActionView::Abort { error: TunnelError::Transport },
            )
        } else if self.phase is Connecting && event is TransportUp {
            self.after_transport()
        } else if self.phase is LoadingKey && event is KeyLoaded {
            (SessionPhase::Authenticating, SessionActionView::SubmitKey { user: self.credentials.user })
        } else if self.phase is LoadingKey && event is KeyUnreadable {
            (
                SessionPhase::Failed { error: TunnelError::KeyLoad },
                SessionActionView::Abort { error: TunnelError::KeyLoad },
            )
        } else if self.phase is Authenticating && event is AuthAccepted {
            (SessionPhase::Authenticated, SessionActionView::Ready)
        } else if self.phase is Authenticating && event is AuthRejected {
            (
                SessionPhase::Failed { error: TunnelError::Auth },
                SessionActionView::Abort { error: TunnelError::Auth },
            )
        } else if self.phase is Authenticating && event is AuthErrored {
            (
                SessionPhase::Failed { error: TunnelError::AuthFailed },
                SessionActionView::Abort { error: TunnelError::AuthFailed },
            )
        } else if self.phase is Authenticated && event is TransportFailed {
            (SessionPhase::Closed, SessionActionView::Lost)
        } else {
            (self.phase, SessionActionView::Ignore)
        }
    }

    /// The session after `event`.
    pub open spec fn after(self, event: SessionEvent) -> SessionModel {
        SessionModel { phase: self.react(event).0, credentials: self.credentials }
    }

    /// The request for a channel to `target`, tagged with the originator.
    pub open spec fn channel_request(
        target: TargetEndpointView,
        originator_address: Seq<char>,
        originator_port: u16,
    ) -> ChannelRequestView {
        ChannelRequestView {
            target_host: target.host,
            target_port: target.port,
            originator_address,
            originator_port: originator_port as u32,
        }
    }

    /// A key is being loaded only where the credentials hold one.
    pub open spec fn keeps_to_method(self) -> bool {
        self.phase is LoadingKey ==> self.credentials.auth_method is PrivateKey
    }

    /// The session after a disconnection.
    pub open spec fn disconnected(self) -> SessionModel {
        if self.phase is Authenticated {
            SessionModel { phase: SessionPhase::Closed, credentials: self.credentials }
        } else {
            self
        }
    }

    /// The farewell that a disconnection sends: one from an authenticated
    /// session, none from any other.
    pub open spec fn farewell(self, reason: Seq<char>, language: Seq<char>) -> Option<
        DisconnectNoticeView,
    > {
        if self.phase is Authenticated {
            Some(DisconnectNoticeView { reason, language })
        } else {
            None
        }
    }
}

/// The session of one tunnel with its jump host.
pub struct SshSession {
    phase: SessionPhase,
    credentials: SshCredentials,
}

impl View for SshSession {
    type V = SessionModel;

    closed spec fn view(&self) -> SessionModel {
        SessionModel { phase: self.phase, credentials: self.credentials@ }
    }
}

impl SshSession {
    /// Starts a session: returns it with the request to establish the
    /// transport to the jump host.
    pub fn connect(credentials: SshCredentials) -> (started: (SshSession, SessionAction))
        ensures
            started.0@ == SessionModel::start(credentials@),
            started.1@ == started.0@.first_action(),
    {
        let action = SessionAction::OpenTransport {
            host: credentials.host.clone(),
            port: credentials.port,
        };
        (SshSession { phase: SessionPhase::Connecting, credentials }, action)
    }

    /// Where the session stands.
    pub fn phase(&self) -> (phase: SessionPhase)
        ensures
            phase == self@.phase,
    {
        self.phase
    }

    /// Whether channels can be opened on the session.
    pub fn is_authenticated(&self) -> (yes: bool)
        ensures
            yes == (self@.phase is Authenticated),
    {
        match self.phase {
            SessionPhase::Authenticated => true,
            _ => false,
        }
    }

    fn opening(&self) -> (yes: bool)
        ensures
            yes == self@.phase.opening(),
    {
        match self.phase {
            SessionPhase::Connecting | SessionPhase::LoadingKey | SessionPhase::Authenticating => true,
            _ => false,
        }
    }

    fn fail(&mut self, error: TunnelError) -> (action: SessionAction)
        ensures
            final(self)@ == (SessionModel {
                phase: SessionPhase::Failed { error },
                credentials: old(self)@.credentials,
            }),
            action@ == (SessionActionView::Abort { error }),
    {
        self.phase = SessionPhase::Failed { error };
        SessionAction::Abort { error }
    }

    /// Takes in what the caller reports and returns what to do next.
    pub fn advance(&mut self, event: SessionEvent) -> (action: SessionAction)
        ensures
            final(self)@ == old(self)@.after(event),
            action@ == old(self)@.react(event).1,
    {
        let opening = self.opening();
        match (self.phase, event) {
            (_, SessionEvent::TimedOut) if opening => self.fail(TunnelError::Timeout),
            (_, SessionEvent::TransportFailed) if opening => self.fail(TunnelError::Transport),
            (SessionPhase::Connecting, SessionEvent::TransportUp) => {
                match &self.credentials.auth_method {
                    AuthMethod::PrivateKey { path, passphrase } => {
                        let action = SessionAction::LoadKey {
                            path: path.clone(),
                            passphrase: clone_opt(passphrase),
                        };
                        self.phase = SessionPhase::LoadingKey;
                        action
                    },
                    AuthMethod::Password { secret } => {
                        let action = SessionAction::SubmitPassword {
                            user: self.credentials.user.clone(),
                            secret: secret.clone(),
                        };
                        self.phase = SessionPhase::Authenticating;
                        action
                    },
                }
            },
            (SessionPhase::LoadingKey, SessionEvent::KeyLoaded) => {
                self.phase = SessionPhase::Authenticating;
                SessionAction::SubmitKey { user: self.credentials.user.clone() }
            },
            (SessionPhase::LoadingKey, SessionEvent::KeyUnreadable) => self.fail(TunnelError::KeyLoad),
            (SessionPhase::Authenticating, SessionEvent::AuthAccepted) => {
                self.phase = SessionPhase::Authenticated;
                SessionAction::Ready
            },
            (SessionPhase::Authenticating, SessionEvent::AuthRejected) => self.fail(TunnelError::Auth),
            (SessionPhase::Authenticating, SessionEvent::AuthErrored) => self.fail(
                TunnelError::AuthFailed,
            ),
            (SessionPhase::Authenticated, SessionEvent::TransportFailed) => {
                self.phase = SessionPhase::Closed;
                SessionAction::Lost
            },
            _ => SessionAction::Ignore,
        }
    }

    /// Requests a channel that the jump host forwards to `target`, tagged
    /// with the address and port of the local originator.
    ///
    /// The request is granted on an authenticated session and on no other.
    /// The session is only read, so any number of links may ask at once.
    pub fn open_direct_forward(
        &self,
        target: &TargetEndpoint,
        originator_address: &str,
        originator_port: u16,
    ) -> (request: Result<ChannelRequest, TunnelError>)
        ensures
            self@.phase is Authenticated ==> request is Ok && request->Ok_0@
                == SessionModel::channel_request(target@, originator_address@, originator_port),
            !(self@.phase is Authenticated) ==> request == Err::<ChannelRequest, TunnelError>(
                TunnelError::SessionClosed,
            ),
    {
        if self.is_authenticated() {
            Ok(
                ChannelRequest {
                    target_host: target.host.clone(),
                    target_port: target.port,
                    originator_address: originator_address.to_string(),
                    originator_port: originator_port as u32,
                },
            )
        } else {
            Err(TunnelError::SessionClosed)
        }
    }

    /// Disconnects the session. An authenticated session is closed and the
    /// farewell to send to the jump host is returned, with the reason and the
    /// tag of its language as given; on any other session the call changes
    /// nothing and returns `None`.
    pub fn disconnect(&mut self, reason: &str, language: &str) -> (notice: Option<DisconnectNotice>)
        ensures
            final(self)@ == old(self)@.disconnected(),
            notice_view(notice) == old(self)@.farewell(reason@, language@),
    {
        if self.is_authenticated() {
            self.phase = SessionPhase::Closed;
            Some(DisconnectNotice { reason: reason.to_string(), language: language.to_string() })
        } else {
            None
        }
    }
}

/// Disconnecting twice is disconnecting once: the second call changes
/// nothing and sends nothing.
pub proof fn disconnect_is_idempotent(session: SessionModel, reason: Seq<char>, language: Seq<char>)
    ensures
        session.disconnected().disconnected() == session.disconnected(),
        session.disconnected().farewell(reason, language) is None,
        !(session.disconnected().phase is Authenticated),
{
}

/// A session becomes authenticated in one way only: the jump host accepts
/// what was submitted.
pub proof fn authenticated_only_when_accepted(session: SessionModel, event: SessionEvent)
    requires
        !(session.phase is Authenticated),
        session.after(event).phase is Authenticated,
    ensures
        session.phase is Authenticating,
        event is AuthAccepted,
{
}

/// The two ways to authenticate exclude each other: a session that started
/// with its credentials only ever loads and submits a key where they hold
/// one, and only ever submits a password where they hold that.
pub proof fn one_method_is_submitted(session: SessionModel, event: SessionEvent)
    requires
        session.keeps_to_method(),
    ensures
        SessionModel::start(session.credentials).keeps_to_method(),
        session.after(event).keeps_to_method(),
        session.react(event).1 is SubmitPassword ==> session.credentials.auth_method is Password,
        session.react(event).1 is LoadKey || session.react(event).1 is SubmitKey
            ==> session.credentials.auth_method is PrivateKey,
{
}

/// A session that failed or was closed is over: whatever is reported to it,
/// it stays as it is and asks for nothing.
pub proof fn finished_session_stays_finished(session: SessionModel, event: SessionEvent)
    requires
        session.phase is Failed || session.phase is Closed,
    ensures
        session.after(event) == session,
        session.react(event).1 is Ignore,
{
}

} // verus!
