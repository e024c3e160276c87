//! The controller that the caller drives.
//!
//! The caller performs what a [`TunnelAction`] asks for and reports what came
//! of it as a [`TunnelEvent`]. The controller never blocks and never touches a
//! socket: accepting, relaying and opening channels go on side by side in the
//! caller, and each of them only reports here.

use crate::credentials::{
    spec_credentials, AuthMethod, LocalBinding, SshCredentials, SshOpts, TargetEndpoint,
    TargetEndpointView,
};
use crate::error::TunnelError;
use crate::session::{
    notice_view, ChannelRequest, DisconnectNotice, LanguageTag, SessionAction, SessionEvent,
    SshSession,
};
use crate::tunnel::model::{
    has_link, ids, index_of, without, wound_up, LinkEntry, TunnelActionView, TunnelEvent,
    TunnelModel, TunnelState,
};
use crate::tunnel::theorems::{index_of_is, next_preserves_well_formed};
use vstd::prelude::*;
use vstd::string::*;

verus! {

/// What the controller asks of the caller.
#[derive(Debug, PartialEq, Eq)]
pub enum TunnelAction {
    /// Nothing to do.
    Nothing,
    /// Carry out this step of opening the session.
    Session { action: SessionAction },
    /// Bind a listener to the loopback address, on a port that the operating
    /// system chooses.
    BindListener,
    /// The tunnel is open: accept connections on the listener and hand the
    /// binding to the caller.
    Serve { binding: LocalBinding },
    /// Open a channel for the connection just accepted, known as `link`.
    OpenChannel { link: u64, request: ChannelRequest },
    /// Run the relay of `link`.
    Relay { link: u64 },
    /// Close the local connection of `link`, and its channel if it has one:
    /// the link never came to relay, for the reason that `error` gives.
    DropLocal { link: u64, error: TunnelError },
    /// Close the connection just accepted.
    Refuse { error: TunnelError },
    /// Stop accepting, close the listener, signal cancellation to the listed
    /// links and, if there is a notice, send it and drop the transport.
    Shutdown { links: Vec<u64>, notice: Option<DisconnectNotice> },
    /// The tunnel could not be opened: send the notice if there is one, drop
    /// the transport and report the error.
    Abort { error: TunnelError, notice: Option<DisconnectNotice> },
}

impl View for TunnelAction {
    type V = TunnelActionView;

    open spec fn view(&self) -> TunnelActionView {
        match self {
            TunnelAction::Nothing => TunnelActionView::Nothing,
            TunnelAction::Session { action } => TunnelActionView::Session { action: action@ },
            TunnelAction::BindListener => TunnelActionView::BindListener,
            TunnelAction::Serve { binding } => TunnelActionView::Serve { binding: *binding },
            TunnelAction::OpenChannel { link, request } => TunnelActionView::OpenChannel {
                link: *link,
                request: request@,
            },
            TunnelAction::Relay { link } => TunnelActionView::Relay { link: *link },
            TunnelAction::DropLocal { link, error } => TunnelActionView::DropLocal {
                link: *link,
                error: *error,
            },
            TunnelAction::Refuse { error } => TunnelActionView::Refuse { error: *error },
            TunnelAction::Shutdown { links, notice } => TunnelActionView::Shutdown {
                links: links@,
                notice: notice_view(*notice),
            },
            TunnelAction::Abort { error, notice } => TunnelActionView::Abort {
                error: *error,
                notice: notice_view(*notice),
            },
        }
    }
}

/// The working parts of a controller.
struct Machine {
    state: TunnelState,
    credentials: SshCredentials,
    target: TargetEndpoint,
    session: Option<SshSession>,
    binding: Option<LocalBinding>,
    links: Vec<LinkEntry>,
    next_link: u64,
}

impl View for Machine {
    type V = TunnelModel;

    closed spec fn view(&self) -> TunnelModel {
        TunnelModel {
            state: self.state,
            credentials: self.credentials@,
            target: self.target@,
            session: match self.session {
                Some(session) => Some(session@),
                None => None,
            },
            binding: self.binding,
            links: self.links@,
            next_link: self.next_link,
        }
    }
}

/// Finds the link numbered `id`.
fn find_link(links: &Vec<LinkEntry>, id: u64) -> (at: usize)
    ensures
        at == index_of(links@, id),
        at <= links.len(),
        at < links.len() ==> links[at as int].id == id,
{
    let mut at: usize = 0;
    while at < links.len()
        invariant
            at <= links.len(),
            forall|j: int| 0 <= j < at ==> (#[trigger] links@[j]).id != id,
        decreases links.len() - at,
    {
        if links[at].id == id {
            proof {
                index_of_is(links@, id, at as int);
            }
            return at;
        }
        at = at + 1;
    }
    proof {
        index_of_is(links@, id, at as int);
    }
    at
}

/// Lists the numbers of `links`, in order.
fn link_ids(links: &Vec<LinkEntry>) -> (numbers: Vec<u64>)
    ensures
        numbers@ == ids(links@),
{
    let mut numbers: Vec<u64> = Vec::new();
    let mut at: usize = 0;
    while at < links.len()
        invariant
            at <= links.len(),
            numbers@.len() == at,
            forall|j: int| 0 <= j < at ==> numbers@[j] == links@[j].id,
        decreases links.len() - at,
    {
        numbers.push(links[at].id);
        at = at + 1;
    }
    numbers
}

impl Machine {
    /// The parts of a tunnel of which nothing has been asked yet.
    fn idle(credentials: SshCredentials, target: TargetEndpoint) -> (machine: Machine)
        ensures
            machine@ == TunnelModel::idle(credentials@, target@),
    {
        Machine {
            state: TunnelState::Idle,
            credentials,
            target,
            session: None,
            binding: None,
            links: Vec::new(),
            next_link: 0,
        }
    }

    /// Parts that belong to no tunnel: they stand in while the parts of a
    /// tunnel are being worked on.
    fn vacant() -> (machine: Machine)
        ensures
            machine@.well_formed(),
            machine@.state is Idle,
    {
        Machine::idle(
            SshCredentials {
                host: String::new(),
                port: 0,
                user: String::new(),
                auth_method: AuthMethod::PrivateKey { path: String::new(), passphrase: None },
            },
            TargetEndpoint { host: String::new(), port: 0 },
        )
    }

    /// Copies the links in flight.
    fn links(&self) -> (links: Vec<LinkEntry>)
        ensures
            links@ == self@.links,
    {
        let mut links: Vec<LinkEntry> = Vec::new();
        let mut at: usize = 0;
        while at < self.links.len()
            invariant
                at <= self.links.len(),
                links@ == self.links@.take(at as int),
            decreases self.links.len() - at,
        {
            links.push(self.links[at]);
            at = at + 1;
        }
        links
    }

    fn on_shutdown(&mut self, farewell: Option<LanguageTag>) -> (action: TunnelAction)
        requires
            old(self)@.well_formed(),
            old(self)@.state is Active,
        ensures
            final(self)@ == old(self)@.on_shutdown(farewell).0,
            action@ == old(self)@.on_shutdown(farewell).1,
    {
        let links = link_ids(&self.links);
        let mut session = self.session.take().unwrap();
        let notice = match farewell {
            Some(language) => session.disconnect("Disconnected by User", language.text()),
            None => {
                let _ = session.advance(SessionEvent::TransportFailed);
                None
            },
        };
        self.session = Some(session);
        self.state = if self.links.len() == 0 {
            TunnelState::Closed
        } else {
            TunnelState::Closing
        };
        TunnelAction::Shutdown { links, notice }
    }

    fn on_bind_failure(&mut self) -> (action: TunnelAction)
        requires
            old(self)@.well_formed(),
            old(self)@.state is Listening,
        ensures
            final(self)@ == old(self)@.on_bind_failure().0,
            action@ == old(self)@.on_bind_failure().1,
    {
        let mut session = self.session.take().unwrap();
        let notice = session.disconnect(
            "Failed to bind a local port for the tunnel",
            LanguageTag::Unspecified.text(),
        );
        self.session = Some(session);
        self.state = TunnelState::Failed { error: TunnelError::Bind };
        TunnelAction::Abort { error: TunnelError::Bind, notice }
    }

    fn on_accepted(&mut self) -> (action: TunnelAction)
        requires
            old(self)@.well_formed(),
            old(self)@.state is Active,
        ensures
            final(self)@ == old(self)@.on_accepted().0,
            action@ == old(self)@.on_accepted().1,
    {
        if self.next_link == u64::MAX {
            return TunnelAction::Refuse { error: TunnelError::Channel };
        }
        let binding = self.binding.unwrap();
        let address = binding.address();
        let asked = match &self.session {
            Some(session) => session.open_direct_forward(&self.target, address.as_str(), binding.port()),
            None => Err(TunnelError::SessionClosed),
        };
        let request = match asked {
            Ok(request) => request,
            Err(error) => {
                return TunnelAction::Refuse { error };
            },
        };
        let link = self.next_link;
        self.links.push(LinkEntry { id: link, relaying: false });
        self.next_link = link + 1;
        TunnelAction::OpenChannel { link, request }
    }

    fn on_session(&mut self, event: SessionEvent) -> (action: TunnelAction)
        requires
            old(self)@.well_formed(),
            old(self)@.state is Authenticating,
        ensures
            final(self)@ == old(self)@.on_session_while_authenticating(event).0,
            action@ == old(self)@.on_session_while_authenticating(event).1,
    {
        let mut session = self.session.take().unwrap();
        let asked = session.advance(event);
        self.session = Some(session);
        match asked {
            SessionAction::Ready => {
                self.state = TunnelState::Listening;
                TunnelAction::BindListener
            },
            SessionAction::Abort { error } => {
                self.state = TunnelState::Failed { error };
                TunnelAction::Abort { error, notice: None }
            },
            SessionAction::Ignore | SessionAction::Lost => TunnelAction::Nothing,
            action => TunnelAction::Session { action },
        }
    }

    fn drop_link(&mut self, link: u64) -> (found: bool)
        requires
            old(self)@.well_formed(),
        ensures
            found == has_link(old(self)@.links, link),
            final(self)@ == (TunnelModel {
                links: without(old(self)@.links, link),
                ..old(self)@
            }),
    {
        let at = find_link(&self.links, link);
        if at < self.links.len() {
            let _ = self.links.remove(at);
            true
        } else {
            false
        }
    }

    fn wind_up(&mut self)
        requires
            old(self)@.state is Closing,
        ensures
            final(self)@ == (TunnelModel {
                state: wound_up(old(self)@.links),
                ..old(self)@
            }),
    {
        if self.links.len() == 0 {
            self.state = TunnelState::Closed;
        }
    }

    /// Takes in what the caller reports and returns what to do next.
    fn step(&mut self, event: TunnelEvent) -> (action: TunnelAction)
        requires
            old(self)@.well_formed(),
        ensures
            final(self)@ == old(self)@.next(event).0,
            action@ == old(self)@.next(event).1,
            final(self)@.well_formed(),
    {
        proof {
            next_preserves_well_formed(self@, event);
        }
        match (self.state, event) {
            (TunnelState::Idle, TunnelEvent::Open) => {
                let (session, first) = SshSession::connect(self.credentials.clone());
                self.session = Some(session);
                self.state = TunnelState::Authenticating;
                TunnelAction::Session { action: first }
            },
            (TunnelState::Authenticating, TunnelEvent::Session { event }) => self.on_session(event),
            (TunnelState::Listening, TunnelEvent::ListenerBound { port }) => {
                match LocalBinding::bound(port) {
                    Some(binding) => {
                        self.binding = Some(binding);
                        self.state = TunnelState::Active;
                        TunnelAction::Serve { binding }
                    },
                    None => self.on_bind_failure(),
                }
            },
            (TunnelState::Listening, TunnelEvent::ListenerFailed) => self.on_bind_failure(),
            (TunnelState::Listening, TunnelEvent::Session { event: SessionEvent::TransportFailed }) => {
                let mut session = self.session.take().unwrap();
                let _ = session.advance(SessionEvent::TransportFailed);
                self.session = Some(session);
                self.state = TunnelState::Failed { error: TunnelError::Transport };
                TunnelAction::Abort { error: TunnelError::Transport, notice: None }
            },
            (TunnelState::Active, TunnelEvent::Accepted) => self.on_accepted(),
            (TunnelState::Active, TunnelEvent::ChannelOpened { link }) => {
                let at = find_link(&self.links, link);
                if at < self.links.len() && !self.links[at].relaying {
                    self.links.set(at, LinkEntry { id: link, relaying: true });
                    TunnelAction::Relay { link }
                } else {
                    TunnelAction::Nothing
                }
            },
            (TunnelState::Active, TunnelEvent::ChannelFailed { link }) => {
                let at = find_link(&self.links, link);
                if at < self.links.len() && !self.links[at].relaying {
                    let _ = self.links.remove(at);
                    TunnelAction::DropLocal { link, error: TunnelError::Channel }
                } else {
                    TunnelAction::Nothing
                }
            },
            (TunnelState::Active, TunnelEvent::LinkFinished { link }) => {
                let _ = self.drop_link(link);
                TunnelAction::Nothing
            },
            (TunnelState::Active, TunnelEvent::Close { language }) => self.on_shutdown(Some(language)),
            (TunnelState::Active, TunnelEvent::Session { event: SessionEvent::TransportFailed }) => {
                self.on_shutdown(None)
            },
            (TunnelState::Closing, TunnelEvent::ChannelOpened { link })
            | (TunnelState::Closing, TunnelEvent::ChannelFailed { link }) => {
                let found = self.drop_link(link);
                self.wind_up();
                if found {
                    TunnelAction::DropLocal { link, error: TunnelError::SessionClosed }
                } else {
                    TunnelAction::Nothing
                }
            },
            (TunnelState::Closing, TunnelEvent::LinkFinished { link }) => {
                let _ = self.drop_link(link);
                self.wind_up();
                TunnelAction::Nothing
            },
            (TunnelState::Active, _) => TunnelAction::Nothing,
            (_, TunnelEvent::Accepted) => TunnelAction::Refuse { error: TunnelError::SessionClosed },
            _ => TunnelAction::Nothing,
        }
    }
}

/// The controller of one tunnel.
///
/// A controller is valid at all times: see [`TunnelModel::well_formed`].
pub struct SshTunnel {
    machine: Machine,
}

impl View for SshTunnel {
    type V = TunnelModel;

    closed spec fn view(&self) -> TunnelModel {
        self.machine@
    }
}

impl SshTunnel {
    /// What exists of a tunnel fits the state it is in.
    #[verifier::type_invariant]
    closed spec fn valid(&self) -> bool {
        self.machine@.well_formed()
    }

    /// A tunnel to `target` through the jump host of `credentials`, of which
    /// nothing has been asked yet. Credentials that would submit an empty
    /// password are rejected.
    pub fn new(credentials: SshCredentials, target: TargetEndpoint) -> (tunnel: Result<
        SshTunnel,
        TunnelError,
    >)
        ensures
            credentials@.well_formed() ==> tunnel is Ok && tunnel->Ok_0@ == TunnelModel::idle(
                credentials@,
                target@,
            ) && tunnel->Ok_0@.well_formed(),
            !credentials@.well_formed() ==> tunnel == Err::<SshTunnel, TunnelError>(
                TunnelError::InvalidCredentials,
            ),
    {
        let usable = match &credentials.auth_method {
            AuthMethod::Password { secret } => !secret.as_str().is_empty(),
            AuthMethod::PrivateKey { .. } => true,
        };
        if !usable {
            return Err(TunnelError::InvalidCredentials);
        }
        Ok(SshTunnel { machine: Machine::idle(credentials, target) })
    }

    /// Starts opening a tunnel to `target_host:target_port` through the jump
    /// host that `ssh_opts` describes: returns the controller, which is
    /// authenticating, together with the first thing to do.
    ///
    /// Options that hold neither a key file nor a password are rejected.
    pub fn create(ssh_opts: SshOpts, target_host: String, target_port: u32) -> (opening: Result<
        (SshTunnel, TunnelAction),
        TunnelError,
    >)
        ensures
            match spec_credentials(ssh_opts@) {
                Some(credentials) => {
                    let idle = TunnelModel::idle(
                        credentials,
                        TargetEndpointView { host: target_host@, port: target_port },
                    );
                    &&& opening is Ok
                    &&& opening->Ok_0.0@ == idle.next(TunnelEvent::Open).0
                    &&& opening->Ok_0.1@ == idle.next(TunnelEvent::Open).1
                    &&& opening->Ok_0.0@.well_formed()
                },
                None => opening == Err::<(SshTunnel, TunnelAction), TunnelError>(
                    TunnelError::InvalidCredentials,
                ),
            },
    {
        let credentials = match SshCredentials::resolve(&ssh_opts) {
            Ok(credentials) => credentials,
            Err(error) => {
                return Err(error);
            },
        };
        let target = TargetEndpoint { host: target_host, port: target_port };
        match SshTunnel::new(credentials, target) {
            Ok(mut tunnel) => {
                let action = tunnel.step(TunnelEvent::Open);
                Ok((tunnel, action))
            },
            Err(error) => Err(error),
        }
    }

    /// The state of the tunnel.
    pub fn state(&self) -> (state: TunnelState)
        ensures
            state == self@.state,
            self@.well_formed(),
    {
        proof {
            use_type_invariant(self);
        }
        self.machine.state
    }

    /// The local end of the tunnel, once its listener has been bound.
    pub fn addr(&self) -> (binding: Option<LocalBinding>)
        ensures
            binding == self@.binding,
    {
        self.machine.binding
    }

    /// The credentials with which the tunnel reaches its jump host.
    pub fn opts(&self) -> (credentials: &SshCredentials)
        ensures
            credentials@ == self@.credentials,
    {
        &self.machine.credentials
    }

    /// The target that every link of the tunnel is forwarded to.
    pub fn target(&self) -> (target: &TargetEndpoint)
        ensures
            target@ == self@.target,
    {
        &self.machine.target
    }

    /// The links in flight, in the order in which they were accepted.
    pub fn links(&self) -> (links: Vec<LinkEntry>)
        ensures
            links@ == self@.links,
    {
        self.machine.links()
    }

    /// Takes in what the caller reports and returns what to do next. The
    /// controller is valid before the call and after it.
    pub fn step(&mut self, event: TunnelEvent) -> (action: TunnelAction)
        ensures
            old(self)@.well_formed(),
            final(self)@ == old(self)@.next(event).0,
            action@ == old(self)@.next(event).1,
            final(self)@.well_formed(),
    {
        proof {
            use_type_invariant(&*self);
        }
        let mut machine = Machine::vacant();
        core::mem::swap(&mut self.machine, &mut machine);
        let action = machine.step(event);
        self.machine = machine;
        action
    }

    /// Registers a connection that the listener accepted and returns the
    /// number of its link with the request for its channel.
    ///
    /// Only an active tunnel forwards: on any other the call fails with
    /// `SessionClosed` and changes nothing.
    pub fn open_tunnel(&mut self) -> (opened: Result<(u64, ChannelRequest), TunnelError>)
        ensures
            final(self)@ == old(self)@.next(TunnelEvent::Accepted).0,
            final(self)@.well_formed(),
            match old(self)@.next(TunnelEvent::Accepted).1 {
                TunnelActionView::OpenChannel { link, request } => opened is Ok && opened->Ok_0.0 == link
                    && opened->Ok_0.1@ == request,
                TunnelActionView::Refuse { error } => opened == Err::<(u64, ChannelRequest), TunnelError>(
                    error,
                ),
                _ => false,
            },
    {
        match self.step(TunnelEvent::Accepted) {
            TunnelAction::OpenChannel { link, request } => Ok((link, request)),
            TunnelAction::Refuse { error } => Err(error),
            _ => Err(TunnelError::SessionClosed),
        }
    }

    /// Closes the tunnel with a farewell in English. On an active tunnel
    /// this returns the shutdown to carry out; on any other it changes
    /// nothing and asks for nothing, so a second call is harmless.
    pub fn disconnect(&mut self) -> (action: TunnelAction)
        ensures
            final(self)@ == old(self)@.next(TunnelEvent::Close { language: LanguageTag::English }).0,
            action@ == old(self)@.next(TunnelEvent::Close { language: LanguageTag::English }).1,
            final(self)@.well_formed(),
    {
        self.step(TunnelEvent::Close { language: LanguageTag::English })
    }
}

/// Closes `tunnel` with a farewell that names no language: see
/// [`SshTunnel::disconnect`].
pub fn disconnect(tunnel: &mut SshTunnel) -> (action: TunnelAction)
    ensures
        final(tunnel)@ == old(tunnel)@.next(
            TunnelEvent::Close { language: LanguageTag::Unspecified },
        ).0,
        action@ == old(tunnel)@.next(TunnelEvent::Close { language: LanguageTag::Unspecified }).1,
        final(tunnel)@.well_formed(),
{
    tunnel.step(TunnelEvent::Close { language: LanguageTag::Unspecified })
}

/// Starts opening a tunnel: see [`SshTunnel::create`].
pub fn jump(ssh_opts: SshOpts, target_host: String, target_port: u32) -> (opening: Result<
    (SshTunnel, TunnelAction),
    TunnelError,
>)
    ensures
        match spec_credentials(ssh_opts@) {
            Some(credentials) => {
                let idle = TunnelModel::idle(
                    credentials,
                    TargetEndpointView { host: target_host@, port: target_port },
                );
                &&& opening is Ok
                &&& opening->Ok_0.0@ == idle.next(TunnelEvent::Open).0
                &&& opening->Ok_0.1@ == idle.next(TunnelEvent::Open).1
                &&& opening->Ok_0.0@.well_formed()
            },
            None => opening == Err::<(SshTunnel, TunnelAction), TunnelError>(
                TunnelError::InvalidCredentials,
            ),
        },
{
    SshTunnel::create(ssh_opts, target_host, target_port)
}

} // verus!
