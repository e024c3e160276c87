//! The controller as a transition system over plain values.

use crate::credentials::{spec_loopback, LocalBinding, SshCredentialsView, TargetEndpointView};
use crate::error::TunnelError;
use crate::session::{
    ChannelRequestView, DisconnectNoticeView, LanguageTag, SessionActionView, SessionEvent,
    SessionModel, SessionPhase,
};
use vstd::prelude::*;

verus! {

/// The states of a tunnel.
#[derive(Clone, Copy, Debug, PartialEq, Eq, Structural)]
pub enum TunnelState {
    /// Nothing has been asked of the tunnel yet.
    Idle,
    /// The session is connecting to the jump host and authenticating.
    Authenticating,
    /// The session is authenticated and the local listener is being bound.
    Listening,
    /// The listener accepts connections and each one is forwarded.
    Active,
    /// The tunnel was shut down and waits for its links to wind up.
    Closing,
    /// Nothing of the tunnel is left running.
    Closed,
    /// The tunnel could not be opened.
    Failed { error: TunnelError },
}

/// One forwarded connection as the controller knows it.
#[derive(Clone, Copy, Debug, PartialEq, Eq, Structural)]
pub struct LinkEntry {
    /// The number of the link, unique within its tunnel.
    pub id: u64,
    /// Whether the channel of the link is open and its relay runs; until
    /// then the channel is being opened.
    pub relaying: bool,
}

/// What is reported to the controller.
#[derive(Clone, Copy, Debug, PartialEq, Eq, Structural)]
pub enum TunnelEvent {
    /// The caller asks for the tunnel to be opened.
    Open,
    /// Something happened to the session.
    Session { event: SessionEvent },
    /// The listener was bound to `port` on the loopback address.
    ListenerBound { port: u16 },
    /// No local port could be bound.
    ListenerFailed,
    /// The listener accepted a local connection.
    Accepted,
    /// The channel for `link` is open.
    ChannelOpened { link: u64 },
    /// The jump host could not open the channel for `link`.
    ChannelFailed { link: u64 },
    /// The relay of `link` is over and both its ends are closed.
    LinkFinished { link: u64 },
    /// The caller asks for the tunnel to be closed, with a farewell to the
    /// jump host that names this language.
    Close { language: LanguageTag },
}

/// The mathematical value of what the controller asks for.
pub enum TunnelActionView {
    /// Nothing to do.
    Nothing,
    /// Carry out this step of opening the session.
    Session { action: SessionActionView },
    /// Bind a listener to the loopback address, on a port that the operating
    /// system chooses.
    BindListener,
    /// The tunnel is open: accept connections on the listener and hand the
    /// binding to the caller.
    Serve { binding: LocalBinding },
    /// Open a channel for the connection just accepted, known as `link`.
    OpenChannel { link: u64, request: ChannelRequestView },
    /// Run the relay of `link`.
    Relay { link: u64 },
    /// Close the local connection of `link`, and its channel if it has one:
    /// the link never came to relay, for the reason that `error` gives.
    DropLocal { link: u64, error: TunnelError },
    /// Close the connection just accepted.
    Refuse { error: TunnelError },
    /// Stop accepting, close the listener, signal cancellation to the listed
    /// links and, if there is a notice, send it and drop the transport.
    Shutdown { links: Seq<u64>, notice: Option<DisconnectNoticeView> },
    /// The tunnel could not be opened: send the notice if there is one, drop
    /// the transport and report the error.
    Abort { error: TunnelError, notice: Option<DisconnectNoticeView> },
}

/// The reason given to the jump host when the caller closes the tunnel.
pub open spec fn spec_close_reason() -> Seq<char> {
    "Disconnected by User"@
}

/// The reason given to the jump host when no local port could be bound.
pub open spec fn spec_bind_failure_reason() -> Seq<char> {
    "Failed to bind a local port for the tunnel"@
}

/// The position of the first link numbered `id`, or the length of `links`
/// where there is none.
pub open spec fn index_of(links: Seq<LinkEntry>, id: u64) -> int
    decreases links.len(),
{
    if links.len() == 0 {
        0
    } else if links[0].id == id {
        0
    } else {
        1 + index_of(links.drop_first(), id)
    }
}

/// Whether a link numbered `id` is among `links`.
pub open spec fn has_link(links: Seq<LinkEntry>, id: u64) -> bool {
    index_of(links, id) < links.len()
}

/// `links` without the link numbered `id`.
pub open spec fn without(links: Seq<LinkEntry>, id: u64) -> Seq<LinkEntry> {
    if has_link(links, id) {
        links.remove(index_of(links, id))
    } else {
        links
    }
}

/// `links` with the link numbered `id` marked as relaying.
pub open spec fn with_relay(links: Seq<LinkEntry>, id: u64) -> Seq<LinkEntry> {
    if has_link(links, id) {
        links.update(index_of(links, id), LinkEntry { id, relaying: true })
    } else {
        links
    }
}

/// The numbers of `links`, in the order in which they were accepted.
pub open spec fn ids(links: Seq<LinkEntry>) -> Seq<u64> {
    Seq::new(links.len(), |i: int| links[i].id)
}

/// The state after shutting down a tunnel that has `links` in flight.
pub open spec fn wound_up(links: Seq<LinkEntry>) -> TunnelState {
    if links.len() == 0 {
        TunnelState::Closed
    } else {
        TunnelState::Closing
    }
}

/// The mathematical value of a tunnel.
pub struct TunnelModel {
    pub state: TunnelState,
    pub credentials: SshCredentialsView,
    pub target: TargetEndpointView,
    /// The session, from the moment the tunnel is asked to open.
    pub session: Option<SessionModel>,
    /// The local end, from the moment the listener is bound.
    pub binding: Option<LocalBinding>,
    /// The links in flight, in the order in which they were accepted.
    pub links: Seq<LinkEntry>,
    /// The number that the next link gets.
    pub next_link: u64,
}

impl TunnelModel {
    /// A tunnel of which nothing has been asked yet.
    pub open spec fn idle(credentials: SshCredentialsView, target: TargetEndpointView) -> TunnelModel {
        TunnelModel {
            state: TunnelState::Idle,
            credentials,
            target,
            session: None,
            binding: None,
            links: Seq::<LinkEntry>::empty(),
            next_link: 0,
        }
    }

    /// The phase of the session, where there is one.
    pub open spec fn phase(self) -> Option<SessionPhase> {
        match self.session {
            Some(session) => Some(session.phase),
            None => None,
        }
    }

    /// Validity of a tunnel. Each state fixes what exists: the session from
    /// `Authenticating` on, authenticated exactly while the tunnel listens;
    /// the binding once the tunnel has been active; links only while it is
    /// active or closing. Links carry distinct numbers below the next one.
    pub open spec fn well_formed(self) -> bool {
        &&& self.credentials.well_formed()
        &&& self.binding matches Some(binding) ==> binding.spec_port() != 0
        &&& self.session matches Some(session) ==> session.credentials == self.credentials
        &&& forall|i: int| 0 <= i < self.links.len() ==> (#[trigger] self.links[i]).id < self.next_link
        &&& forall|i: int, j: int|
            0 <= i < j < self.links.len() ==> (#[trigger] self.links[i]).id != (
            #[trigger] self.links[j]).id
        &&& match self.state {
            TunnelState::Idle => self.session is None && self.binding is None && self.links.len() == 0,
            TunnelState::Authenticating => self.session is Some && self.session->Some_0.phase.opening()
                && self.binding is None && self.links.len() == 0,
            TunnelState::Listening => self.phase() == Some(SessionPhase::Authenticated)
                && self.binding is None && self.links.len() == 0,
            TunnelState::Active => self.phase() == Some(SessionPhase::Authenticated)
                && self.binding is Some,
            TunnelState::Closing => self.phase() == Some(SessionPhase::Closed) && self.binding is Some
                && self.links.len() > 0,
            TunnelState::Closed => self.phase() == Some(SessionPhase::Closed) && self.binding is Some
                && self.links.len() == 0,
            TunnelState::Failed { error } => self.session is Some && (self.phase() == Some(
                SessionPhase::Failed { error },
            ) || self.phase() == Some(SessionPhase::Closed)) && self.binding is None
                && self.links.len() == 0,
        }
    }

    /// An idle tunnel that is asked to open starts its session.
    pub open spec fn on_open(self) -> (TunnelModel, TunnelActionView) {
        let session = SessionModel::start(self.credentials);
        (
            TunnelModel { state: TunnelState::Authenticating, session: Some(session), ..self },
            TunnelActionView::Session { action: session.first_action() },
        )
    }

    /// While authenticating, the session's own steps are passed on; its
    /// success leads to binding the listener, its failure fails the tunnel.
    pub open spec fn on_session_while_authenticating(self, event: SessionEvent) -> (
        TunnelModel,
        TunnelActionView,
    ) {
        let session = self.session->Some_0;
        let moved = TunnelModel { session: Some(session.after(event)), ..self };
        match session.react(event).1 {
            SessionActionView::Ready => (
                TunnelModel { state: TunnelState::Listening, ..moved },
                TunnelActionView::BindListener,
            ),
            SessionActionView::Abort { error } => (
                TunnelModel { state: TunnelState::Failed { error }, ..moved },
                TunnelActionView::Abort { error, notice: None },
            ),
            SessionActionView::Ignore | SessionActionView::Lost => (moved, TunnelActionView::Nothing),
            action => (moved, TunnelActionView::Session { action }),
        }
    }

    /// A tunnel whose listener cannot be bound disconnects its session and
    /// fails, leaving nothing running.
    pub open spec fn on_bind_failure(self) -> (TunnelModel, TunnelActionView) {
        let session = self.session->Some_0;
        (
            TunnelModel {
                state: TunnelState::Failed { error: TunnelError::Bind },
                session: Some(session.disconnected()),
                ..self
            },
            TunnelActionView::Abort {
                error: TunnelError::Bind,
                notice: session.farewell(
                    spec_bind_failure_reason(),
                    LanguageTag::Unspecified.spec_text(),
                ),
            },
        )
    }

    /// A tunnel whose listener is bound becomes active and is handed to the
    /// caller. Port zero is no port: it counts as a failure to bind.
    pub open spec fn on_listener_bound(self, port: u16) -> (TunnelModel, TunnelActionView) {
        if port != 0 {
            let binding = LocalBinding::on_port(port);
            (
                TunnelModel { state: TunnelState::Active, binding: Some(binding), ..self },
                TunnelActionView::Serve { binding },
            )
        } else {
            self.on_bind_failure()
        }
    }

    /// A tunnel that loses its session before its listener is bound fails.
    pub open spec fn on_session_lost_while_listening(self) -> (TunnelModel, TunnelActionView) {
        let session = self.session->Some_0;
        (
            TunnelModel {
                state: TunnelState::Failed { error: TunnelError::Transport },
                session: Some(session.after(SessionEvent::TransportFailed)),
                ..self
            },
            TunnelActionView::Abort { error: TunnelError::Transport, notice: None },
        )
    }

    /// The request for the channel of a link: to the target, with the local
    /// end of the tunnel as the originator.
    pub open spec fn channel_request(self) -> ChannelRequestView {
        SessionModel::channel_request(
            self.target,
            spec_loopback(),
            self.binding->Some_0.spec_port(),
        )
    }

    /// An active tunnel gives each accepted connection the next number and
    /// asks for its channel. Once the numbers run out it refuses.
    pub open spec fn on_accepted(self) -> (TunnelModel, TunnelActionView) {
        if self.next_link < u64::MAX {
            (
                TunnelModel {
                    links: self.links.push(LinkEntry { id: self.next_link, relaying: false }),
                    next_link: (self.next_link + 1) as u64,
                    ..self
                },
                TunnelActionView::OpenChannel { link: self.next_link, request: self.channel_request() },
            )
        } else {
            (self, TunnelActionView::Refuse { error: TunnelError::Channel })
        }
    }

    /// An active tunnel closes down: it shuts its listener, signals every link
    /// and parts from the jump host, with a farewell if the session is still
    /// there to hear it. It is closed at once if no link is in flight.
    pub open spec fn on_shutdown(self, farewell: Option<LanguageTag>) -> (
        TunnelModel,
        TunnelActionView,
    ) {
        let session = self.session->Some_0;
        (
            TunnelModel {
                state: wound_up(self.links),
                session: Some(
                    if farewell is Some {
                        session.disconnected()
                    } else {
                        session.after(SessionEvent::TransportFailed)
                    },
                ),
                ..self
            },
            TunnelActionView::Shutdown {
                links: ids(self.links),
                notice: match farewell {
                    Some(language) => session.farewell(spec_close_reason(), language.spec_text()),
                    None => None,
                },
            },
        )
    }

    /// What an active tunnel does with an event.
    pub open spec fn on_active(self, event: TunnelEvent) -> (TunnelModel, TunnelActionView) {
        match event {
            TunnelEvent::Accepted => self.on_accepted(),
            TunnelEvent::ChannelOpened { link } => if has_link(self.links, link) && !self.links[index_of(
                self.links,
                link,
            )].relaying {
                (
                    TunnelModel { links: with_relay(self.links, link), ..self },
                    TunnelActionView::Relay { link },
                )
            } else {
                (self, TunnelActionView::Nothing)
            },
            TunnelEvent::ChannelFailed { link } => if has_link(self.links, link) && !self.links[index_of(
                self.links,
                link,
            )].relaying {
                (
                    TunnelModel { links: without(self.links, link), ..self },
                    TunnelActionView::DropLocal { link, error: TunnelError::Channel },
                )
            } else {
                (self, TunnelActionView::Nothing)
            },
            TunnelEvent::LinkFinished { link } => (
                TunnelModel { links: without(self.links, link), ..self },
                TunnelActionView::Nothing,
            ),
            TunnelEvent::Close { language } => self.on_shutdown(Some(language)),
            TunnelEvent::Session { event: SessionEvent::TransportFailed } => self.on_shutdown(None),
            _ => (self, TunnelActionView::Nothing),
        }
    }

    /// What a closing tunnel does with an event: it lets go of each link that
    /// reports back, dropping a channel that opened too late, and is closed
    /// when the last one is gone. It accepts nothing and a second request to
    /// close changes nothing.
    pub open spec fn on_closing(self, event: TunnelEvent) -> (TunnelModel, TunnelActionView) {
        match event {
            TunnelEvent::ChannelOpened { link } | TunnelEvent::ChannelFailed { link } => {
                let links = without(self.links, link);
                (
                    TunnelModel { state: wound_up(links), links, ..self },
                    if has_link(self.links, link) {
                        TunnelActionView::DropLocal { link, error: TunnelError::SessionClosed }
                    } else {
                        TunnelActionView::Nothing
                    },
                )
            },
            TunnelEvent::LinkFinished { link } => {
                let links = without(self.links, link);
                (TunnelModel { state: wound_up(links), links, ..self }, TunnelActionView::Nothing)
            },
            TunnelEvent::Accepted => (self, TunnelActionView::Refuse { error: TunnelError::SessionClosed }),
            _ => (self, TunnelActionView::Nothing),
        }
    }

    /// The tunnel after `event`, and what it asks for.
    ///
    /// An event that does not belong to the state in which it arrives changes
    /// nothing and asks for nothing, except that a connection accepted by a
    /// tunnel that is not active is refused.
    pub open spec fn next(self, event: TunnelEvent) -> (TunnelModel, TunnelActionView) {
        match self.state {
            TunnelState::Idle if event is Open => self.on_open(),
            TunnelState::Authenticating if event is Session => self.on_session_while_authenticating(
                event->event,
            ),
            TunnelState::Listening => match event {
                TunnelEvent::ListenerBound { port } => self.on_listener_bound(port),
                TunnelEvent::ListenerFailed => self.on_bind_failure(),
                TunnelEvent::Session { event: SessionEvent::TransportFailed } => self.on_session_lost_while_listening(),
                TunnelEvent::Accepted => (
                    self,
                    TunnelActionView::Refuse { error: TunnelError::SessionClosed },
                ),
                _ => (self, TunnelActionView::Nothing),
            },
            TunnelState::Active => self.on_active(event),
            TunnelState::Closing => self.on_closing(event),
            _ => if event is Accepted {
                (self, TunnelActionView::Refuse { error: TunnelError::SessionClosed })
            } else {
                (self, TunnelActionView::Nothing)
            },
        }
    }

    /// The tunnel after a sequence of events.
    pub open spec fn after_all(self, events: Seq<TunnelEvent>) -> TunnelModel
        decreases events.len(),
    {
        if events.len() == 0 {
            self
        } else {
            self.next(events[0]).0.after_all(events.drop_first())
        }
    }

    /// What the tunnel asks for over a sequence of events, in order.
    pub open spec fn actions(self, events: Seq<TunnelEvent>) -> Seq<TunnelActionView>
        decreases events.len(),
    {
        if events.len() == 0 {
            Seq::<TunnelActionView>::empty()
        } else {
            seq![self.next(events[0]).1] + self.next(events[0]).0.actions(events.drop_first())
        }
    }
}

} // verus!
