//! One forwarded connection: the relay between a local stream and the SSH
//! channel that was opened for it.
//!
//! The link decides what happens to each chunk that either end hands in and
//! when the relay is over. It never looks into a chunk and never holds one
//! back: what is read on one end is what is written on the other, in the
//! order read, until either end closes, an I/O error occurs or the tunnel is
//! cancelled.

use crate::error::TunnelError;
use vstd::prelude::*;
use vstd::slice::{slice_subrange, slice_to_vec};

verus! {

/// Size of the buffer for reads from the local stream.
pub const LOCAL_READ_BUFFER: usize = 255;

/// Size of the buffer for reads from the SSH channel.
pub const CHANNEL_READ_BUFFER: usize = 8192;

/// One end of a link.
#[derive(Clone, Copy, Debug, PartialEq, Eq, Structural)]
pub enum LinkEnd {
    /// The local TCP stream.
    Local,
    /// The SSH channel to the target.
    Remote,
}

impl LinkEnd {
    /// The other end.
    pub open spec fn spec_peer(self) -> LinkEnd {
        match self {
            LinkEnd::Local => LinkEnd::Remote,
            LinkEnd::Remote => LinkEnd::Local,
        }
    }

    /// The end to which bytes read on this end are written.
    pub fn peer(&self) -> (other: LinkEnd)
        ensures
            other == self.spec_peer(),
    {
        match self {
            LinkEnd::Local => LinkEnd::Remote,
            LinkEnd::Remote => LinkEnd::Local,
        }
    }
}

/// Why a relay ended.
#[derive(Clone, Copy, Debug, PartialEq, Eq, Structural)]
pub enum LinkOutcome {
    /// The named end reached the end of its stream.
    Eof { from: LinkEnd },
    /// A read or write on the named end failed.
    IoFailed { on: LinkEnd },
    /// The tunnel was closed.
    Cancelled,
}

impl LinkOutcome {
    /// The error that an outcome amounts to: an I/O failure is one of the
    /// link, a cancellation means the tunnel was closed, and the end of a
    /// stream is no error.
    pub open spec fn spec_error(self) -> Option<TunnelError> {
        match self {
            LinkOutcome::Eof { .. } => None,
            LinkOutcome::IoFailed { .. } => Some(TunnelError::LinkIo),
            LinkOutcome::Cancelled => Some(TunnelError::SessionClosed),
        }
    }

    /// The error to report for this outcome, if it is one.
    pub fn error(&self) -> (error: Option<TunnelError>)
        ensures
            error == self.spec_error(),
    {
        match self {
            LinkOutcome::Eof { .. } => None,
            LinkOutcome::IoFailed { .. } => Some(TunnelError::LinkIo),
            LinkOutcome::Cancelled => Some(TunnelError::SessionClosed),
        }
    }
}

/// What a finished link reports: how it ended and how much it relayed.
#[derive(Clone, Copy, Debug, PartialEq, Eq, Structural)]
pub struct LinkReport {
    pub id: u64,
    pub outcome: LinkOutcome,
    pub bytes_local_to_remote: u64,
    pub bytes_remote_to_local: u64,
}

/// Whether a link still relays.
#[derive(Clone, Copy, Debug, PartialEq, Eq, Structural)]
pub enum LinkState {
    Relaying,
    Finished { outcome: LinkOutcome },
}

/// What the caller reports to a link.
#[derive(Debug, PartialEq, Eq)]
pub enum LinkEvent {
    /// `chunk` was read from `from`.
    Read { from: LinkEnd, chunk: Vec<u8> },
    /// `from` reached the end of its stream.
    Eof { from: LinkEnd },
    /// A read or write on `on` failed.
    IoFailed { on: LinkEnd },
    /// The tunnel's cancellation signal fired.
    Cancelled,
}

/// The mathematical value of a [`LinkEvent`].
pub enum LinkEventView {
    Read { from: LinkEnd, chunk: Seq<u8> },
    Eof { from: LinkEnd },
    IoFailed { on: LinkEnd },
    Cancelled,
}

impl View for LinkEvent {
    type V = LinkEventView;

    open spec fn view(&self) -> LinkEventView {
        match self {
            LinkEvent::Read { from, chunk } => LinkEventView::Read { from: *from, chunk: chunk@ },
            LinkEvent::Eof { from } => LinkEventView::Eof { from: *from },
            LinkEvent::IoFailed { on } => LinkEventView::IoFailed { on: *on },
            LinkEvent::Cancelled => LinkEventView::Cancelled,
        }
    }
}

impl LinkEventView {
    /// The outcome with which this event ends a relay, if it ends one.
    pub open spec fn ending(self) -> Option<LinkOutcome> {
        match self {
            LinkEventView::Read { .. } => None,
            LinkEventView::Eof { from } => Some(LinkOutcome::Eof { from }),
            LinkEventView::IoFailed { on } => Some(LinkOutcome::IoFailed { on }),
            LinkEventView::Cancelled => Some(LinkOutcome::Cancelled),
        }
    }
}

/// What a link asks of the caller.
#[derive(Debug, PartialEq, Eq)]
pub enum LinkAction {
    /// Write `chunk` to `to`.
    Forward { to: LinkEnd, chunk: Vec<u8> },
    /// Close both ends, the channel with an end-of-file, and report the
    /// outcome to the tunnel.
    Close { outcome: LinkOutcome },
    /// The relay is over: drop what was handed in.
    Discard,
}

/// The mathematical value of a [`LinkAction`].
pub enum LinkActionView {
    Forward { to: LinkEnd, chunk: Seq<u8> },
    Close { outcome: LinkOutcome },
    Discard,
}

impl View for LinkAction {
    type V = LinkActionView;

    open spec fn view(&self) -> LinkActionView {
        match self {
            LinkAction::Forward { to, chunk } => LinkActionView::Forward { to: *to, chunk: chunk@ },
            LinkAction::Close { outcome } => LinkActionView::Close { outcome: *outcome },
            LinkAction::Discard => LinkActionView::Discard,
        }
    }
}

/// A count of bytes that stops at the largest value it can hold.
pub open spec fn saturating_count(count: u64, more: nat) -> u64 {
    if count + more > u64::MAX {
        u64::MAX
    } else {
        (count + more) as u64
    }
}

/// The mathematical value of a [`ForwardLink`].
pub struct LinkModel {
    pub id: u64,
    pub state: LinkState,
    pub bytes_local_to_remote: u64,
    pub bytes_remote_to_local: u64,
}

impl LinkModel {
    /// A link that has relayed nothing yet.
    pub open spec fn fresh(id: u64) -> LinkModel {
        LinkModel {
            id,
            state: LinkState::Relaying,
            bytes_local_to_remote: 0,
            bytes_remote_to_local: 0,
        }
    }

    /// The link after `chunk` has been read from `from`.
    pub open spec fn counted(self, from: LinkEnd, chunk: Seq<u8>) -> LinkModel {
        match from {
            LinkEnd::Local => LinkModel {
                bytes_local_to_remote: saturating_count(self.bytes_local_to_remote, chunk.len()),
                ..self
            },
            LinkEnd::Remote => LinkModel {
                bytes_remote_to_local: saturating_count(self.bytes_remote_to_local, chunk.len()),
                ..self
            },
        }
    }

    /// The link after `event`.
    ///
    /// A relaying link counts what was read and goes on, or ends with the
    /// outcome of the event. A finished link stays as it is.
    pub open spec fn after(self, event: LinkEventView) -> LinkModel {
        if self.state is Relaying {
            match event {
                LinkEventView::Read { from, chunk } => self.counted(from, chunk),
                _ => LinkModel { state: LinkState::Finished { outcome: event.ending().unwrap() }, ..self },
            }
        } else {
            self
        }
    }

    /// What the link asks for on `event`.
    ///
    /// A relaying link forwards each chunk, whole and unchanged, to the end
    /// opposite the one it was read from, and closes on any other event. A
    /// finished link discards everything.
    pub open spec fn action(self, event: LinkEventView) -> LinkActionView {
        if self.state is Relaying {
            match event {
                LinkEventView::Read { from, chunk } => LinkActionView::Forward {
                    to: from.spec_peer(),
                    chunk,
                },
                _ => LinkActionView::Close { outcome: event.ending().unwrap() },
            }
        } else {
            LinkActionView::Discard
        }
    }

    /// The report of the link: none while it relays.
    pub open spec fn report(self) -> Option<LinkReport> {
        match self.state {
            LinkState::Relaying => None,
            LinkState::Finished { outcome } => Some(
                LinkReport {
                    id: self.id,
                    outcome,
                    bytes_local_to_remote: self.bytes_local_to_remote,
                    bytes_remote_to_local: self.bytes_remote_to_local,
                },
            ),
        }
    }

    /// The link after a sequence of events.
    pub open spec fn after_all(self, events: Seq<LinkEventView>) -> LinkModel
        decreases events.len(),
    {
        if events.len() == 0 {
            self
        } else {
            self.after(events[0]).after_all(events.drop_first())
        }
    }

    /// The actions that a sequence of events draws from the link, in order.
    pub open spec fn actions(self, events: Seq<LinkEventView>) -> Seq<LinkActionView>
        decreases events.len(),
    {
        if events.len() == 0 {
            Seq::<LinkActionView>::empty()
        } else {
            seq![self.action(events[0])] + self.after(events[0]).actions(events.drop_first())
        }
    }
}

/// The bytes that `actions` write to the end `to`, in order.
pub open spec fn written(actions: Seq<LinkActionView>, to: LinkEnd) -> Seq<u8>
    decreases actions.len(),
{
    if actions.len() == 0 {
        Seq::<u8>::empty()
    } else {
        let rest = written(actions.drop_first(), to);
        match actions[0] {
            LinkActionView::Forward { to: end, chunk } if end == to => chunk + rest,
            _ => rest,
        }
    }
}

/// The bytes that `events` report as read from the end `from`, in order, up
/// to the first event that ends a relay.
pub open spec fn read_until_end(events: Seq<LinkEventView>, from: LinkEnd) -> Seq<u8>
    decreases events.len(),
{
    if events.len() == 0 {
        Seq::<u8>::empty()
    } else {
        match events[0] {
            LinkEventView::Read { from: end, chunk } => {
                let rest = read_until_end(events.drop_first(), from);
                if end == from {
                    chunk + rest
                } else {
                    rest
                }
            },
            _ => Seq::<u8>::empty(),
        }
    }
}

/// The relay of one forwarded connection.
pub struct ForwardLink {
    id: u64,
    state: LinkState,
    bytes_local_to_remote: u64,
    bytes_remote_to_local: u64,
}

impl View for ForwardLink {
    type V = LinkModel;

    closed spec fn view(&self) -> LinkModel {
        LinkModel {
            id: self.id,
            state: self.state,
            bytes_local_to_remote: self.bytes_local_to_remote,
            bytes_remote_to_local: self.bytes_remote_to_local,
        }
    }
}

/// The event that a read stands for: the end of the stream where nothing was
/// read, the first `read` bytes of the buffer where they fit in it, and a
/// failure of the end where more is reported than the buffer holds.
pub open spec fn spec_read_event(from: LinkEnd, buffer: Seq<u8>, read: nat) -> LinkEventView {
    if read == 0 {
        LinkEventView::Eof { from }
    } else if read <= buffer.len() {
        LinkEventView::Read { from, chunk: buffer.subrange(0, read as int) }
    } else {
        LinkEventView::IoFailed { on: from }
    }
}

/// Turns the result of a read on `from` into the event to hand to the link.
pub fn read_event(from: LinkEnd, buffer: &[u8], read: usize) -> (event: LinkEvent)
    ensures
        event@ == spec_read_event(from, buffer@, read as nat),
{
    if read == 0 {
        LinkEvent::Eof { from }
    } else if read <= buffer.len() {
        LinkEvent::Read { from, chunk: slice_to_vec(slice_subrange(buffer, 0, read)) }
    } else {
        LinkEvent::IoFailed { on: from }
    }
}

impl ForwardLink {
    /// A link that is about to relay, known to its tunnel as `id`.
    pub fn new(id: u64) -> (link: ForwardLink)
        ensures
            link@ == LinkModel::fresh(id),
    {
        ForwardLink { id, state: LinkState::Relaying, bytes_local_to_remote: 0, bytes_remote_to_local: 0 }
    }

    /// The number under which the tunnel knows this link.
    pub fn id(&self) -> (id: u64)
        ensures
            id == self@.id,
    {
        self.id
    }

    /// Whether the link relays or has finished, and why.
    pub fn state(&self) -> (state: LinkState)
        ensures
            state == self@.state,
    {
        self.state
    }

    /// Whether the link still relays.
    pub fn is_relaying(&self) -> (yes: bool)
        ensures
            yes == (self@.state is Relaying),
    {
        match self.state {
            LinkState::Relaying => true,
            LinkState::Finished { .. } => false,
        }
    }

    /// Bytes read from the local stream and forwarded to the channel.
    pub fn bytes_local_to_remote(&self) -> (count: u64)
        ensures
            count == self@.bytes_local_to_remote,
    {
        self.bytes_local_to_remote
    }

    /// Bytes read from the channel and forwarded to the local stream.
    pub fn bytes_remote_to_local(&self) -> (count: u64)
        ensures
            count == self@.bytes_remote_to_local,
    {
        self.bytes_remote_to_local
    }

    /// The report of a finished link, for the tunnel's records.
    pub fn report(&self) -> (report: Option<LinkReport>)
        ensures
            report == self@.report(),
    {
        match self.state {
            LinkState::Relaying => None,
            LinkState::Finished { outcome } => Some(
                LinkReport {
                    id: self.id,
                    outcome,
                    bytes_local_to_remote: self.bytes_local_to_remote,
                    bytes_remote_to_local: self.bytes_remote_to_local,
                },
            ),
        }
    }

    /// Takes in what the caller reports and returns what to do with it.
    pub fn step(&mut self, event: LinkEvent) -> (action: LinkAction)
        ensures
            final(self)@ == old(self)@.after(event@),
            action@ == old(self)@.action(event@),
    {
        if !self.is_relaying() {
            return LinkAction::Discard;
        }
        match event {
            LinkEvent::Read { from, chunk } => {
                let more: u64 = chunk.len() as u64;
                match from {
                    LinkEnd::Local => {
                        self.bytes_local_to_remote = self.bytes_local_to_remote.saturating_add(more);
                    },
                    LinkEnd::Remote => {
                        self.bytes_remote_to_local = self.bytes_remote_to_local.saturating_add(more);
                    },
                }
                LinkAction::Forward { to: from.peer(), chunk }
            },
            LinkEvent::Eof { from } => {
                let outcome = LinkOutcome::Eof { from };
                self.state = LinkState::Finished { outcome };
                LinkAction::Close { outcome }
            },
            LinkEvent::IoFailed { on } => {
                let outcome = LinkOutcome::IoFailed { on };
                self.state = LinkState::Finished { outcome };
                LinkAction::Close { outcome }
            },
            LinkEvent::Cancelled => {
                let outcome = LinkOutcome::Cancelled;
                self.state = LinkState::Finished { outcome };
                LinkAction::Close { outcome }
            },
        }
    }
}

/// A finished link stays finished and writes nothing, whatever is reported
/// to it afterwards.
pub proof fn finished_link_writes_nothing(link: LinkModel, events: Seq<LinkEventView>, to: LinkEnd)
    requires
        link.state is Finished,
    ensures
        link.after_all(events) == link,
        written(link.actions(events), to) == Seq::<u8>::empty(),
    decreases events.len(),
{
    if events.len() > 0 {
        finished_link_writes_nothing(link, events.drop_first(), to);
        let all = link.actions(events);
        assert(all.drop_first() == link.actions(events.drop_first()));
    }
}

/// Byte integrity of the relay: over any sequence of events, what a relaying
/// link writes to one end is exactly what was read from the other end, byte
/// for byte and in the order read, up to the first event that ends the relay;
/// after that event it writes nothing more.
pub proof fn relay_preserves_bytes(link: LinkModel, events: Seq<LinkEventView>, from: LinkEnd)
    requires
        link.state is Relaying,
    ensures
        written(link.actions(events), from.spec_peer()) == read_until_end(events, from),
    decreases events.len(),
{
    if events.len() > 0 {
        let first = events[0];
        let rest = events.drop_first();
        let next = link.after(first);
        let all = link.actions(events);
        assert(all.drop_first() == next.actions(rest));
        assert(all[0] == link.action(first));
        match first {
            LinkEventView::Read { from: end, chunk } => {
                relay_preserves_bytes(next, rest, from);
            },
            _ => {
                finished_link_writes_nothing(next, rest, from.spec_peer());
            },
        }
    }
}

/// Cancellation wins at once: the event that reports it ends a relaying link,
/// and from then on the link forwards nothing.
pub proof fn cancellation_ends_relay(link: LinkModel, later: Seq<LinkEventView>, to: LinkEnd)
    requires
        link.state is Relaying,
    ensures
        link.after(LinkEventView::Cancelled).state == (LinkState::Finished {
            outcome: LinkOutcome::Cancelled,
        }),
        link.action(LinkEventView::Cancelled) == (LinkActionView::Close {
            outcome: LinkOutcome::Cancelled,
        }),
        written(link.after(LinkEventView::Cancelled).actions(later), to) == Seq::<u8>::empty(),
{
    finished_link_writes_nothing(link.after(LinkEventView::Cancelled), later, to);
}

} // verus!
