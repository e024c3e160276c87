//! What holds of every tunnel, proved over the model.

use crate::credentials::{
    spec_credentials, spec_loopback, AuthMethodView, LocalBinding, SshOptsView, TargetEndpointView,
};
use crate::error::TunnelError;
use crate::session::{
    DisconnectNoticeView, LanguageTag, SessionEvent, SessionModel, SessionPhase,
};
use crate::tunnel::model::{
    has_link, ids, index_of, spec_bind_failure_reason, spec_close_reason, without, LinkEntry,
    TunnelActionView, TunnelEvent, TunnelModel, TunnelState,
};
use vstd::prelude::*;

verus! {

/// `index_of` finds the first link with the number, if there is one.
pub proof fn index_of_finds_first(links: Seq<LinkEntry>, id: u64)
    ensures
        0 <= index_of(links, id) <= links.len(),
        has_link(links, id) ==> links[index_of(links, id)].id == id,
        forall|j: int| 0 <= j < index_of(links, id) ==> (#[trigger] links[j]).id != id,
    decreases links.len(),
{
    if links.len() > 0 && links[0].id != id {
        let rest = links.drop_first();
        index_of_finds_first(rest, id);
        assert forall|j: int| 0 <= j < index_of(links, id) implies (#[trigger] links[j]).id != id by {
            if j > 0 {
                assert(links[j] == rest[j - 1]);
            }
        }
    }
}

/// A position before which no link has the number, and at which `links` ends
/// or a link has it, is the position that `index_of` finds.
pub proof fn index_of_is(links: Seq<LinkEntry>, id: u64, at: int)
    requires
        0 <= at <= links.len(),
        forall|j: int| 0 <= j < at ==> (#[trigger] links[j]).id != id,
        at < links.len() ==> links[at].id == id,
    ensures
        index_of(links, id) == at,
    decreases links.len(),
{
    if links.len() > 0 && at > 0 {
        let rest = links.drop_first();
        assert(links[0].id != id);
        assert forall|j: int| 0 <= j < at - 1 implies (#[trigger] rest[j]).id != id by {
            assert(rest[j] == links[j + 1]);
        }
        index_of_is(rest, id, at - 1);
    }
}

/// Every transition keeps a valid tunnel valid.
pub proof fn next_preserves_well_formed(tunnel: TunnelModel, event: TunnelEvent)
    requires
        tunnel.well_formed(),
    ensures
        tunnel.next(event).0.well_formed(),
{
    broadcast use LocalBinding::on_port_has_port;

    match event {
        TunnelEvent::ChannelOpened { link } | TunnelEvent::ChannelFailed { link } | TunnelEvent::LinkFinished { link } => {
            index_of_finds_first(tunnel.links, link);
        },
        _ => {},
    }
}

/// Every sequence of transitions keeps a valid tunnel valid.
pub proof fn after_all_preserves_well_formed(tunnel: TunnelModel, events: Seq<TunnelEvent>)
    requires
        tunnel.well_formed(),
    ensures
        tunnel.after_all(events).well_formed(),
    decreases events.len(),
{
    if events.len() > 0 {
        next_preserves_well_formed(tunnel, events[0]);
        after_all_preserves_well_formed(tunnel.next(events[0]).0, events.drop_first());
    }
}

/// The steps from one state to another that the lifecycle of a tunnel
/// allows. An active tunnel with no link in flight has nothing to wait for:
/// it passes through `Closing` at once and is closed in one step.
pub open spec fn lifecycle_step(from: TunnelState, to: TunnelState) -> bool {
    ||| from == to
    ||| from is Idle && to is Authenticating
    ||| from is Authenticating && to is Listening
    ||| from is Authenticating && to is Failed
    ||| from is Listening && to is Active
    ||| from is Listening && to is Failed
    ||| from is Active && to is Closing
    ||| from is Active && to is Closed
    ||| from is Closing && to is Closed
}

/// A tunnel only ever moves along its lifecycle, and out of `Closed` and
/// `Failed` it does not move at all: there nothing changes any more.
pub proof fn transitions_follow_lifecycle(tunnel: TunnelModel, event: TunnelEvent)
    requires
        tunnel.well_formed(),
    ensures
        lifecycle_step(tunnel.state, tunnel.next(event).0.state),
        tunnel.state is Closed || tunnel.state is Failed ==> tunnel.next(event).0 == tunnel,
{
    match event {
        TunnelEvent::ChannelOpened { link } | TunnelEvent::ChannelFailed { link } | TunnelEvent::LinkFinished { link } => {
            index_of_finds_first(tunnel.links, link);
        },
        _ => {},
    }
}

/// The events of an opening in which every step succeeds: the transport
/// comes up, the key is loaded where one is used, the jump host accepts and
/// the listener is bound to `port`.
pub open spec fn successful_opening(auth_method: AuthMethodView, port: u16) -> Seq<TunnelEvent> {
    let loaded = if auth_method is PrivateKey {
        seq![TunnelEvent::Session { event: SessionEvent::KeyLoaded }]
    } else {
        Seq::<TunnelEvent>::empty()
    };
    seq![TunnelEvent::Open, TunnelEvent::Session { event: SessionEvent::TransportUp }] + loaded
        + seq![
        TunnelEvent::Session { event: SessionEvent::AuthAccepted },
        TunnelEvent::ListenerBound { port },
    ]
}

/// With valid options, a reachable jump host that accepts the credentials and
/// a listener bound to a port, opening a tunnel ends with the tunnel active
/// and handed to the caller: the binding it hands over carries the listener's
/// port, which is not zero, and the very next connection is forwarded to the
/// target rather than refused.
pub proof fn opening_yields_active_tunnel(opts: SshOptsView, target: TargetEndpointView, port: u16)
    requires
        spec_credentials(opts) is Some,
        port != 0,
    ensures
        ({
            let credentials = spec_credentials(opts)->Some_0;
            let idle = TunnelModel::idle(credentials, target);
            let events = successful_opening(credentials.auth_method, port);
            let open = idle.after_all(events);
            &&& open.well_formed()
            &&& open.state is Active
            &&& open.binding == Some(LocalBinding::on_port(port))
            &&& open.binding->Some_0.spec_port() == port
            &&& idle.actions(events).last() == (TunnelActionView::Serve {
                binding: LocalBinding::on_port(port),
            })
            &&& open.next(TunnelEvent::Accepted).1 == (TunnelActionView::OpenChannel {
                link: 0,
                request: SessionModel::channel_request(target, spec_loopback(), port),
            })
        }),
{
    broadcast use LocalBinding::on_port_has_port;

    let credentials = spec_credentials(opts)->Some_0;
    let idle = TunnelModel::idle(credentials, target);
    let events = successful_opening(credentials.auth_method, port);
    assert(idle.well_formed());
    after_all_preserves_well_formed(idle, events);
    reveal_with_fuel(TunnelModel::after_all, 6);
    reveal_with_fuel(TunnelModel::actions, 6);
    let e0 = events;
    let e1 = e0.drop_first();
    let e2 = e1.drop_first();
    let e3 = e2.drop_first();
    let e4 = e3.drop_first();
    if credentials.auth_method is PrivateKey {
        assert(events.len() == 5);
        let e5 = e4.drop_first();
        assert(e5.len() == 0);
        assert(e0[0] == TunnelEvent::Open);
        assert(e1[0] == TunnelEvent::Session { event: SessionEvent::TransportUp });
        assert(e2[0] == TunnelEvent::Session { event: SessionEvent::KeyLoaded });
        assert(e3[0] == TunnelEvent::Session { event: SessionEvent::AuthAccepted });
        assert(e4[0] == TunnelEvent::ListenerBound { port });
    } else {
        assert(events.len() == 4);
        assert(e4.len() == 0);
        assert(e0[0] == TunnelEvent::Open);
        assert(e1[0] == TunnelEvent::Session { event: SessionEvent::TransportUp });
        assert(e2[0] == TunnelEvent::Session { event: SessionEvent::AuthAccepted });
        assert(e3[0] == TunnelEvent::ListenerBound { port });
    }
}

/// The caller is handed a tunnel only when its listener has just been bound:
/// whenever a valid tunnel asks to be served, it was waiting for its
/// listener, the event reported the port, the port is not zero, and the
/// tunnel is active from then on with exactly that binding.
pub proof fn served_only_once_bound(tunnel: TunnelModel, event: TunnelEvent)
    requires
        tunnel.well_formed(),
        tunnel.next(event).1 is Serve,
    ensures
        tunnel.state is Listening,
        event is ListenerBound,
        event->port != 0,
        tunnel.next(event).1->binding.spec_port() == event->port,
        tunnel.next(event).0.state is Active,
        tunnel.next(event).0.binding == Some(tunnel.next(event).1->binding),
{
    broadcast use LocalBinding::on_port_has_port;

    match event {
        TunnelEvent::ChannelOpened { link } | TunnelEvent::ChannelFailed { link } | TunnelEvent::LinkFinished { link } => {
            index_of_finds_first(tunnel.links, link);
        },
        _ => {},
    }
}

/// A listener is asked for only once the session is authenticated.
pub proof fn bound_only_once_authenticated(tunnel: TunnelModel, event: TunnelEvent)
    requires
        tunnel.well_formed(),
        tunnel.next(event).1 is BindListener,
    ensures
        tunnel.state is Authenticating,
        tunnel.next(event).0.state is Listening,
        tunnel.next(event).0.phase() == Some(SessionPhase::Authenticated),
{
    match event {
        TunnelEvent::ChannelOpened { link } | TunnelEvent::ChannelFailed { link } | TunnelEvent::LinkFinished { link } => {
            index_of_finds_first(tunnel.links, link);
        },
        _ => {},
    }
}

/// The error with which an answer to the credentials fails the opening:
/// `Auth` where the jump host rejects them, `AuthFailed` where submitting
/// them failed, `KeyLoad` where the key cannot be loaded.
pub open spec fn spec_credentials_error(event: SessionEvent) -> TunnelError {
    match event {
        SessionEvent::AuthRejected => TunnelError::Auth,
        SessionEvent::AuthErrored => TunnelError::AuthFailed,
        _ => TunnelError::KeyLoad,
    }
}

/// Credentials that the jump host rejects fail the opening with `Auth`, a
/// submission that itself fails with `AuthFailed`, and a key that cannot be
/// loaded with `KeyLoad`: the tunnel asks for the transport to be dropped,
/// reports the error and is left failed, with no listener bound. A rejection
/// is reported as a failure to authenticate with the jump host.
pub proof fn rejected_credentials_fail_opening(tunnel: TunnelModel, event: SessionEvent)
    requires
        tunnel.well_formed(),
        tunnel.state is Authenticating,
        (tunnel.phase() == Some(SessionPhase::Authenticating) && (event is AuthRejected || event
            is AuthErrored)) || (tunnel.phase() == Some(SessionPhase::LoadingKey) && event
            is KeyUnreadable),
    ensures
        ({
            let error = spec_credentials_error(event);
            let (failed, action) = tunnel.next(TunnelEvent::Session { event });
            &&& failed.state == TunnelState::Failed { error }
            &&& action == TunnelActionView::Abort { error, notice: None }
            &&& failed.binding is None
            &&& failed.links.len() == 0
            &&& event is AuthRejected ==> error.spec_message()
                == "Failed to authenticate with the jump host"@
            &&& event is AuthErrored ==> error.spec_message()
                == "Failed to authenticate with the SSH Server"@
        }),
{
}

/// Whether an action asks for anything to be set up or kept running.
pub open spec fn starts_something(action: TunnelActionView) -> bool {
    action is Session || action is BindListener || action is Serve || action is OpenChannel
        || action is Relay
}

/// A failed tunnel leaves nothing behind: it has no listener and no link,
/// and whatever is reported to it afterwards it stays as it is and starts
/// nothing.
pub proof fn failed_tunnel_stays_down(tunnel: TunnelModel, events: Seq<TunnelEvent>)
    requires
        tunnel.well_formed(),
        tunnel.state is Failed,
    ensures
        tunnel.binding is None,
        tunnel.links.len() == 0,
        tunnel.after_all(events) == tunnel,
        forall|i: int|
            0 <= i < tunnel.actions(events).len() ==> !starts_something(
                #[trigger] tunnel.actions(events)[i],
            ),
    decreases events.len(),
{
    if events.len() > 0 {
        failed_tunnel_stays_down(tunnel, events.drop_first());
        let all = tunnel.actions(events);
        let rest = tunnel.actions(events.drop_first());
        assert forall|i: int| 0 <= i < all.len() implies !starts_something(#[trigger] all[i]) by {
            if i > 0 {
                assert(all[i] == rest[i - 1]);
            }
        }
    }
}

/// A tunnel that has been handed to the caller never fails any more: it is
/// active until it is shut down.
pub proof fn open_tunnel_never_fails(tunnel: TunnelModel, events: Seq<TunnelEvent>)
    requires
        tunnel.well_formed(),
        tunnel.state is Active || shut_down(tunnel.state),
    ensures
        tunnel.after_all(events).state is Active || shut_down(tunnel.after_all(events).state),
    decreases events.len(),
{
    if events.len() > 0 {
        next_preserves_well_formed(tunnel, events[0]);
        transitions_follow_lifecycle(tunnel, events[0]);
        open_tunnel_never_fails(tunnel.next(events[0]).0, events.drop_first());
    }
}

/// An opening that fails has bound nothing for the caller to use: whatever
/// was reported along the way, a tunnel that ends up failed has no binding
/// and was never handed to the caller.
pub proof fn failed_opening_never_served(tunnel: TunnelModel, events: Seq<TunnelEvent>)
    requires
        tunnel.well_formed(),
        tunnel.after_all(events).state is Failed,
    ensures
        tunnel.after_all(events).binding is None,
        tunnel.actions(events).len() == events.len(),
        forall|i: int| 0 <= i < events.len() ==> !(#[trigger] tunnel.actions(events)[i] is Serve),
    decreases events.len(),
{
    after_all_preserves_well_formed(tunnel, events);
    if events.len() > 0 {
        let first = events[0];
        let later = events.drop_first();
        let (moved, action) = tunnel.next(first);
        next_preserves_well_formed(tunnel, first);
        if action is Serve {
            served_only_once_bound(tunnel, first);
            open_tunnel_never_fails(moved, later);
        }
        failed_opening_never_served(moved, later);
        let all = tunnel.actions(events);
        let rest = moved.actions(later);
        assert(all == seq![action] + rest);
        assert forall|i: int| 0 <= i < events.len() implies !(#[trigger] all[i] is Serve) by {
            if i > 0 {
                assert(all[i] == rest[i - 1]);
            }
        }
    }
}

/// A tunnel whose listener cannot be bound does not keep its session: the
/// session is disconnected with a farewell, the tunnel fails with `Bind` and
/// no listener is left.
pub proof fn bind_failure_disconnects_session(tunnel: TunnelModel)
    requires
        tunnel.well_formed(),
        tunnel.state is Listening,
    ensures
        ({
            let (failed, action) = tunnel.next(TunnelEvent::ListenerFailed);
            &&& failed.state == TunnelState::Failed { error: TunnelError::Bind }
            &&& failed.phase() == Some(SessionPhase::Closed)
            &&& failed.binding is None
            &&& action == TunnelActionView::Abort {
                error: TunnelError::Bind,
                notice: Some(
                    DisconnectNoticeView {
                        reason: spec_bind_failure_reason(),
                        language: LanguageTag::Unspecified.spec_text(),
                    },
                ),
            }
            &&& tunnel.next(TunnelEvent::ListenerBound { port: 0 }) == tunnel.next(
                TunnelEvent::ListenerFailed,
            )
        }),
{
}

/// Closing an active tunnel shuts everything down with one signal: the
/// shutdown names every link in flight, in the order accepted, and carries
/// the farewell for the jump host; the session is closed; the tunnel is
/// closed at once if no link was in flight and is closing otherwise.
pub proof fn close_signals_every_link(tunnel: TunnelModel, language: LanguageTag)
    requires
        tunnel.well_formed(),
        tunnel.state is Active,
    ensures
        ({
            let (closed, action) = tunnel.next(TunnelEvent::Close { language });
            &&& action == TunnelActionView::Shutdown {
                links: ids(tunnel.links),
                notice: Some(
                    DisconnectNoticeView { reason: spec_close_reason(), language: language.spec_text() },
                ),
            }
            &&& forall|i: int|
                0 <= i < tunnel.links.len() ==> ids(tunnel.links).contains(
                    (#[trigger] tunnel.links[i]).id,
                )
            &&& closed.phase() == Some(SessionPhase::Closed)
            &&& closed.links == tunnel.links
            &&& tunnel.links.len() == 0 ==> closed.state is Closed
            &&& tunnel.links.len() > 0 ==> closed.state is Closing
        }),
{
    assert forall|i: int| 0 <= i < tunnel.links.len() implies ids(tunnel.links).contains(
        (#[trigger] tunnel.links[i]).id,
    ) by {
        assert(ids(tunnel.links)[i] == tunnel.links[i].id);
    }
}

/// Whether a tunnel has been shut down.
pub open spec fn shut_down(state: TunnelState) -> bool {
    state is Closing || state is Closed
}

/// Once a tunnel has been shut down it never forwards again: it stays shut
/// down, starts nothing, and refuses every connection that is still reported
/// as accepted.
pub proof fn shut_down_tunnel_refuses(tunnel: TunnelModel, events: Seq<TunnelEvent>)
    requires
        tunnel.well_formed(),
        shut_down(tunnel.state),
    ensures
        shut_down(tunnel.after_all(events).state),
        tunnel.actions(events).len() == events.len(),
        forall|i: int|
            0 <= i < events.len() ==> !starts_something(#[trigger] tunnel.actions(events)[i]),
        forall|i: int|
            0 <= i < events.len() && events[i] is Accepted ==> #[trigger] tunnel.actions(events)[i]
                == (TunnelActionView::Refuse { error: TunnelError::SessionClosed }),
    decreases events.len(),
{
    if events.len() > 0 {
        let first = events[0];
        let later = events.drop_first();
        let (moved, action) = tunnel.next(first);
        next_preserves_well_formed(tunnel, first);
        match first {
            TunnelEvent::ChannelOpened { link } | TunnelEvent::ChannelFailed { link } | TunnelEvent::LinkFinished { link } => {
                index_of_finds_first(tunnel.links, link);
            },
            _ => {},
        }
        shut_down_tunnel_refuses(moved, later);
        let all = tunnel.actions(events);
        let rest = moved.actions(later);
        assert(all == seq![action] + rest);
        assert forall|i: int| 0 <= i < events.len() implies !starts_something(#[trigger] all[i]) by {
            if i > 0 {
                assert(all[i] == rest[i - 1]);
            }
        }
        assert forall|i: int| 0 <= i < events.len() && events[i] is Accepted implies #[trigger] all[i]
            == (TunnelActionView::Refuse { error: TunnelError::SessionClosed }) by {
            if i > 0 {
                assert(all[i] == rest[i - 1]);
                assert(events[i] == later[i - 1]);
            }
        }
    }
}

/// Closing twice is closing once: whatever the state of a tunnel, a second
/// request to close changes nothing and asks for nothing. And an active
/// tunnel that never forwarded a connection is closed by the first.
pub proof fn close_is_idempotent(tunnel: TunnelModel, first: LanguageTag, second: LanguageTag)
    requires
        tunnel.well_formed(),
    ensures
        ({
            let once = tunnel.next(TunnelEvent::Close { language: first }).0;
            &&& once.next(TunnelEvent::Close { language: second }) == (once, TunnelActionView::Nothing)
            &&& tunnel.state is Active && tunnel.links.len() == 0 ==> once.state is Closed
            &&& !(tunnel.state is Active) ==> tunnel.next(TunnelEvent::Close { language: first }) == (
                tunnel,
                TunnelActionView::Nothing,
            )
        }),
{
}

/// A closing tunnel is closed when its last link has reported back: after
/// every link in flight has finished, no link is left and the tunnel is
/// closed.
pub proof fn closing_ends_with_last_link(tunnel: TunnelModel)
    requires
        tunnel.well_formed(),
        tunnel.state is Closing,
    ensures
        ({
            let link = tunnel.links[0].id;
            let (after, action) = tunnel.next(TunnelEvent::LinkFinished { link });
            &&& after.links == tunnel.links.drop_first()
            &&& tunnel.links.len() == 1 ==> after.state is Closed
            &&& tunnel.links.len() > 1 ==> after.state is Closing
            &&& action is Nothing
        }),
{
    let link = tunnel.links[0].id;
    index_of_finds_first(tunnel.links, link);
    assert(tunnel.links.remove(0) == tunnel.links.drop_first());
}

/// The reports that close a closing tunnel: each link in flight finishes,
/// in the order accepted.
pub open spec fn all_finish(links: Seq<LinkEntry>) -> Seq<TunnelEvent> {
    Seq::new(links.len(), |i: int| TunnelEvent::LinkFinished { link: links[i].id })
}

/// Closing comes to an end: once every link in flight has reported that it
/// finished, the tunnel is closed and holds no link.
pub proof fn closing_tunnel_closes(tunnel: TunnelModel)
    requires
        tunnel.well_formed(),
        tunnel.state is Closing,
    ensures
        tunnel.after_all(all_finish(tunnel.links)).state is Closed,
        tunnel.after_all(all_finish(tunnel.links)).links.len() == 0,
    decreases tunnel.links.len(),
{
    let events = all_finish(tunnel.links);
    let first = TunnelEvent::LinkFinished { link: tunnel.links[0].id };
    let after = tunnel.next(first).0;
    closing_ends_with_last_link(tunnel);
    next_preserves_well_formed(tunnel, first);
    assert(events[0] == first);
    assert(events.drop_first() =~= all_finish(after.links));
    if tunnel.links.len() > 1 {
        closing_tunnel_closes(after);
    } else {
        assert(after.after_all(all_finish(after.links)) == after);
    }
}

/// Links are numbered afresh: the number given to an accepted connection is
/// borne by no link in flight, and every later number is larger.
pub proof fn link_numbers_are_fresh(tunnel: TunnelModel, event: TunnelEvent)
    requires
        tunnel.well_formed(),
        tunnel.next(event).1 is OpenChannel,
    ensures
        tunnel.state is Active,
        event is Accepted,
        tunnel.next(event).1->OpenChannel_link == tunnel.next_link,
        !has_link(tunnel.links, tunnel.next_link),
        tunnel.next(event).0.next_link == tunnel.next_link + 1,
        tunnel.next(event).0.links == tunnel.links.push(
            LinkEntry { id: tunnel.next_link, relaying: false },
        ),
        tunnel.next(event).1->OpenChannel_request == tunnel.channel_request(),
{
    index_of_finds_first(tunnel.links, tunnel.next_link);
    match event {
        TunnelEvent::ChannelOpened { link } | TunnelEvent::ChannelFailed { link } | TunnelEvent::LinkFinished { link } => {
            index_of_finds_first(tunnel.links, link);
        },
        _ => {},
    }
}

/// What happens to one link stays with that link: when a channel cannot be
/// opened or a relay ends, the tunnel stays active, its session and binding
/// are untouched, and every other link is where and as it was.
pub proof fn link_failure_is_contained(tunnel: TunnelModel, link: u64, other: u64)
    requires
        tunnel.well_formed(),
        tunnel.state is Active,
        other != link,
    ensures
        ({
            let failed = tunnel.next(TunnelEvent::ChannelFailed { link }).0;
            let finished = tunnel.next(TunnelEvent::LinkFinished { link }).0;
            &&& failed.state is Active && finished.state is Active
            &&& failed.session == tunnel.session && finished.session == tunnel.session
            &&& failed.binding == tunnel.binding && finished.binding == tunnel.binding
            &&& has_link(failed.links, other) == has_link(tunnel.links, other)
            &&& has_link(finished.links, other) == has_link(tunnel.links, other)
            &&& has_link(tunnel.links, other) ==> {
                &&& failed.links[index_of(failed.links, other)] == tunnel.links[index_of(
                    tunnel.links,
                    other,
                )]
                &&& finished.links[index_of(finished.links, other)] == tunnel.links[index_of(
                    tunnel.links,
                    other,
                )]
            }
        }),
{
    index_of_finds_first(tunnel.links, link);
    without_keeps_others(tunnel.links, link, other);
}

/// Taking one link out leaves every other link in, as it was.
pub proof fn without_keeps_others(links: Seq<LinkEntry>, link: u64, other: u64)
    requires
        other != link,
    ensures
        has_link(without(links, link), other) == has_link(links, other),
        has_link(links, other) ==> without(links, link)[index_of(without(links, link), other)]
            == links[index_of(links, other)],
{
    index_of_finds_first(links, link);
    index_of_finds_first(links, other);
    let gone = without(links, link);
    let at = index_of(links, link);
    let was = index_of(links, other);
    if has_link(links, link) {
        let now = if was < at {
            was
        } else if was < links.len() {
            was - 1
        } else {
            links.len() - 1
        };
        assert forall|j: int| 0 <= j < now implies (#[trigger] gone[j]).id != other by {
            if j < at {
                assert(gone[j] == links[j]);
            } else {
                assert(gone[j] == links[j + 1]);
            }
        }
        if was < links.len() {
            assert(gone[now] == links[was]);
        }
        index_of_is(gone, other, now);
    }
}

} // verus!
