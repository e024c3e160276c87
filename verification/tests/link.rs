use torqle::error::TunnelError;
use torqle::link::{
    read_event, ForwardLink, LinkAction, LinkEnd, LinkEvent, LinkOutcome, LinkReport, LinkState,
    CHANNEL_READ_BUFFER, LOCAL_READ_BUFFER,
};

#[test]
fn buffers_have_their_sizes() {
    assert_eq!(LOCAL_READ_BUFFER, 255);
    assert_eq!(CHANNEL_READ_BUFFER, 8 * 1024);
}

#[test]
fn ends_are_each_other_s_peer() {
    assert_eq!(LinkEnd::Local.peer(), LinkEnd::Remote);
    assert_eq!(LinkEnd::Remote.peer(), LinkEnd::Local);
}

#[test]
fn fresh_link_relays_and_has_counted_nothing() {
    let link = ForwardLink::new(17);
    assert_eq!(link.id(), 17);
    assert_eq!(link.state(), LinkState::Relaying);
    assert!(link.is_relaying());
    assert_eq!(link.bytes_local_to_remote(), 0);
    assert_eq!(link.bytes_remote_to_local(), 0);
}

#[test]
fn chunks_cross_unchanged_and_in_order() {
    let mut link = ForwardLink::new(0);
    let chunks: Vec<Vec<u8>> = vec![vec![0, 255, 10, 13], vec![], vec![b'a'; 300], vec![1]];
    let mut arrived: Vec<u8> = Vec::new();
    let mut sent: Vec<u8> = Vec::new();
    for chunk in chunks {
        sent.extend_from_slice(&chunk);
        match link.step(LinkEvent::Read { from: LinkEnd::Local, chunk }) {
            LinkAction::Forward { to, chunk } => {
                assert_eq!(to, LinkEnd::Remote);
                arrived.extend_from_slice(&chunk);
            }
            other => panic!("not forwarded: {:?}", other),
        }
    }
    assert_eq!(arrived, sent);
    assert_eq!(link.bytes_local_to_remote(), 305);
    assert_eq!(link.bytes_remote_to_local(), 0);
}

#[test]
fn local_eof_closes_the_link() {
    let mut link = ForwardLink::new(0);
    let outcome = LinkOutcome::Eof { from: LinkEnd::Local };
    assert_eq!(link.step(LinkEvent::Eof { from: LinkEnd::Local }), LinkAction::Close { outcome });
    assert_eq!(link.state(), LinkState::Finished { outcome });
    assert!(!link.is_relaying());
}

#[test]
fn remote_close_closes_the_link() {
    let mut link = ForwardLink::new(0);
    let outcome = LinkOutcome::Eof { from: LinkEnd::Remote };
    assert_eq!(link.step(LinkEvent::Eof { from: LinkEnd::Remote }), LinkAction::Close { outcome });
    assert_eq!(link.state(), LinkState::Finished { outcome });
}

#[test]
fn io_error_ends_the_link_for_both_sides() {
    let mut link = ForwardLink::new(0);
    let outcome = LinkOutcome::IoFailed { on: LinkEnd::Remote };
    assert_eq!(link.step(LinkEvent::IoFailed { on: LinkEnd::Remote }), LinkAction::Close { outcome });
    assert_eq!(
        link.step(LinkEvent::Read { from: LinkEnd::Local, chunk: vec![1, 2, 3] }),
        LinkAction::Discard
    );
    assert_eq!(link.state(), LinkState::Finished { outcome });
    assert_eq!(link.bytes_local_to_remote(), 0);
}

#[test]
fn nothing_is_forwarded_after_cancellation() {
    let mut link = ForwardLink::new(0);
    link.step(LinkEvent::Read { from: LinkEnd::Local, chunk: vec![1, 2, 3] });
    assert_eq!(
        link.step(LinkEvent::Cancelled),
        LinkAction::Close { outcome: LinkOutcome::Cancelled }
    );
    assert_eq!(
        link.step(LinkEvent::Read { from: LinkEnd::Local, chunk: vec![4, 5] }),
        LinkAction::Discard
    );
    assert_eq!(
        link.step(LinkEvent::Read { from: LinkEnd::Remote, chunk: vec![6] }),
        LinkAction::Discard
    );
    assert_eq!(link.step(LinkEvent::Eof { from: LinkEnd::Local }), LinkAction::Discard);
    assert_eq!(link.step(LinkEvent::Cancelled), LinkAction::Discard);
    assert_eq!(link.state(), LinkState::Finished { outcome: LinkOutcome::Cancelled });
    assert_eq!(link.bytes_local_to_remote(), 3);
    assert_eq!(link.bytes_remote_to_local(), 0);
}

#[test]
fn read_of_nothing_is_end_of_stream() {
    let buffer = [7u8; 16];
    assert_eq!(read_event(LinkEnd::Local, &buffer, 0), LinkEvent::Eof { from: LinkEnd::Local });
    assert_eq!(read_event(LinkEnd::Remote, &[], 0), LinkEvent::Eof { from: LinkEnd::Remote });
}

#[test]
fn read_event_takes_what_was_read_and_no_more() {
    let buffer = [1u8, 2, 3, 4, 5];
    assert_eq!(
        read_event(LinkEnd::Local, &buffer, 3),
        LinkEvent::Read { from: LinkEnd::Local, chunk: vec![1, 2, 3] }
    );
    assert_eq!(
        read_event(LinkEnd::Remote, &buffer, 5),
        LinkEvent::Read { from: LinkEnd::Remote, chunk: vec![1, 2, 3, 4, 5] }
    );
}

#[test]
fn read_beyond_the_buffer_is_a_failure() {
    let buffer = [1u8, 2, 3];
    assert_eq!(read_event(LinkEnd::Remote, &buffer, 4), LinkEvent::IoFailed { on: LinkEnd::Remote });
}

#[test]
fn finished_link_reports_outcome_and_byte_counts() {
    let mut link = ForwardLink::new(5);
    assert_eq!(link.report(), None);
    link.step(LinkEvent::Read { from: LinkEnd::Local, chunk: vec![0; 10] });
    link.step(LinkEvent::Read { from: LinkEnd::Remote, chunk: vec![0; 7000] });
    link.step(LinkEvent::Read { from: LinkEnd::Remote, chunk: vec![0; 8192] });
    assert_eq!(link.report(), None);
    link.step(LinkEvent::Eof { from: LinkEnd::Remote });
    assert_eq!(
        link.report(),
        Some(LinkReport {
            id: 5,
            outcome: LinkOutcome::Eof { from: LinkEnd::Remote },
            bytes_local_to_remote: 10,
            bytes_remote_to_local: 15192
        })
    );
}

#[test]
fn outcomes_amount_to_errors_or_not() {
    assert_eq!(LinkOutcome::Eof { from: LinkEnd::Local }.error(), None);
    assert_eq!(LinkOutcome::Eof { from: LinkEnd::Remote }.error(), None);
    assert_eq!(LinkOutcome::IoFailed { on: LinkEnd::Local }.error(), Some(TunnelError::LinkIo));
    assert_eq!(LinkOutcome::Cancelled.error(), Some(TunnelError::SessionClosed));
}
