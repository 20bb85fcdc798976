use webmocket::bus::{Bus, BusEvent, RecvOutcome};
use webmocket::ledger::Ledger;
use webmocket::session::{
    frame_for_event, inbound_step, outbound_step, pending_frames, InFrame, LoopHalf, OutFrame,
    OutboundStep, ReadEvent, Session, SessionState,
};

#[test]
fn text_frames_are_recorded_verbatim() {
    let mut ledger = Ledger::new();
    let stop = inbound_step(
        &mut ledger,
        ReadEvent::Frame(InFrame::Text("hello from client".to_string())),
    );
    assert!(!stop);
    assert_eq!(ledger.snapshot(), vec!["hello from client".to_string()]);
}

#[test]
fn a_client_pong_is_recorded_as_the_pong_tag() {
    let mut ledger = Ledger::new();
    let stop = inbound_step(&mut ledger, ReadEvent::Frame(InFrame::Pong(Vec::new())));
    assert!(!stop);
    assert_eq!(ledger.snapshot(), vec!["pong".to_string()]);
}

#[test]
fn a_client_ping_is_recorded_as_the_ping_tag() {
    let mut ledger = Ledger::new();
    let stop = inbound_step(&mut ledger, ReadEvent::Frame(InFrame::Ping(vec![1, 2, 3])));
    assert!(!stop);
    assert_eq!(ledger.snapshot(), vec!["ping".to_string()]);
}

#[test]
fn binary_frames_are_ignored() {
    let mut ledger = Ledger::new();
    let stop = inbound_step(&mut ledger, ReadEvent::Frame(InFrame::Binary(vec![0, 1])));
    assert!(!stop);
    assert_eq!(ledger.snapshot(), Vec::<String>::new());
}

#[test]
fn malformed_and_idle_reads_record_nothing_and_continue() {
    let mut ledger = Ledger::new();
    assert!(!inbound_step(&mut ledger, ReadEvent::Malformed));
    assert!(!inbound_step(&mut ledger, ReadEvent::Idle));
    assert_eq!(ledger.snapshot(), Vec::<String>::new());
}

#[test]
fn a_close_frame_ends_the_session_and_records_nothing() {
    let mut ledger = Ledger::new();
    ledger.append("kept".to_string());
    let stop = inbound_step(&mut ledger, ReadEvent::Frame(InFrame::Close));
    assert!(stop);
    assert_eq!(ledger.snapshot(), vec!["kept".to_string()]);
}

#[test]
fn a_socket_error_ends_the_session() {
    let mut ledger = Ledger::new();
    assert!(inbound_step(&mut ledger, ReadEvent::SocketError));
    assert_eq!(ledger.snapshot(), Vec::<String>::new());
}

#[test]
fn ping_and_pong_events_become_empty_protocol_frames() {
    assert_eq!(frame_for_event(BusEvent::Ping), OutFrame::Ping(Vec::new()));
    assert_eq!(frame_for_event(BusEvent::Pong), OutFrame::Pong(Vec::new()));
}

#[test]
fn text_events_become_text_frames_with_the_payload() {
    assert_eq!(
        frame_for_event(BusEvent::Text("hello from server".to_string())),
        OutFrame::Text("hello from server".to_string())
    );
}

#[test]
fn outbound_decisions_follow_the_receive_outcome() {
    assert_eq!(
        outbound_step(RecvOutcome::Event(BusEvent::Ping)),
        OutboundStep::Send(OutFrame::Ping(Vec::new()))
    );
    assert_eq!(outbound_step(RecvOutcome::Lagged), OutboundStep::Continue);
    assert_eq!(outbound_step(RecvOutcome::Pending), OutboundStep::Wait);
    assert_eq!(outbound_step(RecvOutcome::Closed), OutboundStep::Stop);
}

#[test]
fn a_published_text_reaches_a_connected_session_as_a_text_frame() {
    let mut bus = Bus::new(100);
    let mut sub = bus.subscribe();
    assert!(bus
        .publish(BusEvent::Text("hello from server".to_string()))
        .is_ok());
    let outcome = bus.receive(&mut sub);
    assert_eq!(
        outbound_step(outcome),
        OutboundStep::Send(OutFrame::Text("hello from server".to_string()))
    );
}

#[test]
fn a_published_ping_reaches_the_client_as_a_ping_frame() {
    let mut bus = Bus::new(100);
    let mut sub = bus.subscribe();
    assert!(bus.publish(BusEvent::Ping).is_ok());
    assert_eq!(
        outbound_step(bus.receive(&mut sub)),
        OutboundStep::Send(OutFrame::Ping(Vec::new()))
    );
    assert!(bus.publish(BusEvent::Pong).is_ok());
    assert_eq!(
        outbound_step(bus.receive(&mut sub)),
        OutboundStep::Send(OutFrame::Pong(Vec::new()))
    );
}

#[test]
fn pending_frames_lists_everything_a_session_is_owed() {
    let mut bus = Bus::new(100);
    let mut sub = bus.subscribe();
    assert!(bus.publish(BusEvent::Ping).is_ok());
    assert!(bus.publish(BusEvent::Text("x".to_string())).is_ok());
    assert!(bus.publish(BusEvent::Pong).is_ok());
    let frames = pending_frames(&bus, &mut sub);
    assert_eq!(
        frames,
        vec![
            OutFrame::Ping(Vec::new()),
            OutFrame::Text("x".to_string()),
            OutFrame::Pong(Vec::new()),
        ]
    );
    assert_eq!(pending_frames(&bus, &mut sub), Vec::<OutFrame>::new());
}

#[test]
fn every_connected_session_is_owed_the_published_frame() {
    let mut bus = Bus::new(100);
    let mut first = bus.subscribe();
    let mut second = bus.subscribe();
    assert!(bus.publish(BusEvent::Text("x".to_string())).is_ok());
    let expected = vec![OutFrame::Text("x".to_string())];
    assert_eq!(pending_frames(&bus, &mut first), expected);
    assert_eq!(pending_frames(&bus, &mut second), expected);
}

#[test]
fn the_lifecycle_runs_forward_only() {
    let mut session = Session::new();
    assert_eq!(session.current_state(), SessionState::Upgrading);
    session.activate();
    assert_eq!(session.current_state(), SessionState::Active);
    session.loop_exited(LoopHalf::Inbound);
    assert_eq!(session.current_state(), SessionState::Closing);
    session.loop_exited(LoopHalf::Outbound);
    assert_eq!(session.current_state(), SessionState::Closed);
}

#[test]
fn either_loop_may_exit_first() {
    let mut session = Session::new();
    session.activate();
    session.loop_exited(LoopHalf::Outbound);
    assert_eq!(session.current_state(), SessionState::Closing);
    session.loop_exited(LoopHalf::Inbound);
    assert_eq!(session.current_state(), SessionState::Closed);
}
