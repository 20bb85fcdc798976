use webmocket::bus::{Bus, BusEvent, RecvOutcome};

#[test]
fn publish_with_no_subscriber_is_an_error() {
    let mut bus = Bus::new(100);
    assert!(bus.publish(BusEvent::Ping).is_err());
    assert_eq!(bus.subscriber_count(), 0);
    assert_eq!(bus.published_count(), 0);
}

#[test]
fn publish_returns_the_subscriber_count() {
    let mut bus = Bus::new(100);
    let _s1 = bus.subscribe();
    let _s2 = bus.subscribe();
    let delivered = bus.publish(BusEvent::Text("x".to_string()));
    assert_eq!(delivered.ok(), Some(2));
}

#[test]
fn fan_out_reaches_every_subscriber() {
    let mut bus = Bus::new(100);
    let mut subs = vec![bus.subscribe(), bus.subscribe(), bus.subscribe()];
    let delivered = bus.publish(BusEvent::Text("x".to_string()));
    assert_eq!(delivered.ok(), Some(3));
    for sub in subs.iter_mut() {
        let events = bus.drain(sub);
        assert_eq!(events, vec![BusEvent::Text("x".to_string())]);
    }
}

#[test]
fn no_replay_for_a_late_subscriber() {
    let mut bus = Bus::new(100);
    let mut early = bus.subscribe();
    assert!(bus.publish(BusEvent::Text("before".to_string())).is_ok());
    let mut late = bus.subscribe();
    assert!(bus.publish(BusEvent::Text("after".to_string())).is_ok());
    assert_eq!(
        bus.drain(&mut early),
        vec![
            BusEvent::Text("before".to_string()),
            BusEvent::Text("after".to_string())
        ]
    );
    assert_eq!(bus.drain(&mut late), vec![BusEvent::Text("after".to_string())]);
}

#[test]
fn receive_reports_pending_when_nothing_is_published() {
    let mut bus = Bus::new(100);
    let mut sub = bus.subscribe();
    assert!(matches!(bus.receive(&mut sub), RecvOutcome::Pending));
}

#[test]
fn receive_yields_events_in_publish_order() {
    let mut bus = Bus::new(100);
    let mut sub = bus.subscribe();
    assert!(bus.publish(BusEvent::Ping).is_ok());
    assert!(bus.publish(BusEvent::Pong).is_ok());
    assert!(matches!(bus.receive(&mut sub), RecvOutcome::Event(BusEvent::Ping)));
    assert!(matches!(bus.receive(&mut sub), RecvOutcome::Event(BusEvent::Pong)));
    assert!(matches!(bus.receive(&mut sub), RecvOutcome::Pending));
}

#[test]
fn a_slow_subscriber_lags_and_then_continues() {
    let mut bus = Bus::new(2);
    let mut sub = bus.subscribe();
    assert!(bus.publish(BusEvent::Text("1".to_string())).is_ok());
    assert!(bus.publish(BusEvent::Text("2".to_string())).is_ok());
    assert!(bus.publish(BusEvent::Text("3".to_string())).is_ok());
    // The window holds the last two events; the first was dropped.
    assert!(matches!(bus.receive(&mut sub), RecvOutcome::Lagged));
    assert!(matches!(
        bus.receive(&mut sub),
        RecvOutcome::Event(BusEvent::Text(ref t)) if t == "2"
    ));
    assert!(matches!(
        bus.receive(&mut sub),
        RecvOutcome::Event(BusEvent::Text(ref t)) if t == "3"
    ));
    assert!(matches!(bus.receive(&mut sub), RecvOutcome::Pending));
}

#[test]
fn drain_skips_dropped_events_after_a_lag() {
    let mut bus = Bus::new(2);
    let mut sub = bus.subscribe();
    for i in 0..5 {
        assert!(bus.publish(BusEvent::Text(format!("{}", i))).is_ok());
    }
    assert_eq!(
        bus.drain(&mut sub),
        vec![
            BusEvent::Text("3".to_string()),
            BusEvent::Text("4".to_string())
        ]
    );
}

#[test]
fn publish_on_a_closed_bus_is_an_error() {
    let mut bus = Bus::new(100);
    let _sub = bus.subscribe();
    bus.close();
    assert!(bus.publish(BusEvent::Ping).is_err());
}

#[test]
fn a_closed_bus_is_drained_then_reports_closed() {
    let mut bus = Bus::new(100);
    let mut sub = bus.subscribe();
    assert!(bus.publish(BusEvent::Pong).is_ok());
    bus.close();
    assert!(matches!(bus.receive(&mut sub), RecvOutcome::Event(BusEvent::Pong)));
    assert!(matches!(bus.receive(&mut sub), RecvOutcome::Closed));
}

#[test]
fn unsubscribe_lowers_the_count_publishers_see() {
    let mut bus = Bus::new(100);
    let s1 = bus.subscribe();
    let _s2 = bus.subscribe();
    assert_eq!(bus.subscriber_count(), 2);
    bus.unsubscribe(s1);
    assert_eq!(bus.subscriber_count(), 1);
    assert_eq!(bus.publish(BusEvent::Ping).ok(), Some(1));
}

#[test]
fn duplicate_copies_the_payload() {
    let event = BusEvent::Text("payload".to_string());
    assert_eq!(event.duplicate(), event);
    assert_eq!(BusEvent::Ping.duplicate(), BusEvent::Ping);
    assert_eq!(BusEvent::Pong.duplicate(), BusEvent::Pong);
}
