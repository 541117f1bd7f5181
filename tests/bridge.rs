use messenger_hub::bridge::{BridgeAction, BridgeEvent, BridgeState};

#[test]
fn bridge_forwards_until_end_of_stream() {
    let (s, a) = BridgeState::start();
    assert_eq!((s, a), (BridgeState::Open, BridgeAction::Subscribe));
    let (s, a) = s.step(BridgeEvent::Subscribed(7));
    assert_eq!((s, a), (BridgeState::Forwarding(7), BridgeAction::Receive));
    let (s, a) = s.step(BridgeEvent::Received);
    assert_eq!((s, a), (BridgeState::Forwarding(7), BridgeAction::Write));
    let (s, a) = s.step(BridgeEvent::Written);
    assert_eq!((s, a), (BridgeState::Forwarding(7), BridgeAction::Receive));
    let (s, a) = s.step(BridgeEvent::EndOfStream);
    assert_eq!((s, a), (BridgeState::Closing(7), BridgeAction::Unsubscribe(7)));
    let (s, a) = s.step(BridgeEvent::Unsubscribed);
    assert_eq!((s, a), (BridgeState::Closed, BridgeAction::CloseStream));
    assert!(s.is_closed());
}

#[test]
fn bridge_unsubscribes_after_failed_write() {
    let (s, _) = BridgeState::Forwarding(3).step(BridgeEvent::Received);
    let (s, a) = s.step(BridgeEvent::WriteFailed);
    assert_eq!((s, a), (BridgeState::Closing(3), BridgeAction::Unsubscribe(3)));
    assert!(!s.is_closed());
}

#[test]
fn bridge_ignores_events_out_of_place() {
    assert_eq!(
        BridgeState::Open.step(BridgeEvent::Received),
        (BridgeState::Open, BridgeAction::Ignore)
    );
    assert_eq!(
        BridgeState::Closed.step(BridgeEvent::Subscribed(2)),
        (BridgeState::Closed, BridgeAction::Ignore)
    );
    assert_eq!(
        BridgeState::Closing(4).step(BridgeEvent::Written),
        (BridgeState::Closing(4), BridgeAction::Ignore)
    );
    assert_eq!(
        BridgeState::Forwarding(4).step(BridgeEvent::Subscribed(5)),
        (BridgeState::Forwarding(4), BridgeAction::Ignore)
    );
}
