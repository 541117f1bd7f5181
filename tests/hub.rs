use messenger_hub::hub::{Delivery, Hub, CHANNEL_CAPACITY};
use messenger_hub::ids::{get_id, IdCounter};
use messenger_hub::message::Message;

fn deliver(plan: Vec<Delivery>) -> Vec<usize> {
    let mut failed = Vec::new();
    for d in plan {
        if d.sender.blocking_send(d.msg).is_err() {
            failed.push(d.id);
        }
    }
    failed
}

#[test]
fn scenario_hi_then_bye() {
    let mut hub = Hub::new();
    let (s1, mut rx1) = hub.subscribe();
    let (s2, mut rx2) = hub.subscribe();
    let plan = hub.publish(&Message::new("hi".to_string()));
    assert_eq!(plan.len(), 2);
    let failed = deliver(plan);
    assert!(failed.is_empty());
    hub.evict(&failed);
    assert_eq!(rx1.blocking_recv().unwrap().text, "hi");
    assert_eq!(rx2.blocking_recv().unwrap().text, "hi");

    drop(rx2);
    let failed = deliver(hub.publish(&Message::new("bye".to_string())));
    assert_eq!(failed, vec![s2]);
    hub.evict(&failed);
    assert_eq!(rx1.blocking_recv().unwrap().text, "bye");
    assert_eq!(hub.subscriber_ids(), vec![s1]);
    assert!(hub.is_registered(s1));
    assert!(!hub.is_registered(s2));
}

#[test]
fn fan_out_reaches_each_subscriber_once() {
    let mut hub = Hub::new();
    let mut receivers = Vec::new();
    for _ in 0..4 {
        receivers.push(hub.subscribe());
    }
    let plan = hub.publish(&Message::new("m".to_string()));
    let mut ids: Vec<usize> = plan.iter().map(|d| d.id).collect();
    ids.sort();
    assert_eq!(ids, vec![1, 2, 3, 4]);
    assert!(deliver(plan).is_empty());
    for (_, rx) in receivers.iter_mut() {
        assert_eq!(rx.blocking_recv().unwrap().text, "m");
        assert!(rx.try_recv().is_err());
    }
}

#[test]
fn publisher_receives_its_own_message() {
    let mut hub = Hub::new();
    let (_me, mut rx) = hub.subscribe();
    let plan = hub.publish(&Message::new("echo".to_string()));
    assert!(deliver(plan).is_empty());
    assert_eq!(rx.blocking_recv().unwrap().text, "echo");
}

#[test]
fn publish_with_no_subscribers_asks_for_nothing() {
    let mut hub = Hub::new();
    assert!(hub.publish(&Message::new("x".to_string())).is_empty());
    assert_eq!(hub.subscriber_count(), 0);
}

#[test]
fn dropped_receiver_is_evicted_silently() {
    let mut hub = Hub::new();
    let (a, rx_a) = hub.subscribe();
    let (b, mut rx_b) = hub.subscribe();
    drop(rx_a);
    let failed = deliver(hub.publish(&Message::new("z".to_string())));
    assert_eq!(failed, vec![a]);
    hub.evict(&failed);
    assert!(!hub.is_registered(a));
    assert!(hub.is_registered(b));
    assert_eq!(hub.subscriber_count(), 1);
    assert_eq!(rx_b.blocking_recv().unwrap().text, "z");
}

#[test]
fn evicting_unknown_ids_changes_nothing() {
    let mut hub = Hub::new();
    let (a, _rx) = hub.subscribe();
    hub.evict(&vec![a + 10, a + 20]);
    assert_eq!(hub.subscriber_ids(), vec![a]);
}

#[test]
fn unsubscribe_is_idempotent() {
    let mut hub = Hub::new();
    let (a, _rx_a) = hub.subscribe();
    let (b, _rx_b) = hub.subscribe();
    hub.unsubscribe(a);
    assert_eq!(hub.subscriber_ids(), vec![b]);
    hub.unsubscribe(a);
    assert_eq!(hub.subscriber_ids(), vec![b]);
    hub.unsubscribe(999);
    assert_eq!(hub.subscriber_ids(), vec![b]);
}

#[test]
fn identities_are_distinct_and_never_reused() {
    let mut hub = Hub::new();
    let (a, _ra) = hub.subscribe();
    let (b, rb) = hub.subscribe();
    drop(rb);
    hub.unsubscribe(b);
    let (c, _rc) = hub.subscribe();
    assert_eq!((a, b, c), (1, 2, 3));
    assert!(hub.can_subscribe());
}

#[test]
fn per_subscriber_order_is_kept() {
    let mut hub = Hub::new();
    let (_s, mut rx) = hub.subscribe();
    assert!(deliver(hub.publish(&Message::new("first".to_string()))).is_empty());
    assert_eq!(rx.blocking_recv().unwrap().text, "first");
    assert!(deliver(hub.publish(&Message::new("second".to_string()))).is_empty());
    assert_eq!(rx.blocking_recv().unwrap().text, "second");
}

#[test]
fn channel_holds_one_message_in_flight() {
    assert_eq!(CHANNEL_CAPACITY, 1);
    let mut hub = Hub::new();
    let (_s, mut rx) = hub.subscribe();
    let plan = hub.publish(&Message::new("one".to_string()));
    assert_eq!(plan[0].sender.max_capacity(), 1);
    let tx = plan[0].sender.clone();
    assert!(deliver(plan).is_empty());
    assert!(tx.try_send(Message::new("two".to_string())).is_err());
    assert_eq!(rx.blocking_recv().unwrap().text, "one");
    assert!(tx.try_send(Message::new("two".to_string())).is_ok());
}

#[test]
fn get_id_counts_from_one() {
    let mut counter = IdCounter::new();
    assert!(counter.has_next());
    assert_eq!(get_id(&mut counter), 1);
    assert_eq!(get_id(&mut counter), 2);
    assert_eq!(get_id(&mut counter), 3);
}

#[test]
fn duplicate_copies_the_text() {
    let m = Message::new("copy".to_string());
    let d = m.duplicate();
    assert_eq!(d.text, "copy");
    assert_eq!(m.text, "copy");
}

#[test]
fn deliveries_of_two_publishes_share_the_subscriber_channel() {
    let mut hub = Hub::new();
    let (_s, mut rx) = hub.subscribe();
    let first = hub.publish(&Message::new("a".to_string()));
    let second = hub.publish(&Message::new("b".to_string()));
    assert!(first[0].sender.same_channel(&second[0].sender));
    assert!(deliver(first).is_empty());
    assert_eq!(rx.blocking_recv().unwrap().text, "a");
    assert!(deliver(second).is_empty());
    assert_eq!(rx.blocking_recv().unwrap().text, "b");
}
