use rivers::event::Event;
use rivers::{Rivers, Undelivered, TOPIC_CAPACITY};

fn events() -> Vec<Event> {
    vec![
        Event::new(vec![1], vec![1]),
        Event::new(vec![1], vec![2]),
        Event::new(vec![3], vec![3]),
    ]
}

#[test]
fn publish_reaches_every_topic_in_order() {
    let mut r = Rivers::new(events());
    let mut a = r.channel_for_topic("a").handle;
    let mut b = r.channel_for_topic("b").handle;
    assert!(r.publish().is_ok());
    for rx in [&mut a, &mut b] {
        let got: Vec<Vec<u8>> = (0..3).map(|_| rx.try_recv().unwrap().value).collect();
        assert_eq!(got, vec![vec![1], vec![2], vec![3]]);
        assert!(rx.try_recv().is_err());
    }
}

#[test]
fn same_topic_shares_one_channel() {
    let mut r = Rivers::new(events());
    let mut a1 = r.channel_for_topic("a").handle;
    let mut a2 = r.channel_for_topic("a").handle;
    assert!(r.publish().is_ok());
    for rx in [&mut a1, &mut a2] {
        let got: Vec<Vec<u8>> = (0..3).map(|_| rx.try_recv().unwrap().value).collect();
        assert_eq!(got, vec![vec![1], vec![2], vec![3]]);
        // one channel for the topic: each event came once, not twice
        assert!(rx.try_recv().is_err());
    }
}

#[test]
fn publish_without_receiver_fails_at_first_send() {
    let mut r = Rivers::new(events());
    let rx = r.channel_for_topic("gone");
    drop(rx);
    let u = r.publish().err().unwrap();
    assert_eq!(u.topic, 0);
    assert_eq!(u.event, 0);
}

#[test]
fn publish_without_topics_sends_nothing() {
    let mut r = Rivers::new(events());
    assert!(r.publish().is_ok());
}

#[test]
fn topic_capacity_is_sixteen() {
    assert_eq!(TOPIC_CAPACITY, 16);
}

#[test]
fn send_verdicts() {
    assert!(Undelivered::check_send(Ok(2), 1, 1).is_ok());
    let u = Undelivered::check_send(Err(Event::new(vec![1], vec![2])), 3, 4)
        .err()
        .unwrap();
    assert_eq!(u.topic, 3);
    assert_eq!(u.event, 4);
}

#[test]
fn publish_twice_sends_events_twice() {
    let mut r = Rivers::new(events());
    let mut a = r.channel_for_topic("a").handle;
    assert!(r.publish().is_ok());
    assert!(r.publish().is_ok());
    let got: Vec<Vec<u8>> = (0..6).map(|_| a.try_recv().unwrap().value).collect();
    assert_eq!(got, vec![vec![1], vec![2], vec![3], vec![1], vec![2], vec![3]]);
}

#[test]
fn publish_stops_at_topic_without_receiver() {
    let mut r = Rivers::new(events());
    let mut a = r.channel_for_topic("a").handle;
    let gone = r.channel_for_topic("gone");
    let mut c = r.channel_for_topic("c").handle;
    drop(gone);
    let u = r.publish().err().unwrap();
    assert_eq!(u.topic, 1);
    assert_eq!(u.event, 0);
    assert_eq!((0..3).filter(|_| a.try_recv().is_ok()).count(), 3);
    assert!(c.try_recv().is_err());
}

#[test]
fn dropping_the_registry_closes_the_channels() {
    let mut r = Rivers::new(events());
    let mut a = r.channel_for_topic("a").handle;
    assert!(r.publish().is_ok());
    drop(r);
    for _ in 0..3 {
        assert!(a.try_recv().is_ok());
    }
    assert!(matches!(
        a.try_recv(),
        Err(tokio::sync::broadcast::error::TryRecvError::Closed)
    ));
}

#[test]
fn refused_send_stops_publishing_there() {
    let mut r = Rivers::new(events());
    let mut a = r.channel_for_topic("a").handle;
    let b = r.channel_for_topic("b");
    drop(b);
    let u = r.publish().err().unwrap();
    assert_eq!((u.topic, u.event), (1, 0));
    assert_eq!((0..3).filter(|_| a.try_recv().is_ok()).count(), 3);
}
