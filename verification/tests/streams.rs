use rivers::adapters::{Key, Value};
use rivers::event::Event;
use rivers::stream::filter::Filter;
use rivers::stream::map::Mapped;
use rivers::stream::next::Next;
use rivers::stream::{open_next, read_next, Received, Step, StreamSource};

fn source() -> StreamSource {
    let (_tx, rx) = tokio::sync::broadcast::channel::<Event>(4);
    StreamSource::new(rx)
}

#[test]
fn received_event_is_emitted() {
    let _s = source();
    match StreamSource::on_received(Received::Event(Event::new(vec![1], vec![2]))) {
        Step::Emit(e) => {
            assert_eq!(e.key, vec![1]);
            assert_eq!(e.value, vec![2]);
        }
        _ => panic!("expected an event"),
    }
}

#[test]
fn closed_channel_ends_stream() {
    assert!(matches!(StreamSource::on_received(Received::Closed), Step::End));
}

#[test]
fn lag_reads_again() {
    assert!(matches!(StreamSource::on_received(Received::Lagged(3)), Step::Again));
}

#[test]
fn read_next_reads_value() {
    let r: Option<Value> = read_next(Some(Event::new(vec![1], vec![5, 6])));
    assert_eq!(r.map(|Value(v)| v), Some(vec![5, 6]));
    let none: Option<Value> = read_next(None);
    assert!(none.is_none());
}

#[test]
fn open_next_keeps_event_beside_reading() {
    let r = open_next::<Key>(Some(Event::new(vec![4], vec![5])));
    let (e, Key(k)) = r.unwrap();
    assert_eq!(k, vec![4]);
    assert_eq!(e.key, vec![4]);
    assert_eq!(e.value, vec![5]);
    assert!(open_next::<Key>(None).is_none());
}

type Test = fn(Value) -> std::future::Ready<bool>;

#[test]
fn filter_verdicts() {
    let e = Event::new(vec![1], vec![2]);
    match Filter::<(), Test, Value, std::future::Ready<bool>>::on_verdict(e, true) {
        Step::Emit(e) => assert_eq!(e.value, vec![2]),
        _ => panic!("an accepted event is handed on"),
    }
    let e = Event::new(vec![1], vec![3]);
    assert!(matches!(
        Filter::<(), Test, Value, std::future::Ready<bool>>::on_verdict(e, false),
        Step::Again
    ));
}

#[test]
fn filter_new_holds_stream_and_test() {
    let f = Filter::<u8, Test, Value, std::future::Ready<bool>>::new(3, |_v| std::future::ready(true));
    assert_eq!(f.stream, 3);
}

#[test]
fn map_rewrite_writes_output() {
    let e = Event::new(vec![1], vec![2]);
    let r = Mapped::<(), (), Value, Value, ()>::rewrite(e, Value(vec![4]));
    assert_eq!(r.key, vec![1]);
    assert_eq!(r.value, vec![4]);
    let m = Mapped::<u8, u8, Value, Value, ()>::new(1, 2);
    assert_eq!(m.stream, 1);
    assert_eq!(m.f, 2);
}

#[test]
fn next_borrows_stream() {
    let mut s = 5u8;
    let n = Next::<u8, Value>::new(&mut s);
    *n.stream += 1;
    assert_eq!(s, 6);
}
