use rivers::adapters::{Key, Value};
use rivers::event::{Event, FromEvent, IntoEvent};

#[test]
fn event_new_keeps_key_and_value() {
    let e = Event::new(vec![1, 2], vec![3]);
    assert_eq!(e.key, vec![1, 2]);
    assert_eq!(e.value, vec![3]);
}

#[test]
fn event_duplicate_is_equal_copy() {
    let e = Event::new(vec![9], vec![8, 7]);
    let d = e.duplicate();
    assert_eq!(d.key, e.key);
    assert_eq!(d.value, e.value);
}

#[test]
fn event_read_gives_whole_event_and_keeps_it() {
    let mut e = Event::new(vec![1], vec![2]);
    let r = Event::from_event(&mut e);
    assert_eq!(r.key, vec![1]);
    assert_eq!(r.value, vec![2]);
    assert_eq!(e.key, vec![1]);
    assert_eq!(e.value, vec![2]);
}

#[test]
fn event_write_replaces_whole_event() {
    let mut e = Event::new(vec![1], vec![2]);
    Event::new(vec![5, 5], vec![]).into_event(&mut e);
    assert_eq!(e.key, vec![5, 5]);
    assert!(e.value.is_empty());
}

#[test]
fn key_and_value_read_their_parts() {
    let mut e = Event::new(vec![3], vec![4, 5]);
    let Key(k) = Key::from_event(&mut e);
    let Value(v) = Value::from_event(&mut e);
    assert_eq!(k, vec![3]);
    assert_eq!(v, vec![4, 5]);
    assert_eq!(e.key, vec![3]);
    assert_eq!(e.value, vec![4, 5]);
}

#[test]
fn key_write_keeps_value() {
    let mut e = Event::new(vec![3], vec![4]);
    Key(vec![7]).into_event(&mut e);
    assert_eq!(e.key, vec![7]);
    assert_eq!(e.value, vec![4]);
    let Key(k) = Key::from_event(&mut e);
    assert_eq!(k, vec![7]);
}

#[test]
fn value_write_keeps_key() {
    let mut e = Event::new(vec![3], vec![4]);
    Value(vec![8, 8]).into_event(&mut e);
    assert_eq!(e.key, vec![3]);
    assert_eq!(e.value, vec![8, 8]);
}

#[test]
fn pair_of_key_and_value_round_trips() {
    let mut e = Event::new(vec![0], vec![0]);
    (Key(vec![1]), Value(vec![2])).into_event(&mut e);
    assert_eq!(e.key, vec![1]);
    assert_eq!(e.value, vec![2]);
    let (Key(k), Value(v)) = <(Key, Value)>::from_event(&mut e);
    assert_eq!(k, vec![1]);
    assert_eq!(v, vec![2]);
}

#[test]
fn later_write_of_a_tuple_wins() {
    let mut e = Event::new(vec![0], vec![0]);
    (Key(vec![1]), Key(vec![2])).into_event(&mut e);
    assert_eq!(e.key, vec![2]);
    assert_eq!(e.value, vec![0]);
}

#[test]
fn single_and_triple_tuples() {
    let mut e = Event::new(vec![6], vec![7]);
    let (Key(k),) = <(Key,)>::from_event(&mut e);
    assert_eq!(k, vec![6]);
    let (Value(a), Key(b), Value(c)) = <(Value, Key, Value)>::from_event(&mut e);
    assert_eq!(a, vec![7]);
    assert_eq!(b, vec![6]);
    assert_eq!(c, vec![7]);
    (Value(vec![1]), Event::new(vec![2], vec![3]), Key(vec![4])).into_event(&mut e);
    assert_eq!(e.key, vec![4]);
    assert_eq!(e.value, vec![3]);
}

#[test]
fn empty_tuple_write_changes_nothing() {
    let mut e = Event::new(vec![1], vec![2]);
    ().into_event(&mut e);
    assert_eq!(e.key, vec![1]);
    assert_eq!(e.value, vec![2]);
}
