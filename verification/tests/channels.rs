use rivers::channel::filter::Filter;
use rivers::channel::map::Mapped;
use rivers::channel::to::To;
use rivers::channel::{Channel, Record};
use rivers::transport::Transport;
use std::cell::RefCell;

struct Memory {
    sent: RefCell<Vec<(String, Option<Vec<u8>>, Option<Vec<u8>>)>>,
}

impl Transport for Memory {
    fn consume(&self, _topic: &str) -> (Option<&[u8]>, Option<&[u8]>) {
        (None, None)
    }

    fn produce(&self, topic: &str, key: Option<Vec<u8>>, value: Option<Vec<u8>>) {
        self.sent.borrow_mut().push((topic.to_string(), key, value));
    }
}

struct Numbers<'a> {
    transport: &'a Memory,
    next: RefCell<u8>,
}

impl<'a> Channel<'a, Memory> for Numbers<'a> {
    type Key = u8;
    type Value = u8;

    fn next(&self) -> Option<Record<u8, u8>> {
        let mut n = self.next.borrow_mut();
        *n += 1;
        Some(Record { key: Some(*n), value: Some(*n * 10) })
    }

    fn transport_of(&self) -> &'a Memory {
        self.transport
    }

    fn transport(&self) -> &'a Memory {
        self.transport
    }
}

fn memory() -> Memory {
    Memory { sent: RefCell::new(vec![]) }
}

#[test]
fn map_rewrites_each_record() {
    let m = memory();
    let c = Numbers { transport: &m, next: RefCell::new(0) };
    let mapped = c.map(|r: Record<u8, u8>| Record { key: r.value, value: r.key });
    let r = mapped.next().unwrap();
    assert_eq!(r.key, Some(10));
    assert_eq!(r.value, Some(1));
}

#[test]
fn filter_drops_rejected_records() {
    let m = memory();
    let c = Numbers { transport: &m, next: RefCell::new(0) };
    let even = c.filter(|r: &Record<u8, u8>| r.key.unwrap() % 2 == 0);
    assert!(even.next().is_none());
    assert_eq!(even.next().unwrap().key, Some(2));
    assert!(even.next().is_none());
    assert_eq!(even.next().unwrap().key, Some(4));
}

#[test]
fn to_sends_and_passes_on() {
    let m = memory();
    let c = Numbers { transport: &m, next: RefCell::new(0) };
    let to = c.to("out", |k: &u8| vec![*k], |v: &u8| vec![*v, 0]);
    assert_eq!(to.topic, "out");
    let r = to.next().unwrap();
    assert_eq!(r.key, Some(1));
    assert_eq!(r.value, Some(10));
    let sent = m.sent.borrow();
    assert_eq!(sent.len(), 1);
    assert_eq!(sent[0], ("out".to_string(), Some(vec![1]), Some(vec![10, 0])));
}

#[test]
fn produce_serializes_present_parts_only() {
    let m = memory();
    let c = Numbers { transport: &m, next: RefCell::new(0) };
    c.produce("t", &Some(3u8), &None::<u8>, &|k: &u8| vec![*k], &|v: &u8| vec![*v]);
    assert_eq!(m.sent.borrow()[0], ("t".to_string(), Some(vec![3]), None));
}

#[test]
fn stages_compose() {
    let m = memory();
    let c = Numbers { transport: &m, next: RefCell::new(0) };
    let f = Filter::new(&m, c, |r: &Record<u8, u8>| r.key == Some(3));
    let g = Mapped::new(&m, f, |r: Record<u8, u8>| Record { key: r.key, value: None::<u8> });
    let t = To::new(&m, g, "x".to_string(), |k: &u8| vec![*k], |v: &u8| vec![*v]);
    assert!(t.next().is_none());
    assert!(t.next().is_none());
    let r = t.next().unwrap();
    assert_eq!(r.key, Some(3));
    assert_eq!(r.value, None);
    assert_eq!(m.sent.borrow().len(), 1);
    assert_eq!(m.sent.borrow()[0], ("x".to_string(), Some(vec![3]), None));
    assert!(std::ptr::eq(t.transport(), &m));
}

#[test]
fn new_stages_keep_the_transport() {
    let m = memory();
    let c = Numbers { transport: &m, next: RefCell::new(0) };
    let f = c.filter(|_r: &Record<u8, u8>| true);
    assert!(std::ptr::eq(f.transport(), &m));
    let g = f.map(|r: Record<u8, u8>| r);
    assert!(std::ptr::eq(g.transport, &m));
    let t = g.to("y", |k: &u8| vec![*k], |v: &u8| vec![*v]);
    assert!(std::ptr::eq(t.transport, &m));
}

#[test]
fn produce_hands_serialized_parts_to_the_transport() {
    let m = memory();
    let c = Numbers { transport: &m, next: RefCell::new(0) };
    c.produce(
        "t",
        &Some(0x0102u16),
        &None::<u8>,
        &|k: &u16| vec![(*k & 0xFF) as u8, (*k >> 8) as u8],
        &|v: &u8| vec![*v],
    );
    assert_eq!(m.sent.borrow().len(), 1);
    assert_eq!(m.sent.borrow()[0], ("t".to_string(), Some(vec![0x02, 0x01]), None));
}
