//! Building blocks for keyed event streams: events and the values read from and
//! written into them, byte encodings, streams and channels over events, and the
//! registry that hands each topic its broadcast channel.
pub mod broadcast;
pub mod adapters;
pub mod bytes;
pub mod channel;
pub mod event;
pub mod serde;
pub mod stream;
pub mod transport;

use vstd::prelude::*;
use crate::broadcast::{open_channel, send, subscribe, TopicReceiver, TopicSender};
use crate::event::{Event, EventView};

verus! {

/// Capacity of the broadcast channel opened for each topic.
pub const TOPIC_CAPACITY: usize = 16;

struct Topic {
    name: String,
    sender: TopicSender,
}

/// The events to broadcast and the topics that streams have subscribed to,
/// each topic with one channel.
pub struct Rivers {
    events: Vec<Event>,
    topics: Vec<Topic>,
}

/// The content of a [`Rivers`]: its events; its topic names in the order in
/// which they were first asked for; beside each topic the channel it keeps,
/// the capacity that channel was opened with, the events the channel has
/// taken for it so far, in order, and the events whose send to it was refused
/// for want of a receiver, in order.
pub struct RiversView {
    pub events: Seq<EventView>,
    pub topics: Seq<Seq<char>>,
    pub channels: Seq<int>,
    pub capacities: Seq<nat>,
    pub sent: Seq<Seq<EventView>>,
    pub refused: Seq<Seq<EventView>>,
}

impl RiversView {
    /// Every topic has one channel and one list of sent events, and no topic
    /// name repeats.
    pub open spec fn well_formed(self) -> bool {
        &&& self.channels.len() == self.topics.len()
        &&& self.capacities.len() == self.topics.len()
        &&& self.sent.len() == self.topics.len()
        &&& self.refused.len() == self.topics.len()
        &&& self.topics.no_duplicates()
    }

    /// What topic `i` has been sent once publishing stopped at event `event`
    /// of topic `topic`: every event for the topics before it, the events
    /// before `event` for it, nothing more for the topics after it.
    pub open spec fn sent_until(self, i: int, topic: int, event: int) -> Seq<EventView> {
        if i < topic {
            self.sent[i] + self.events
        } else if i == topic {
            self.sent[i] + self.events.take(event)
        } else {
            self.sent[i]
        }
    }
}

/// A send that found no receiver: the positions of its topic and of its event.
pub struct Undelivered {
    pub topic: usize,
    pub event: usize,
}

impl Undelivered {
    /// The verdict on the send of event `event` on topic `topic`, given what
    /// the send gave: one that reached a receiver lets publishing go on, one
    /// handed back stops it at this topic and this event.
    pub fn check_send(sent: Result<usize, Event>, topic: usize, event: usize) -> (r: Result<
        (),
        Undelivered,
    >)
        ensures
            sent is Ok ==> r is Ok,
            sent is Err ==> (r matches Err(u) && u.topic == topic && u.event == event),
    {
        match sent {
            Ok(_) => Ok(()),
            Err(_) => Err(Undelivered { topic, event }),
        }
    }
}

impl View for Rivers {
    type V = RiversView;

    closed spec fn view(&self) -> RiversView {
        RiversView {
            events: self.events@.map_values(|e: Event| e@),
            topics: self.topics@.map_values(|t: Topic| t.name@),
            channels: self.topics@.map_values(|t: Topic| t.sender.chan()),
            capacities: self.topics@.map_values(|t: Topic| t.sender.capacity()),
            sent: self.topics@.map_values(|t: Topic| t.sender.sent()),
            refused: self.topics@.map_values(|t: Topic| t.sender.refused()),
        }
    }
}

impl Rivers {
    #[verifier::type_invariant]
    spec fn topics_distinct(self) -> bool {
        forall|i: int, j: int|
            0 <= i < j < self.topics@.len() ==> #[trigger] self.topics@[i].name@
                != #[trigger] self.topics@[j].name@
    }

    proof fn lemma_well_formed(&self)
        requires
            self.topics_distinct(),
        ensures
            self@.well_formed(),
    {
        assert forall|i: int, j: int|
            0 <= i < self@.topics.len() && 0 <= j < self@.topics.len() && i != j implies
            self@.topics[i] != self@.topics[j] by {
            if i < j {
                assert(self.topics@[i].name@ != self.topics@[j].name@);
            } else {
                assert(self.topics@[j].name@ != self.topics@[i].name@);
            }
        }
    }

    pub fn new(events: Vec<Event>) -> (r: Rivers)
        ensures
            r@.events == events@.map_values(|e: Event| e@),
            r@.topics == Seq::<Seq<char>>::empty(),
            r@.well_formed(),
    {
        let r = Rivers { events, topics: Vec::new() };
        proof {
            assert(r@.topics =~= Seq::<Seq<char>>::empty());
            r.lemma_well_formed();
        }
        r
    }

    /// A receiver on the channel of `topic`: the channel that an earlier call
    /// opened for it, or else a new one, which the topic keeps from then on.
    /// The topics there were keep their channels and what was sent on them.
    pub fn channel_for_topic(&mut self, topic: &str) -> (rx: TopicReceiver)
        ensures
            final(self)@.well_formed(),
            final(self)@.events == old(self)@.events,
            forall|i: int|
                0 <= i < old(self)@.topics.len() ==> {
                    &&& final(self)@.channels[i] == old(self)@.channels[i]
                    &&& final(self)@.capacities[i] == old(self)@.capacities[i]
                    &&& final(self)@.sent[i] == old(self)@.sent[i]
                    &&& final(self)@.refused[i] == old(self)@.refused[i]
                },
            forall|i: int|
                0 <= i < old(self)@.topics.len() && old(self)@.topics[i] == topic@ ==> rx.chan()
                    == old(self)@.channels[i],
            old(self)@.topics.contains(topic@) ==> final(self)@.topics == old(self)@.topics,
            !old(self)@.topics.contains(topic@) ==> {
                &&& final(self)@.topics == old(self)@.topics.push(topic@)
                &&& rx.chan() == final(self)@.channels[old(self)@.topics.len() as int]
                &&& final(self)@.capacities[old(self)@.topics.len() as int] == TOPIC_CAPACITY
                &&& final(self)@.sent[old(self)@.topics.len() as int] == Seq::<EventView>::empty()
                &&& final(self)@.refused[old(self)@.topics.len() as int]
                    == Seq::<EventView>::empty()
            },
    {
        proof {
            use_type_invariant(&*self);
            self.lemma_well_formed();
        }
        let name = topic.to_owned();
        let n = self.topics.len();
        let mut i: usize = 0;
        while i < n
            invariant
                n == self.topics@.len(),
                i <= n,
                name@ == topic@,
                forall|j: int| 0 <= j < i ==> self.topics@[j].name@ != topic@,
            decreases n - i,
        {
            if self.topics[i].name == name {
                let rx = subscribe(&self.topics[i].sender);
                proof {
                    use_type_invariant(&*self);
                    self.lemma_well_formed();
                    assert(self@.topics[i as int] == topic@);
                    assert forall|j: int|
                        0 <= j < self@.topics.len() && self@.topics[j] == topic@ implies rx.chan()
                        == self@.channels[j] by {
                        assert(self@.topics[j] == self@.topics[i as int]);
                    }
                }
                return rx;
            }
            i = i + 1;
        }
        proof {
            assert forall|j: int| 0 <= j < self@.topics.len() implies self@.topics[j] != topic@ by {
                assert(self.topics@[j].name@ != topic@);
            }
        }
        let (tx, rx) = open_channel(TOPIC_CAPACITY);
        let ghost before = self@;
        let mut topics = Vec::new();
        std::mem::swap(&mut topics, &mut self.topics);
        topics.push(Topic { name, sender: tx });
        self.topics = topics;
        proof {
            assert(self@.topics =~= before.topics.push(topic@));
            use_type_invariant(&*self);
            self.lemma_well_formed();
        }
        rx
    }

    /// Sends every event, in order, on the channel of every topic, topic by
    /// topic; stops at the first send that finds no receiver.
    ///
    /// Whether a send finds a receiver is up to the tasks that hold them, so
    /// success is promised only where no send is made; what each send gave is
    /// judged by [`Undelivered::check_send`]. On success every topic's channel
    /// has taken every event; on a stop, what each topic's channel has taken is
    /// given by [`RiversView::sent_until`].
    pub fn publish(&mut self) -> (r: Result<(), Undelivered>)
        ensures
            final(self)@.well_formed(),
            final(self)@.events == old(self)@.events,
            final(self)@.topics == old(self)@.topics,
            final(self)@.channels == old(self)@.channels,
            final(self)@.capacities == old(self)@.capacities,
            final(self)@.sent.len() == old(self)@.sent.len(),
            old(self)@.topics.len() == 0 || old(self)@.events.len() == 0 ==> r is Ok,
            r is Ok ==> forall|i: int|
                0 <= i < old(self)@.topics.len() ==> #[trigger] final(self)@.sent[i] == old(
                    self,
                )@.sent[i] + old(self)@.events,
            r is Ok ==> final(self)@.refused == old(self)@.refused,
            r matches Err(u) ==> {
                &&& u.topic < old(self)@.topics.len()
                &&& u.event < old(self)@.events.len()
                &&& forall|i: int|
                    0 <= i < old(self)@.topics.len() ==> #[trigger] final(self)@.sent[i] == old(
                        self,
                    )@.sent_until(i, u.topic as int, u.event as int)
                &&& final(self)@.refused == old(self)@.refused.update(
                    u.topic as int,
                    old(self)@.refused[u.topic as int].push(old(self)@.events[u.event as int]),
                )
            },
    {
        proof {
            use_type_invariant(&*self);
            self.lemma_well_formed();
        }
        let ghost start = self@;
        let mut topics = Vec::new();
        std::mem::swap(&mut topics, &mut self.topics);
        let nt = topics.len();
        let ne = self.events.len();
        let mut result: Result<(), Undelivered> = Ok(());
        let mut t: usize = 0;
        while t < nt
            invariant_except_break
                result is Ok,
            invariant
                0 <= t <= nt,
                nt == topics@.len(),
                ne == self.events@.len(),
                start.events == self.events@.map_values(|e: Event| e@),
                start.topics == topics@.map_values(|x: Topic| x.name@),
                start.channels == topics@.map_values(|x: Topic| x.sender.chan()),
                start.capacities == topics@.map_values(|x: Topic| x.sender.capacity()),
                result is Ok ==> start.refused == topics@.map_values(
                    |x: Topic| x.sender.refused(),
                ),
                result matches Err(u) ==> topics@.map_values(|x: Topic| x.sender.refused())
                    == start.refused.update(
                    u.topic as int,
                    start.refused[u.topic as int].push(start.events[u.event as int]),
                ),
                start.sent.len() == nt,
                self.topics@.len() == 0,
                result is Ok ==> forall|i: int|
                    0 <= i < nt ==> #[trigger] topics@[i].sender.sent() == start.sent_until(
                        i,
                        t as int,
                        0,
                    ),
                result matches Err(u) ==> {
                    &&& u.topic < nt
                    &&& u.event < ne
                    &&& forall|i: int|
                        0 <= i < nt ==> #[trigger] topics@[i].sender.sent() == start.sent_until(
                            i,
                            u.topic as int,
                            u.event as int,
                        )
                },
            ensures
                result is Ok ==> forall|i: int|
                    0 <= i < nt ==> #[trigger] topics@[i].sender.sent() == start.sent[i]
                        + start.events,
            decreases nt - t,
        {
            let mut k: usize = 0;
            while k < ne
                invariant_except_break
                    result is Ok,
                invariant
                    0 <= t < nt,
                    0 <= k <= ne,
                    nt == topics@.len(),
                    ne == self.events@.len(),
                    start.events == self.events@.map_values(|e: Event| e@),
                    start.topics == topics@.map_values(|x: Topic| x.name@),
                    start.channels == topics@.map_values(|x: Topic| x.sender.chan()),
                    start.capacities == topics@.map_values(|x: Topic| x.sender.capacity()),
                    result is Ok ==> start.refused == topics@.map_values(
                        |x: Topic| x.sender.refused(),
                    ),
                    result matches Err(u) ==> topics@.map_values(|x: Topic| x.sender.refused())
                        == start.refused.update(
                        u.topic as int,
                        start.refused[u.topic as int].push(start.events[u.event as int]),
                    ),
                result is Ok ==> start.refused == topics@.map_values(
                    |x: Topic| x.sender.refused(),
                ),
                result matches Err(u) ==> topics@.map_values(|x: Topic| x.sender.refused())
                    == start.refused.update(
                    u.topic as int,
                    start.refused[u.topic as int].push(start.events[u.event as int]),
                ),
                    start.sent.len() == nt,
                    self.topics@.len() == 0,
                    result is Ok ==> forall|i: int|
                        0 <= i < nt ==> #[trigger] topics@[i].sender.sent() == start.sent_until(
                            i,
                            t as int,
                            k as int,
                        ),
                    result matches Err(u) ==> {
                        &&& u.topic < nt
                        &&& u.event < ne
                        &&& forall|i: int|
                            0 <= i < nt ==> #[trigger] topics@[i].sender.sent()
                                == start.sent_until(i, u.topic as int, u.event as int)
                    },
                ensures
                    result is Ok ==> forall|i: int|
                        0 <= i < nt ==> #[trigger] topics@[i].sender.sent() == start.sent_until(
                            i,
                            t + 1,
                            0,
                        ),
                decreases ne - k,
            {
                let e = self.events[k].duplicate();
                let ghost before = topics@;
                let sent = send(&mut topics[t].sender, e);
                proof {
                    assert(start.events[k as int] == self.events@[k as int]@);
                    assert(start.events.take(k + 1) =~= start.events.take(k as int).push(
                        start.events[k as int],
                    ));
                    assert(start.events.take(ne as int) =~= start.events);
                    assert(topics@.map_values(|x: Topic| x.name@) =~= before.map_values(
                        |x: Topic| x.name@,
                    ));
                    assert(topics@.map_values(|x: Topic| x.sender.chan()) =~= before.map_values(
                        |x: Topic| x.sender.chan(),
                    ));
                    assert(topics@.map_values(|x: Topic| x.sender.capacity()) =~= before.map_values(
                        |x: Topic| x.sender.capacity(),
                    ));
                    if sent is Ok {
                        assert(topics@.map_values(|x: Topic| x.sender.refused())
                            =~= before.map_values(|x: Topic| x.sender.refused()));
                    } else {
                        assert(topics@.map_values(|x: Topic| x.sender.refused())
                            =~= before.map_values(|x: Topic| x.sender.refused()).update(
                            t as int,
                            start.refused[t as int].push(start.events[k as int]),
                        ));
                    }
                }
                let verdict = Undelivered::check_send(sent, t, k);
                if verdict.is_err() {
                    result = verdict;
                    break;
                }
                k = k + 1;
            }
            if result.is_err() {
                break;
            }
            t = t + 1;
        }
        proof {
            assert forall|i: int, j: int| 0 <= i < j < topics@.len() implies #[trigger] topics@[i].name@
                != #[trigger] topics@[j].name@ by {
                assert(start.topics[i] == topics@[i].name@);
                assert(start.topics[j] == topics@[j].name@);
            }
        }
        self.topics = topics;
        proof {
            assert(self@.events == start.events);
            assert(self@.topics =~= start.topics);
            assert(self@.channels =~= start.channels);
            assert(self@.capacities =~= start.capacities);
            assert(result is Ok ==> self@.refused =~= start.refused);
            use_type_invariant(&*self);
            self.lemma_well_formed();
        }
        result
    }
}

} // verus!
