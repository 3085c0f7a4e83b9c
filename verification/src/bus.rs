//! Messages of the publish/subscribe broker and of the control bus.

use vstd::prelude::*;
use crate::status::GraphStatus;
use crate::named::NamedList;

verus! {

/// A payload published on a topic.
#[derive(Debug)]
pub struct SubscribeMessage {
    pub topic: String,
    pub payload: Vec<u8>,
}

impl SubscribeMessage {
    /// A payload published on `topic`.
    pub fn new(topic: String, payload: Vec<u8>) -> (res: Self)
        ensures
            res.topic == topic,
            res.payload == payload,
    {
        SubscribeMessage { topic, payload }
    }
}

/// A change of a graph's state, announced on the control bus.
#[derive(Debug, Clone)]
pub struct ControlEvent {
    pub graph_name: String,
    pub operator_names: Vec<String>,
    pub state: GraphStatus,
}

/// A publish/subscribe broker: subscribers (opaque senders `S`) by topic.
#[derive(Debug)]
pub struct Broker<S> {
    pub subscribers: NamedList<Vec<S>>,
}

/// The subscribers of a topic, in the order they subscribed.
pub open spec fn subscribers_of<S>(b: Broker<S>, topic: Seq<char>) -> Seq<S> {
    match b.subscribers.lookup(topic) {
        Some(v) => v@,
        None => Seq::empty(),
    }
}

impl<S> Broker<S> {
    /// A broker without subscribers.
    pub fn new() -> (res: Self)
        ensures
            res.subscribers.wf(),
            forall|t: Seq<char>| #[trigger] subscribers_of(res, t) == Seq::<S>::empty(),
    {
        Broker { subscribers: NamedList::new() }
    }

    /// Adds a subscriber to a topic.
    pub fn subscribe(&mut self, topic: String, sender: S)
        requires
            old(self).subscribers.wf(),
        ensures
            final(self).subscribers.wf(),
            subscribers_of(*final(self), topic@) == subscribers_of(*old(self), topic@).push(sender),
            forall|t: Seq<char>| t != topic@ ==> #[trigger] subscribers_of(*final(self), t) == subscribers_of(*old(self), t),
    {
        let mut list = match self.subscribers.remove(topic.as_str()) {
            Some(v) => v,
            None => Vec::new(),
        };
        let ghost before = list@;
        list.push(sender);
        let _ = self.subscribers.insert(topic, list);
        assert(subscribers_of(*self, topic@) =~= before.push(sender));
    }

    /// What publishing `payload` on `topic` sends: to each subscriber of the
    /// topic, in order, the payload with its topic.
    pub fn publish(&self, topic: &str, payload: &Vec<u8>) -> (res: Vec<(&S, SubscribeMessage)>)
        requires
            self.subscribers.wf(),
        ensures
            res@.len() == subscribers_of(*self, topic@).len(),
            forall|i: int| 0 <= i < res@.len() ==> *(#[trigger] res@[i]).0 == subscribers_of(*self, topic@)[i]
                && res@[i].1.topic@ == topic@ && res@[i].1.payload@ == payload@,
    {
        let mut out: Vec<(&S, SubscribeMessage)> = Vec::new();
        match self.subscribers.get(topic) {
            Some(list) => {
                let mut i: usize = 0;
                while i < list.len()
                    invariant
                        i <= list@.len(),
                        list@ == subscribers_of(*self, topic@),
                        out@.len() == i,
                        forall|j: int| 0 <= j < i ==> *(#[trigger] out@[j]).0 == list@[j]
                            && out@[j].1.topic@ == topic@ && out@[j].1.payload@ == payload@,
                    decreases list@.len() - i,
                {
                    out.push((&list[i], SubscribeMessage::new(String::from_str(topic), payload.clone())));
                    i = i + 1;
                }
            },
            None => {},
        }
        out
    }
}

} // verus!
