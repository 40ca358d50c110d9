//! Outgoing messages and subscription lists.
use vstd::prelude::*;
use crate::newtype::{AtomicFixedBytes, AtomicFixedString};
use super::{Qos, qos_value};
use super::add_on::action_message::{MessageImpl, message_topic, topic, qos};

verus! {

/// A message waiting to be published.
#[derive(Debug)]
pub struct Message {
    pub topic: AtomicFixedString,
    pub payload: AtomicFixedBytes,
    pub qos: Qos,
    pub retained: bool,
}

impl Clone for Message {
    fn clone(&self) -> (r: Self)
        ensures
            r.topic@ == self.topic@,
            r.payload@ == self.payload@,
            r.qos == self.qos,
            r.retained == self.retained,
    {
        Message {
            topic: self.topic.clone(),
            payload: self.payload.clone(),
            qos: self.qos,
            retained: self.retained,
        }
    }
}

impl Message {
    /// A message of a given kind, on that kind's topic and with its quality of
    /// service, not retained.
    pub fn make<M: MessageImpl>(payload: AtomicFixedBytes) -> (r: Self)
        ensures
            r.topic@ == message_topic::<M>(),
            r.qos == M::spec_route().qos,
            r.payload@ == payload@,
            !r.retained,
    {
        Message { topic: topic::<M>(), payload, qos: qos::<M>(), retained: false }
    }
}

/// Topics to subscribe to, with their quality of service.
#[derive(Debug)]
pub struct Subscriptions(pub Vec<(AtomicFixedString, Qos)>);

/// Collects the message kinds a subscription list is made of.
#[derive(Debug)]
pub struct SubscriptionsBuilder {
    subs: Vec<(AtomicFixedString, Qos)>,
}

impl SubscriptionsBuilder {
    /// The topics and qualities of service collected so far.
    pub closed spec fn entries(&self) -> Seq<(Seq<char>, Qos)> {
        self.subs@.map_values(|e: (AtomicFixedString, Qos)| (e.0@, e.1))
    }

    /// Adds a message kind.
    pub fn with_msg<T: MessageImpl>(self) -> (r: Self)
        ensures
            r.entries() == self.entries().push((message_topic::<T>(), T::spec_route().qos)),
    {
        let mut subs = self.subs;
        subs.push((topic::<T>(), qos::<T>()));
        let r = SubscriptionsBuilder { subs };
        proof {
            assert(r.entries() =~= self.entries().push((message_topic::<T>(), T::spec_route().qos)));
        }
        r
    }

    /// The subscription list.
    pub fn finalize(self) -> (r: Subscriptions)
        ensures
            r.entries() == self.entries(),
    {
        Subscriptions(self.subs)
    }
}

impl Subscriptions {
    /// An empty builder.
    pub fn new() -> (r: SubscriptionsBuilder)
        ensures
            r.entries() == Seq::<(Seq<char>, Qos)>::empty(),
    {
        let r = SubscriptionsBuilder { subs: Vec::new() };
        proof {
            assert(r.entries() =~= Seq::<(Seq<char>, Qos)>::empty());
        }
        r
    }

    /// The topics and qualities of service of the list.
    pub open spec fn entries(&self) -> Seq<(Seq<char>, Qos)> {
        self.0@.map_values(|e: (AtomicFixedString, Qos)| (e.0@, e.1))
    }
}

impl Subscriptions {
    /// The topics and the protocol values of their qualities of service, as two
    /// lists in the same order; `None` for an empty list, which needs no
    /// subscribe call.
    pub fn subscribe_args(&self) -> (r: Option<(Vec<AtomicFixedString>, Vec<i32>)>)
        ensures
            self.0@.len() == 0 ==> r is None,
            self.0@.len() > 0 ==> (r matches Some((topics, qos)) && topics@.len() == self.0@.len()
                && qos@.len() == self.0@.len() && (forall|i: int|
                0 <= i < self.0@.len() ==> #[trigger] topics@[i]@ == self.0@[i].0@ && qos@[i]
                    == qos_value(self.0@[i].1))),
    {
        if self.0.len() == 0 {
            return None;
        }
        let mut topics: Vec<AtomicFixedString> = Vec::new();
        let mut qos: Vec<i32> = Vec::new();
        let n = self.0.len();
        let mut i: usize = 0;
        while i < n
            invariant
                n == self.0@.len(),
                i <= n,
                topics@.len() == i,
                qos@.len() == i,
                forall|j: int|
                    0 <= j < i ==> (#[trigger] topics@[j])@ == self.0@[j].0@ && qos@[j] == qos_value(
                        self.0@[j].1,
                    ),
            decreases n - i,
        {
            let t = self.0[i].0.clone();
            let q = self.0[i].1.as_i32();
            assert(t@ == self.0@[i as int].0@);
            topics.push(t);
            qos.push(q);
            i = i + 1;
        }
        Some((topics, qos))
    }
}

/// The topics subscribed so far, with their quality of service.
#[derive(Debug)]
pub struct MqttSubscriptions(pub Vec<(AtomicFixedString, Qos)>);

impl MqttSubscriptions {
    pub open spec fn entries(&self) -> Seq<(Seq<char>, Qos)> {
        self.0@.map_values(|e: (AtomicFixedString, Qos)| (e.0@, e.1))
    }

    /// Records a subscription list that the broker accepted, after the ones
    /// recorded before.
    pub fn record(&mut self, subs: &Subscriptions)
        ensures
            final(self).entries() == old(self).entries() + subs.entries(),
    {
        let n = subs.0.len();
        let ghost start = self.entries();
        let mut i: usize = 0;
        while i < n
            invariant
                n == subs.0@.len(),
                i <= n,
                self.entries() == start + subs.entries().take(i as int),
            decreases n - i,
        {
            let e = (subs.0[i].0.clone(), subs.0[i].1);
            let ghost before = self.0@;
            self.0.push(e);
            proof {
                assert(self.0@ == before.push(e));
                assert(self.entries() =~= before.map_values(
                    |e: (AtomicFixedString, Qos)| (e.0@, e.1),
                ).push((e.0@, e.1)));
                assert(subs.entries().take(i + 1) =~= subs.entries().take(i as int).push(
                    subs.entries()[i as int],
                ));
                assert(self.entries() =~= start + subs.entries().take(i + 1));
            }
            i = i + 1;
        }
        proof {
            assert(subs.entries().take(n as int) =~= subs.entries());
        }
    }
}

/// The index of the first topic, at or after `from`, equal to the given one.
pub fn find_topic(topics: &Vec<String>, from: usize, topic: &String) -> (r: Option<usize>)
    ensures
        r matches Some(i) ==> from <= i < topics@.len() && topics@[i as int]@ == topic@ && forall|
            j: int,
        |
            from <= j < i ==> #[trigger] topics@[j]@ != topic@,
        r is None ==> forall|j: int| from <= j < topics@.len() ==> #[trigger] topics@[j]@ != topic@,
{
    let mut i = from;
    while i < topics.len()
        invariant
            from <= i,
            forall|j: int| from <= j < i && j < topics@.len() ==> #[trigger] topics@[j]@ != topic@,
        decreases topics@.len() - i,
    {
        if topics[i] == *topic {
            return Some(i);
        }
        i = i + 1;
    }
    None
}

} // verus!
