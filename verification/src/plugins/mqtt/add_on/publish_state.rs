//! The latest state of each publisher, republished on a timer: a registry that
//! keeps one message per publisher, the one it sent last.
use vstd::prelude::*;
use crate::plugins::mqtt::Qos;
use crate::plugins::mqtt::message::Message;

verus! {

/// The content of a message: topic, payload, quality of service, retain flag.
pub type MessageView = (Seq<char>, Seq<u8>, Qos, bool);

pub open spec fn message_view(m: Message) -> MessageView {
    (m.topic@, m.payload@, m.qos, m.retained)
}

/// The contents of a list of messages, as a set.
pub open spec fn published_views(r: Seq<Message>) -> Set<MessageView> {
    Set::new(|v: MessageView| exists|i: int| 0 <= i < r.len() && message_view(r[i]) == v)
}

/// How often the latest states are published again, in milliseconds.
#[derive(Debug, Clone, Copy)]
pub struct PublishStatePlugin {
    pub publish_interval_ms: u64,
}

/// A kind of publisher whose state can be published as a message. Each kind
/// has its own number, under which the registry keeps its latest state; two
/// kinds must not share a number.
pub trait StatePublisher {
    /// The number of this kind of publisher.
    spec fn spec_publisher_id() -> u64;

    /// The message that stands for the current state.
    spec fn published(&self) -> MessageView;

    fn publisher_id() -> (r: u64)
        ensures
            r == Self::spec_publisher_id(),
    ;

    fn to_publish(&self) -> (r: Message)
        ensures
            message_view(r) == self.published(),
    ;
}

/// A new state from one publisher, identified by its kind's number.
#[derive(Debug)]
pub struct UpdateState {
    pub id: u64,
    pub data: Message,
}

impl UpdateState {
    /// The state that `publisher` reports now, under the number of its kind:
    /// every state of one kind of publisher has the same number.
    pub fn new<T: StatePublisher>(publisher: &T) -> (r: Self)
        ensures
            r.id == T::spec_publisher_id(),
            message_view(r.data) == publisher.published(),
    {
        Self::with_message(T::publisher_id(), publisher.to_publish())
    }

    /// A state given as the message to publish.
    pub fn with_message(id: u64, data: Message) -> (r: Self)
        ensures
            r.id == id,
            message_view(r.data) == message_view(data),
    {
        UpdateState { id, data }
    }
}

/// No publisher appears twice in the list.
pub open spec fn unique_keys(s: Seq<(u64, Message)>) -> bool {
    forall|i: int, j: int| 0 <= i < j < s.len() ==> #[trigger] s[i].0 != #[trigger] s[j].0
}

/// The publishers that occur in the list.
pub open spec fn has_key(s: Seq<(u64, Message)>, k: u64) -> bool {
    exists|i: int| 0 <= i < s.len() && s[i].0 == k
}

/// Each publisher of the list, with its message.
pub open spec fn keyed_view(s: Seq<(u64, Message)>) -> Map<u64, MessageView> {
    Map::new(
        |k: u64| has_key(s, k),
        |k: u64| message_view(s[choose|i: int| 0 <= i < s.len() && s[i].0 == k].1),
    )
}

proof fn lemma_keyed_view_at(s: Seq<(u64, Message)>, x: int)
    requires
        unique_keys(s),
        0 <= x < s.len(),
    ensures
        keyed_view(s).dom().contains(s[x].0),
        keyed_view(s)[s[x].0] == message_view(s[x].1),
{
    let k = s[x].0;
    assert(has_key(s, k));
    let y = choose|i: int| 0 <= i < s.len() && s[i].0 == k;
    if y < x {
        assert(s[y].0 != s[x].0);
    } else if x < y {
        assert(s[x].0 != s[y].0);
    }
}

proof fn lemma_keyed_view_update(s: Seq<(u64, Message)>, x: int, m: Message)
    requires
        unique_keys(s),
        0 <= x < s.len(),
    ensures
        unique_keys(s.update(x, (s[x].0, m))),
        keyed_view(s.update(x, (s[x].0, m))) == keyed_view(s).insert(s[x].0, message_view(m)),
{
    let id = s[x].0;
    let t = s.update(x, (id, m));
    assert forall|a: int, b: int| 0 <= a < b < t.len() implies #[trigger] t[a].0 != #[trigger] t[b].0 by {
        assert(t[a].0 == s[a].0);
        assert(t[b].0 == s[b].0);
    }
    assert forall|k: u64| #[trigger] has_key(t, k) == has_key(s, k) by {
        if has_key(t, k) {
            let y = choose|i: int| 0 <= i < t.len() && t[i].0 == k;
            assert(s[y].0 == k);
        }
        if has_key(s, k) {
            let y = choose|i: int| 0 <= i < s.len() && s[i].0 == k;
            assert(t[y].0 == k);
        }
    }
    assert forall|k: u64| #[trigger] keyed_view(t).dom().contains(k) implies keyed_view(t)[k]
        == keyed_view(s).insert(id, message_view(m))[k] by {
        let y = choose|i: int| 0 <= i < t.len() && t[i].0 == k;
        lemma_keyed_view_at(t, y);
        if y != x {
            lemma_keyed_view_at(s, y);
        }
    }
    assert(keyed_view(t) =~= keyed_view(s).insert(id, message_view(m)));
}

proof fn lemma_keyed_view_push(s: Seq<(u64, Message)>, id: u64, m: Message)
    requires
        unique_keys(s),
        !has_key(s, id),
    ensures
        unique_keys(s.push((id, m))),
        keyed_view(s.push((id, m))) == keyed_view(s).insert(id, message_view(m)),
{
    let t = s.push((id, m));
    assert forall|a: int, b: int| 0 <= a < b < t.len() implies #[trigger] t[a].0 != #[trigger] t[b].0 by {
        if b == s.len() {
            assert(s[a].0 == t[a].0);
        } else {
            assert(t[a].0 == s[a].0);
            assert(t[b].0 == s[b].0);
        }
    }
    assert(t[s.len() as int].0 == id);
    assert forall|k: u64| #[trigger] has_key(t, k) == (has_key(s, k) || k == id) by {
        if has_key(t, k) {
            let y = choose|i: int| 0 <= i < t.len() && t[i].0 == k;
            if y < s.len() {
                assert(s[y].0 == k);
            }
        }
        if has_key(s, k) {
            let y = choose|i: int| 0 <= i < s.len() && s[i].0 == k;
            assert(t[y].0 == k);
        }
    }
    assert forall|k: u64| #[trigger] keyed_view(t).dom().contains(k) implies keyed_view(t)[k]
        == keyed_view(s).insert(id, message_view(m))[k] by {
        let y = choose|i: int| 0 <= i < t.len() && t[i].0 == k;
        lemma_keyed_view_at(t, y);
        if y < s.len() {
            assert(t[y] == s[y]);
            lemma_keyed_view_at(s, y);
        }
    }
    assert(keyed_view(t) =~= keyed_view(s).insert(id, message_view(m)));
}

/// The latest message of each publisher.
#[derive(Debug)]
pub struct StatePublishRegistry {
    entries: Vec<(u64, Message)>,
}

impl View for StatePublishRegistry {
    /// The latest message of each publisher, by number. The order in which
    /// the entries are kept is not part of it.
    type V = Map<u64, MessageView>;

    closed spec fn view(&self) -> Map<u64, MessageView> {
        keyed_view(self.entries@)
    }
}

impl StatePublishRegistry {
    /// No publisher appears twice.
    pub closed spec fn wf(&self) -> bool {
        unique_keys(self.entries@)
    }


    pub fn new() -> (r: Self)
        ensures
            r.wf(),
            r@ == Map::<u64, MessageView>::empty(),
    {
        let r = StatePublishRegistry { entries: Vec::new() };
        assert(r@ =~= Map::<u64, MessageView>::empty());
        r
    }

    /// Records a publisher's new state, replacing its previous one.
    pub fn update(&mut self, new_state: UpdateState)
        requires
            old(self).wf(),
        ensures
            final(self).wf(),
            final(self)@ == old(self)@.insert(new_state.id, message_view(new_state.data)),
    {
        let ghost before = self.entries@;
        let UpdateState { id, data } = new_state;
        let n = self.entries.len();
        let mut i: usize = 0;
        while i < n
            invariant
                n == self.entries@.len(),
                self.entries@ == before,
                before == old(self).entries@,
                id == new_state.id,
                data == new_state.data,
                unique_keys(before),
                i <= n,
                forall|j: int| 0 <= j < i ==> #[trigger] before[j].0 != id,
            decreases n - i,
        {
            if self.entries[i].0 == id {
                proof {
                    lemma_keyed_view_update(before, i as int, data);
                }
                self.entries.set(i, (id, data));
                return;
            }
            i = i + 1;
        }
        proof {
            assert(!has_key(before, id));
            lemma_keyed_view_push(before, id, data);
        }
        self.entries.push((id, data));
    }

    /// The messages to publish: the latest one of every publisher, once each.
    pub fn publish(&self) -> (r: Vec<Message>)
        requires
            self.wf(),
        ensures
            r@.len() == self@.dom().len(),
            published_views(r@) == self@.values(),
    {
        let mut out: Vec<Message> = Vec::new();
        let n = self.entries.len();
        let mut i: usize = 0;
        while i < n
            invariant
                n == self.entries@.len(),
                i <= n,
                out@.len() == i,
                forall|j: int| 0 <= j < i ==> message_view(#[trigger] out@[j]) == message_view(self.entries@[j].1),
            decreases n - i,
        {
            let m = self.entries[i].1.clone();
            out.push(m);
            i = i + 1;
        }
        proof {
            self.lemma_view_len();
            assert forall|v: MessageView| #[trigger] published_views(out@).contains(v) == self@.values().contains(v) by {
                if published_views(out@).contains(v) {
                    let j = choose|j: int| 0 <= j < out@.len() && message_view(out@[j]) == v;
                    let k = self.entries@[j].0;
                    assert(self@.dom().contains(k));
                    let x = choose|x: int| 0 <= x < self.entries@.len() && self.entries@[x].0 == k;
                    if x != j {
                        if x < j {
                            assert(self.entries@[x].0 != self.entries@[j].0);
                        } else {
                            assert(self.entries@[j].0 != self.entries@[x].0);
                        }
                    }
                    assert(self@[k] == v);
                }
                if self@.values().contains(v) {
                    let k = choose|k: u64| #[trigger] self@.dom().contains(k) && self@[k] == v;
                    let x = choose|x: int| 0 <= x < self.entries@.len() && self.entries@[x].0 == k;
                    assert(message_view(out@[x]) == v);
                }
            }
            assert(published_views(out@) =~= self@.values());
        }
        out
    }

    proof fn lemma_view_len(&self)
        requires
            self.wf(),
        ensures
            self@.dom().finite(),
            self@.dom().len() == self.entries@.len(),
    {
        let keys = self.entries@.map_values(|e: (u64, Message)| e.0);
        assert(keys.no_duplicates()) by {
            assert forall|a: int, b: int| 0 <= a < keys.len() && 0 <= b < keys.len() && a != b implies keys[a] != keys[b] by {
                if a < b {
                    assert(self.entries@[a].0 != self.entries@[b].0);
                } else {
                    assert(self.entries@[b].0 != self.entries@[a].0);
                }
            }
        }
        assert(self@.dom() =~= keys.to_set()) by {
            assert forall|k: u64| #[trigger] self@.dom().contains(k) == keys.to_set().contains(k) by {
                if self@.dom().contains(k) {
                    let x = choose|x: int| 0 <= x < self.entries@.len() && self.entries@[x].0 == k;
                    assert(keys[x] == k);
                }
                if keys.contains(k) {
                    let x = choose|x: int| 0 <= x < keys.len() && keys[x] == k;
                    assert(self.entries@[x].0 == k);
                }
            }
        }
        keys.unique_seq_to_set();
    }
}

/// Of two states recorded for one publisher, only the later one is published:
/// recording `a` and then `b` under the same number leaves the registry as
/// recording `b` alone would.
pub proof fn lemma_later_state_wins(before: Map<u64, MessageView>, id: u64, a: MessageView, b: MessageView)
    ensures
        before.insert(id, a).insert(id, b) == before.insert(id, b),
{
    assert(before.insert(id, a).insert(id, b) =~= before.insert(id, b));
}

} // verus!
