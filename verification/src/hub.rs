//! The broadcast hub: one publish point, one bounded queue for each
//! subscriber.
//!
//! Publishing never waits. A message is appended to the queue of every
//! subscriber; a queue that is already full gives up its oldest message to
//! make room. A subscriber therefore reads messages in the order of their
//! publication, may miss the oldest ones when it falls behind, and never
//! holds more than the capacity of its queue.

use std::collections::VecDeque;
use vstd::prelude::*;

verus! {

/// The queue length that the daemon uses unless told otherwise.
pub const DEFAULT_CAPACITY: usize = 100;

/// The texts of the queued messages, oldest first.
pub open spec fn texts(queue: Seq<String>) -> Seq<Seq<char>> {
    queue.map_values(|message: String| message@)
}

/// A queue after `message` has been offered to it: appended, at the price of
/// the oldest message where the queue already holds `capacity` of them.
pub open spec fn enqueued(queue: Seq<Seq<char>>, message: Seq<char>, capacity: nat) -> Seq<
    Seq<char>,
> {
    if queue.len() < capacity {
        queue.push(message)
    } else {
        queue.drop_first().push(message)
    }
}

/// A queue after each of `messages` has been offered to it in turn.
pub open spec fn enqueued_all(queue: Seq<Seq<char>>, messages: Seq<Seq<char>>, capacity: nat) -> Seq<
    Seq<char>,
>
    decreases messages.len(),
{
    if messages.len() == 0 {
        queue
    } else {
        enqueued(enqueued_all(queue, messages.drop_last(), capacity), messages.last(), capacity)
    }
}

/// The last `capacity` items of `items`, or all of them where there are fewer.
pub open spec fn newest(items: Seq<Seq<char>>, capacity: nat) -> Seq<Seq<char>> {
    if items.len() <= capacity {
        items
    } else {
        items.subrange(items.len() - capacity, items.len() as int)
    }
}

/// The queues after `message` has been published: every subscriber's queue
/// has been offered it, and the subscribers are the same.
pub open spec fn published(queues: Map<u64, Seq<Seq<char>>>, message: Seq<char>, capacity: nat) -> Map<
    u64,
    Seq<Seq<char>>,
> {
    queues.map_values(|queue: Seq<Seq<char>>| enqueued(queue, message, capacity))
}

/// The queues after each of `messages` has been published in turn.
pub open spec fn published_all(
    queues: Map<u64, Seq<Seq<char>>>,
    messages: Seq<Seq<char>>,
    capacity: nat,
) -> Map<u64, Seq<Seq<char>>>
    decreases messages.len(),
{
    if messages.len() == 0 {
        queues
    } else {
        published(published_all(queues, messages.drop_last(), capacity), messages.last(), capacity)
    }
}

/// The queues after a subscriber has joined under the identifier `id`.
pub open spec fn joined(queues: Map<u64, Seq<Seq<char>>>, id: u64) -> Map<u64, Seq<Seq<char>>> {
    queues.insert(id, Seq::empty())
}

/// A bounded queue keeps the newest messages in the order of their
/// publication: after any run of offers it holds the last `capacity` items of
/// what it held followed by what was offered, and all of them where they are
/// fewer.
pub proof fn lemma_enqueued_all_keeps_newest(
    queue: Seq<Seq<char>>,
    messages: Seq<Seq<char>>,
    capacity: nat,
)
    requires
        capacity >= 1,
        queue.len() <= capacity,
    ensures
        enqueued_all(queue, messages, capacity) == newest(queue + messages, capacity),
        enqueued_all(queue, messages, capacity).len() <= capacity,
    decreases messages.len(),
{
    if messages.len() == 0 {
        assert(queue + messages =~= queue);
    } else {
        let earlier = messages.drop_last();
        lemma_enqueued_all_keeps_newest(queue, earlier, capacity);
        assert((queue + earlier).push(messages.last()) =~= queue + messages);
        assert(enqueued_all(queue, messages, capacity) =~= newest(queue + messages, capacity));
    }
}

/// Publishing changes each queue by itself: after any run of publications
/// the subscribers are the same, and the queue of each is its own queue
/// offered the messages in turn, whatever the other queues hold.
pub proof fn lemma_published_all_pointwise(
    queues: Map<u64, Seq<Seq<char>>>,
    messages: Seq<Seq<char>>,
    capacity: nat,
)
    ensures
        published_all(queues, messages, capacity).dom() == queues.dom(),
        forall|id: u64| #[trigger]
            queues.contains_key(id) ==> published_all(queues, messages, capacity)[id]
                == enqueued_all(queues[id], messages, capacity),
    decreases messages.len(),
{
    if messages.len() > 0 {
        lemma_published_all_pointwise(queues, messages.drop_last(), capacity);
    }
    assert(published_all(queues, messages, capacity).dom() =~= queues.dom());
}

/// Fan-out. One publication reaches every subscriber: each queue ends with
/// the message, and a queue that was not full holds all it held before,
/// followed by the message.
pub proof fn lemma_fan_out(
    queues: Map<u64, Seq<Seq<char>>>,
    message: Seq<char>,
    capacity: nat,
    id: u64,
)
    requires
        queues.contains_key(id),
    ensures
        published(queues, message, capacity).contains_key(id),
        published(queues, message, capacity)[id].last() == message,
        queues[id].len() < capacity ==> published(queues, message, capacity)[id] == queues[id].push(
            message,
        ),
{
}

/// No replay. A subscriber that joins after some messages were published,
/// under an identifier that was not in use, holds none of them: its queue
/// holds the newest of what was published after it joined, and nothing else.
pub proof fn lemma_late_joiner(
    queues: Map<u64, Seq<Seq<char>>>,
    earlier: Seq<Seq<char>>,
    later: Seq<Seq<char>>,
    capacity: nat,
    id: u64,
)
    requires
        capacity >= 1,
        !queues.contains_key(id),
    ensures
        !published_all(queues, earlier, capacity).contains_key(id),
        published_all(joined(published_all(queues, earlier, capacity), id), later, capacity)[id]
            == newest(later, capacity),
{
    let before = published_all(queues, earlier, capacity);
    lemma_published_all_pointwise(queues, earlier, capacity);
    assert(!before.contains_key(id));
    let after = joined(before, id);
    assert(after.contains_key(id));
    lemma_published_all_pointwise(after, later, capacity);
    lemma_enqueued_all_keeps_newest(Seq::empty(), later, capacity);
    assert(Seq::<Seq<char>>::empty() + later =~= later);
}

/// Isolation. What one subscriber receives does not depend on any other: in
/// two hubs that agree on the queue of `id`, the same publications leave the
/// same queue for `id`, however full or unread the other queues are; and that
/// queue never exceeds the capacity.
pub proof fn lemma_isolation(
    queues: Map<u64, Seq<Seq<char>>>,
    others: Map<u64, Seq<Seq<char>>>,
    messages: Seq<Seq<char>>,
    capacity: nat,
    id: u64,
)
    requires
        capacity >= 1,
        queues.contains_key(id),
        others.contains_key(id),
        queues[id] == others[id],
        queues[id].len() <= capacity,
    ensures
        published_all(queues, messages, capacity)[id] == published_all(others, messages, capacity)[id],
        published_all(queues, messages, capacity)[id] == newest(queues[id] + messages, capacity),
        published_all(queues, messages, capacity)[id].len() <= capacity,
{
    lemma_published_all_pointwise(queues, messages, capacity);
    lemma_published_all_pointwise(others, messages, capacity);
    lemma_enqueued_all_keeps_newest(queues[id], messages, capacity);
}

struct Subscription {
    id: u64,
    queue: VecDeque<String>,
}

/// The hub. Its view maps each live subscriber to the texts that wait in its
/// queue, oldest first.
pub struct Hub {
    capacity: usize,
    issued: u64,
    subscriptions: Vec<Subscription>,
}

impl View for Hub {
    type V = Map<u64, Seq<Seq<char>>>;

    closed spec fn view(&self) -> Map<u64, Seq<Seq<char>>> {
        Map::new(
            |id: u64| self.holds(id),
            |id: u64| texts(self.subscriptions@[self.slot_of(id)].queue@),
        )
    }
}

impl Hub {
    spec fn holds(&self, id: u64) -> bool {
        exists|i: int| 0 <= i < self.subscriptions@.len() && self.subscriptions@[i].id == id
    }

    spec fn slot_of(&self, id: u64) -> int {
        choose|i: int| 0 <= i < self.subscriptions@.len() && self.subscriptions@[i].id == id
    }

    /// The hub's invariant: a capacity of at least one, no queue longer than
    /// it, and no identifier handed out twice.
    pub closed spec fn wf(&self) -> bool {
        &&& self.capacity >= 1
        &&& forall|i: int|
            0 <= i < self.subscriptions@.len() ==> {
                &&& (#[trigger] self.subscriptions@[i]).id < self.issued
                &&& self.subscriptions@[i].queue@.len() <= self.capacity
            }
        &&& forall|i: int, j: int|
            0 <= i < j < self.subscriptions@.len() ==> (#[trigger] self.subscriptions@[i]).id != (
            #[trigger] self.subscriptions@[j]).id
    }

    /// The bound on every queue.
    pub closed spec fn spec_capacity(&self) -> nat {
        self.capacity as nat
    }

    /// How many identifiers have been handed out; the next one is this number.
    pub closed spec fn spec_issued(&self) -> nat {
        self.issued as nat
    }

    proof fn lemma_slot(&self, i: int)
        requires
            self.wf(),
            0 <= i < self.subscriptions@.len(),
        ensures
            self.holds(self.subscriptions@[i].id),
            self.slot_of(self.subscriptions@[i].id) == i,
            self@.contains_key(self.subscriptions@[i].id),
            self@[self.subscriptions@[i].id] == texts(self.subscriptions@[i].queue@),
    {
        let id = self.subscriptions@[i].id;
        let j = self.slot_of(id);
        assert(self.subscriptions@[j].id == id);
        if j < i {
            assert(self.subscriptions@[j].id != self.subscriptions@[i].id);
        }
        if i < j {
            assert(self.subscriptions@[i].id != self.subscriptions@[j].id);
        }
    }

    /// No queue of a well-formed hub is longer than the capacity, and no
    /// subscriber has an identifier that is yet to be handed out.
    pub proof fn lemma_bounded(&self, id: u64)
        requires
            self.wf(),
            self@.contains_key(id),
        ensures
            self@[id].len() <= self.spec_capacity(),
            self.spec_capacity() >= 1,
            id < self.spec_issued(),
    {
        let i = self.slot_of(id);
        self.lemma_slot(i);
    }

    /// A hub with no subscriber, whose queues will hold up to `capacity`
    /// messages each.
    pub fn new(capacity: usize) -> (hub: Hub)
        requires
            capacity >= 1,
        ensures
            hub.wf(),
            hub.spec_capacity() == capacity,
            hub.spec_issued() == 0,
            hub@ == Map::<u64, Seq<Seq<char>>>::empty(),
    {
        let hub = Hub { capacity, issued: 0, subscriptions: Vec::new() };
        assert(hub@ =~= Map::<u64, Seq<Seq<char>>>::empty());
        hub
    }

    /// The bound on every queue.
    pub fn capacity(&self) -> (capacity: usize)
        ensures
            capacity == self.spec_capacity(),
    {
        self.capacity
    }

    fn find(&self, id: u64) -> (slot: Option<usize>)
        requires
            self.wf(),
        ensures
            match slot {
                Some(i) => i < self.subscriptions@.len() && self.subscriptions@[i as int].id == id
                    && self@.contains_key(id) && self@[id] == texts(
                    self.subscriptions@[i as int].queue@,
                ),
                None => !self@.contains_key(id),
            },
    {
        let mut i: usize = 0;
        while i < self.subscriptions.len()
            invariant
                self.wf(),
                i <= self.subscriptions@.len(),
                forall|k: int| 0 <= k < i ==> self.subscriptions@[k].id != id,
            decreases self.subscriptions@.len() - i,
        {
            if self.subscriptions[i].id == id {
                proof {
                    self.lemma_slot(i as int);
                }
                return Some(i);
            }
            i += 1;
        }
        None
    }

    /// Adds a subscriber with an empty queue and returns its identifier: the
    /// number of identifiers handed out before. It sees only what is published
    /// from now on. Returns `None`, and changes nothing, once every identifier
    /// has been handed out.
    pub fn subscribe(&mut self) -> (id: Option<u64>)
        requires
            old(self).wf(),
        ensures
            final(self).wf(),
            final(self).spec_capacity() == old(self).spec_capacity(),
            match id {
                Some(id) => {
                    &&& old(self).spec_issued() < u64::MAX
                    &&& id == old(self).spec_issued()
                    &&& final(self).spec_issued() == old(self).spec_issued() + 1
                    &&& !old(self)@.contains_key(id)
                    &&& final(self)@ == old(self)@.insert(id, Seq::<Seq<char>>::empty())
                },
                None => {
                    &&& old(self).spec_issued() == u64::MAX
                    &&& final(self).spec_issued() == old(self).spec_issued()
                    &&& final(self)@ == old(self)@
                },
            },
    {
        if self.issued == u64::MAX {
            return None;
        }
        let id = self.issued;
        let ghost before = *self;
        self.issued = id + 1;
        self.subscriptions.push(Subscription { id, queue: VecDeque::new() });
        proof {
            let count = before.subscriptions@.len() as int;
            assert(self.subscriptions@[count].queue@ =~= Seq::<String>::empty());
            assert(forall|i: int| 0 <= i < count ==> self.subscriptions@[i] == before.subscriptions@[i]);
            assert(self.wf());
            assert(!before@.contains_key(id)) by {
                if before.holds(id) {
                    let i = before.slot_of(id);
                    assert(before.subscriptions@[i].id < before.issued);
                }
            }
            assert forall|other: u64| self@.contains_key(other) <==> (other == id
                || before@.contains_key(other)) by {
                if before.holds(other) {
                    let i = before.slot_of(other);
                    assert(self.subscriptions@[i].id == other);
                }
                if other == id {
                    assert(self.subscriptions@[count].id == id);
                }
            }
            assert forall|other: u64| self@.contains_key(other) implies #[trigger] self@[other]
                == before@.insert(id, Seq::<Seq<char>>::empty())[other] by {
                let i = self.slot_of(other);
                self.lemma_slot(i);
                if i < count {
                    before.lemma_slot(i);
                } else {
                    assert(texts(self.subscriptions@[i].queue@) =~= Seq::<Seq<char>>::empty());
                }
            }
            assert(self@ =~= before@.insert(id, Seq::<Seq<char>>::empty()));
        }
        Some(id)
    }

    /// Removes the subscriber `id` and its queue. Returns whether there was
    /// one; no other subscriber is affected.
    pub fn unsubscribe(&mut self, id: u64) -> (removed: bool)
        requires
            old(self).wf(),
        ensures
            final(self).wf(),
            final(self).spec_capacity() == old(self).spec_capacity(),
            final(self).spec_issued() == old(self).spec_issued(),
            removed == old(self)@.contains_key(id),
            final(self)@ == old(self)@.remove(id),
    {
        let ghost before = *self;
        match self.find(id) {
            None => {
                assert(self@ =~= before@.remove(id));
                false
            },
            Some(slot) => {
                self.subscriptions.remove(slot);
                proof {
                    let gone = slot as int;
                    assert(forall|i: int| 0 <= i < gone ==> self.subscriptions@[i] == before.subscriptions@[i]);
                    assert(forall|i: int| gone <= i < self.subscriptions@.len() ==> self.subscriptions@[i]
                            == before.subscriptions@[i + 1]);
                    assert(self.wf());
                    assert forall|other: u64| self@.contains_key(other) <==> (other != id
                        && before@.contains_key(other)) by {
                        if self.holds(other) {
                            let i = self.slot_of(other);
                            let j = if i < gone { i } else { i + 1 };
                            assert(before.subscriptions@[j].id == other);
                            before.lemma_slot(gone);
                            before.lemma_slot(j);
                        }
                        if other != id && before.holds(other) {
                            let j = before.slot_of(other);
                            let i = if j < gone { j } else { j - 1 };
                            assert(self.subscriptions@[i].id == other);
                        }
                    }
                    assert forall|other: u64| self@.contains_key(other) implies #[trigger] self@[other]
                        == before@[other] by {
                        let i = self.slot_of(other);
                        let j = if i < gone { i } else { i + 1 };
                        self.lemma_slot(i);
                        before.lemma_slot(j);
                    }
                    assert(self@ =~= before@.remove(id));
                }
                true
            },
        }
    }
    /// Takes the oldest message that waits for the subscriber `id`. Returns
    /// `None`, and changes nothing, where none waits or `id` is no
    /// subscriber. No other queue is affected.
    pub fn poll(&mut self, id: u64) -> (message: Option<String>)
        requires
            old(self).wf(),
        ensures
            final(self).wf(),
            final(self).spec_capacity() == old(self).spec_capacity(),
            final(self).spec_issued() == old(self).spec_issued(),
            match message {
                Some(message) => {
                    &&& old(self)@.contains_key(id)
                    &&& old(self)@[id].len() > 0
                    &&& message@ == old(self)@[id][0]
                    &&& final(self)@ == old(self)@.insert(id, old(self)@[id].drop_first())
                },
                None => {
                    &&& old(self)@.contains_key(id) ==> old(self)@[id].len() == 0
                    &&& final(self)@ == old(self)@
                },
            },
    {
        let ghost before = *self;
        match self.find(id) {
            None => None,
            Some(slot) => {
                let message = self.subscriptions[slot].queue.pop_front();
                proof {
                    let at = slot as int;
                    before.lemma_slot(at);
                    assert(forall|i: int|
                        0 <= i < self.subscriptions@.len() && i != at ==> self.subscriptions@[i]
                            == before.subscriptions@[i]);
                    assert(self.subscriptions@[at].id == id);
                    assert(self.wf());
                    assert forall|other: u64| self@.contains_key(other) <==> before@.contains_key(
                        other,
                    ) by {
                        if self.holds(other) {
                            let i = self.slot_of(other);
                            assert(before.subscriptions@[i].id == other);
                        }
                        if before.holds(other) {
                            let i = before.slot_of(other);
                            assert(self.subscriptions@[i].id == other);
                        }
                    }
                    self.lemma_slot(at);
                    if message.is_some() {
                        assert(texts(self.subscriptions@[at].queue@) =~= texts(
                            before.subscriptions@[at].queue@,
                        ).drop_first());
                        assert forall|other: u64| self@.contains_key(other) implies #[trigger] self@[other]
                            == before@.insert(id, before@[id].drop_first())[other] by {
                            let i = self.slot_of(other);
                            self.lemma_slot(i);
                            before.lemma_slot(i);
                        }
                        assert(self@ =~= before@.insert(id, before@[id].drop_first()));
                    } else {
                        assert forall|other: u64| self@.contains_key(other) implies #[trigger] self@[other]
                            == before@[other] by {
                            let i = self.slot_of(other);
                            self.lemma_slot(i);
                            before.lemma_slot(i);
                        }
                        assert(self@ =~= before@);
                    }
                }
                message
            },
        }
    }

    /// Publishes `message` to every subscriber: each queue becomes what
    /// `enqueued` says, so a full queue loses its oldest message and every
    /// other queue loses nothing. The set of subscribers does not change.
    pub fn publish(&mut self, message: &str)
        requires
            old(self).wf(),
        ensures
            final(self).wf(),
            final(self).spec_capacity() == old(self).spec_capacity(),
            final(self).spec_issued() == old(self).spec_issued(),
            final(self)@ == published(old(self)@, message@, old(self).spec_capacity()),
    {
        let ghost before = *self;
        let capacity = self.capacity;
        let count = self.subscriptions.len();
        let mut i: usize = 0;
        while i < count
            invariant
                before.wf(),
                self.wf(),
                i <= count,
                count == before.subscriptions@.len(),
                count == self.subscriptions@.len(),
                capacity == before.capacity,
                self.capacity == before.capacity,
                self.issued == before.issued,
                forall|k: int| 0 <= k < count ==> self.subscriptions@[k].id == before.subscriptions@[k].id,
                forall|k: int|
                    0 <= k < i ==> texts(self.subscriptions@[k].queue@) == enqueued(
                        texts(before.subscriptions@[k].queue@),
                        message@,
                        capacity as nat,
                    ),
                forall|k: int| i <= k < count ==> self.subscriptions@[k] == before.subscriptions@[k],
            decreases count - i,
        {
            let ghost entering = *self;
            let ghost waiting = self.subscriptions@[i as int].queue@;
            if self.subscriptions[i].queue.len() >= capacity {
                self.subscriptions[i].queue.pop_front();
            }
            self.subscriptions[i].queue.push_back(message.to_owned());
            proof {
                let at = i as int;
                assert(forall|k: int|
                    0 <= k < count && k != at ==> self.subscriptions@[k] == entering.subscriptions@[k]);
                assert(self.subscriptions@[at].id == entering.subscriptions@[at].id);
                assert(texts(self.subscriptions@[at].queue@) =~= enqueued(
                    texts(waiting),
                    message@,
                    capacity as nat,
                ));
            }
            i += 1;
        }
        proof {
            let after = published(before@, message@, before.spec_capacity());
            assert forall|id: u64| self@.contains_key(id) <==> before@.contains_key(id) by {
                if self.holds(id) {
                    let k = self.slot_of(id);
                    assert(before.subscriptions@[k].id == id);
                }
                if before.holds(id) {
                    let k = before.slot_of(id);
                    assert(self.subscriptions@[k].id == id);
                }
            }
            assert forall|id: u64| self@.contains_key(id) implies #[trigger] self@[id]
                == after[id] by {
                let k = self.slot_of(id);
                self.lemma_slot(k);
                before.lemma_slot(k);
            }
            assert(self@ =~= after);
        }
    }
    /// Publishes a snapshot that was encoded for the wire, or drops it where
    /// the encoding failed: a frame that could not be encoded reaches no
    /// subscriber and changes nothing. Returns whether it was published.
    pub fn publish_encoded(&mut self, frame: Option<String>) -> (accepted: bool)
        requires
            old(self).wf(),
        ensures
            final(self).wf(),
            final(self).spec_capacity() == old(self).spec_capacity(),
            final(self).spec_issued() == old(self).spec_issued(),
            accepted == frame.is_some(),
            final(self)@ == match frame {
                Some(frame) => published(old(self)@, frame@, old(self).spec_capacity()),
                None => old(self)@,
            },
    {
        match frame {
            Some(frame) => {
                self.publish(frame.as_str());
                true
            },
            None => false,
        }
    }
}

} // verus!
