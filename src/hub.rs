use std::collections::HashMap;
use tokio::sync::mpsc::{Receiver, Sender};
use vstd::prelude::*;
use vstd::std_specs::hash::spec_keys_iter;
use vstd::std_specs::iter::IteratorSpec;
use crate::channel::{channel_bound, clone_sender, open_channel, receiver_channel, sender_channel};
use crate::ids::{get_id, IdCounter};
use crate::message::Message;

verus! {

broadcast use vstd::std_specs::hash::group_hash_axioms;

/// The number of messages that a subscriber's channel holds in flight.
pub const CHANNEL_CAPACITY: usize = 1;

/// What the hub is, abstractly: the identity that the next subscriber gets,
/// and for each registered subscriber the channel its sending end feeds.
pub ghost struct HubModel {
    pub next_id: nat,
    pub channels: Map<usize, nat>,
}

impl HubModel {
    /// Every registered identity was handed out before, and identities start at 1.
    pub open spec fn wf(self) -> bool {
        &&& 1 <= self.next_id
        &&& self.channels.dom().finite()
        &&& forall|id: usize| #[trigger] self.channels.contains_key(id) ==> 1 <= id < self.next_id
    }

    /// The identities of the registered subscribers.
    pub open spec fn registered(self) -> Set<usize> {
        self.channels.dom()
    }

    /// The hub after a subscriber registers on channel `chan`: it gets `next_id`.
    pub open spec fn subscribe(self, chan: nat) -> HubModel {
        HubModel { next_id: self.next_id + 1, channels: self.channels.insert(self.next_id as usize, chan) }
    }

    /// The hub after `id` is removed; nothing changes when `id` is absent.
    pub open spec fn unsubscribe(self, id: usize) -> HubModel {
        HubModel { next_id: self.next_id, channels: self.channels.remove(id) }
    }

    /// The hub after the subscribers in `failed` are evicted.
    pub open spec fn evict(self, failed: Set<usize>) -> HubModel {
        HubModel { next_id: self.next_id, channels: self.channels.remove_keys(failed) }
    }
}

/// One delivery that a publish asks for: `msg` is to be sent on `sender`, the
/// channel of subscriber `id`.
pub struct Delivery {
    pub id: usize,
    pub sender: Sender<Message>,
    pub msg: Message,
}

/// The identities that a publish's deliveries go to, in order.
pub open spec fn delivery_ids(plan: Seq<Delivery>) -> Seq<usize> {
    plan.map_values(|d: Delivery| d.id)
}

/// `plan` fans `text` out over `m`: one delivery to each registered
/// subscriber and to no one else, each on that subscriber's own channel and
/// carrying `text`.
pub open spec fn fans_out(m: HubModel, text: Seq<char>, plan: Seq<Delivery>) -> bool {
    &&& delivery_ids(plan).no_duplicates()
    &&& delivery_ids(plan).to_set() == m.registered()
    &&& forall|i: int| 0 <= i < plan.len() ==> {
        &&& sender_channel((#[trigger] plan[i]).sender) == m.channels[plan[i].id]
        &&& plan[i].msg.text@ == text
    }
}

/// The broadcast hub: the registry of subscribers, each with the sending end
/// of its bounded channel, and the counter that hands out their identities.
pub struct Hub {
    senders: HashMap<usize, Sender<Message>>,
    ids: IdCounter,
}

impl View for Hub {
    type V = HubModel;

    open spec fn view(&self) -> HubModel {
        HubModel {
            next_id: self.next_id(),
            channels: Map::new(
                |id: usize| self.senders().contains_key(id),
                |id: usize| sender_channel(self.senders()[id]),
            ),
        }
    }
}

impl Hub {
    /// The sending end registered for each subscriber.
    pub closed spec fn senders(&self) -> Map<usize, Sender<Message>> {
        self.senders@
    }

    /// The identity that the next subscriber gets.
    pub closed spec fn next_id(&self) -> nat {
        self.ids.next_id()
    }

    /// Every registered identity was handed out before.
    pub open spec fn wf(&self) -> bool {
        self@.wf()
    }

    proof fn lemma_dom(&self)
        ensures
            self@.channels.dom() == self.senders().dom(),
            self.senders().dom().finite(),
    {
        assert(self@.channels.dom() =~= self.senders().dom());
    }

    /// An empty hub; the first subscriber gets identity 1.
    pub fn new() -> (r: Hub)
        ensures
            r.wf(),
            r.next_id() == 1,
            r.senders() == Map::<usize, Sender<Message>>::empty(),
    {
        let r = Hub { senders: HashMap::new(), ids: IdCounter::new() };
        proof {
            r.lemma_dom();
        }
        r
    }

    /// Whether another subscriber can still be given a fresh identity.
    pub fn can_subscribe(&self) -> (r: bool)
        ensures
            r == (self.next_id() < usize::MAX),
    {
        self.ids.has_next()
    }

    /// Registers a new subscriber: makes a channel that holds
    /// `CHANNEL_CAPACITY` messages, registers its sending end under a fresh
    /// identity, and returns that identity and the channel's receiving end.
    pub fn subscribe(&mut self) -> (r: (usize, Receiver<Message>))
        requires
            old(self).wf(),
            old(self).next_id() < usize::MAX,
        ensures
            final(self).wf(),
            r.0 == old(self).next_id(),
            !old(self).senders().contains_key(r.0),
            final(self).senders() == old(self).senders().insert(r.0, final(self).senders()[r.0]),
            sender_channel(final(self).senders()[r.0]) == receiver_channel(r.1),
            channel_bound(final(self).senders()[r.0]) == CHANNEL_CAPACITY,
            final(self)@ == old(self)@.subscribe(receiver_channel(r.1)),
    {
        proof {
            self.lemma_dom();
        }
        let (tx, rx) = open_channel(CHANNEL_CAPACITY);
        let id = get_id(&mut self.ids);
        self.senders.insert(id, tx);
        proof {
            self.lemma_dom();
            assert(self.senders() =~= old(self).senders().insert(id, self.senders()[id]));
            assert(self@.channels =~= old(self)@.subscribe(receiver_channel(rx)).channels);
        }
        (id, rx)
    }

    /// Removes subscriber `id`, if it is registered.
    pub fn unsubscribe(&mut self, id: usize)
        requires
            old(self).wf(),
        ensures
            final(self).wf(),
            final(self).next_id() == old(self).next_id(),
            final(self).senders() == old(self).senders().remove(id),
            final(self)@ == old(self)@.unsubscribe(id),
    {
        self.senders.remove(&id);
        proof {
            self.lemma_dom();
            assert(self@.channels =~= old(self)@.unsubscribe(id).channels);
        }
    }

    /// Publishes `msg`: asks for one delivery of a copy of `msg` to every
    /// registered subscriber, whoever published it, each exactly once and on
    /// its own channel. The registry is only read. The caller sends each
    /// delivery and passes the identities whose send failed to `evict`.
    pub fn publish(&self, msg: &Message) -> (r: Vec<Delivery>)
        requires
            self.wf(),
        ensures
            fans_out(self@, msg.text@, r@),
            forall|i: int| 0 <= i < r.len()
                ==> channel_bound((#[trigger] r[i]).sender) == channel_bound(self.senders()[r[i].id]),
    {
        let mut plan: Vec<Delivery> = Vec::new();
        let ghost keys = spec_keys_iter(&self.senders).remaining().unref();
        for id in it: self.senders.keys()
            invariant
                keys == it.seq().unref(),
                plan.len() == it.index(),
                forall|i: int| 0 <= i < plan.len() ==> {
                    &&& (#[trigger] plan[i]).id == *it.seq()[i]
                    &&& self.senders@.contains_key(plan[i].id)
                    &&& sender_channel(plan[i].sender) == sender_channel(self.senders@[plan[i].id])
                    &&& channel_bound(plan[i].sender) == channel_bound(self.senders@[plan[i].id])
                    &&& plan[i].msg.text@ == msg.text@
                },
        {
            match self.senders.get(id) {
                Some(tx) => {
                    plan.push(Delivery { id: *id, sender: clone_sender(tx), msg: msg.duplicate() });
                },
                None => {},
            }
        }
        proof {
            self.lemma_dom();
            assert(delivery_ids(plan@) =~= keys);
            assert(keys.to_set() =~= self.senders@.dom());
        }
        plan
    }

    /// Evicts every subscriber in `failed`, the identities whose delivery
    /// failed because the receiving end was gone. Identities that are not
    /// registered are passed over; nothing is reported back.
    pub fn evict(&mut self, failed: &Vec<usize>)
        requires
            old(self).wf(),
        ensures
            final(self).wf(),
            final(self).next_id() == old(self).next_id(),
            final(self).senders() == old(self).senders().remove_keys(failed@.to_set()),
            final(self)@ == old(self)@.evict(failed@.to_set()),
    {
        let ghost start = self.senders();
        let mut i: usize = 0;
        proof {
            assert(failed@.subrange(0, 0).to_set() =~= Set::empty());
            assert(start.remove_keys(Set::empty()) =~= start);
        }
        while i < failed.len()
            invariant
                self.wf(),
                self.next_id() == old(self).next_id(),
                i <= failed.len(),
                self.senders() == start.remove_keys(failed@.subrange(0, i as int).to_set()),
            decreases failed.len() - i,
        {
            self.unsubscribe(failed[i]);
            proof {
                let before = failed@.subrange(0, i as int);
                let after = failed@.subrange(0, i + 1);
                assert(after =~= before.push(failed@[i as int]));
                assert(after.to_set() =~= before.to_set().insert(failed@[i as int])) by {
                    assert forall|x: usize| after.contains(x) == (before.contains(x) || x == failed@[i as int]) by {
                        if before.contains(x) {
                            let j = choose|j: int| 0 <= j < before.len() && before[j] == x;
                            assert(after[j] == x);
                        }
                        if x == failed@[i as int] {
                            assert(after[i as int] == x);
                        }
                    }
                }
                assert(self.senders() =~= start.remove_keys(after.to_set()));
            }
            i = i + 1;
        }
        proof {
            assert(failed@.subrange(0, i as int) =~= failed@);
            self.lemma_dom();
            assert(self@.channels =~= old(self)@.evict(failed@.to_set()).channels);
        }
    }

    /// Whether subscriber `id` is registered.
    pub fn is_registered(&self, id: usize) -> (r: bool)
        ensures
            r == self.senders().contains_key(id),
    {
        self.senders.contains_key(&id)
    }

    /// The number of registered subscribers.
    pub fn subscriber_count(&self) -> (r: usize)
        ensures
            r == self.senders().len(),
    {
        self.senders.len()
    }

    /// The identities of the registered subscribers, each once, in no
    /// particular order.
    pub fn subscriber_ids(&self) -> (r: Vec<usize>)
        ensures
            r@.no_duplicates(),
            r@.to_set() == self.senders().dom(),
    {
        let mut ids: Vec<usize> = Vec::new();
        let ghost keys = spec_keys_iter(&self.senders).remaining().unref();
        for id in it: self.senders.keys()
            invariant
                keys == it.seq().unref(),
                ids.len() == it.index(),
                forall|i: int| 0 <= i < ids.len() ==> ids[i] == *it.seq()[i],
        {
            ids.push(*id);
        }
        assert(ids@ =~= keys);
        ids
    }
}

} // verus!
