//! Groups of phones by topic.

use crate::broadcast::{
    found_alive, lemma_replies_of_empty_group, replies, survivors, Broadcast,
};
use crate::operation::CallCenter;
use crate::phone::Phone;
use std::collections::HashMap;
use std::hash::Hash;
use vstd::prelude::*;
use vstd::std_specs::hash::obeys_key_model;

verus! {

broadcast use vstd::std_specs::hash::group_hash_axioms;

/// A registry of groups, one per topic. A topic comes into being with the
/// first phone attached to it and is never removed, even when its group
/// has become empty.
///
/// The registry is a plain value: whoever shares it between tasks guards
/// it with a lock, attaches under exclusive access and calls under shared
/// access.
///
/// What the contracts say of the topics holds for key types whose hashing
/// and equality agree with each other, `obeys_key_model` in vstd's terms.
pub struct BroadcastCenter<Cc: CallCenter, Top: PartialEq + Clone + Hash + Eq> {
    broadcasts: HashMap<Top, Broadcast<Cc>>,
}

impl<Cc: CallCenter, Top: PartialEq + Clone + Hash + Eq> View for BroadcastCenter<Cc, Top> {
    type V = Map<Top, Seq<Phone<Cc>>>;

    closed spec fn view(&self) -> Map<Top, Seq<Phone<Cc>>> {
        self.broadcasts@.map_values(|group: Broadcast<Cc>| group@)
    }
}

impl<Cc: CallCenter, Top: PartialEq + Clone + Hash + Eq> BroadcastCenter<Cc, Top> {
    /// The phones attached to `topic`: none for a topic that nothing was
    /// ever attached to.
    pub open spec fn attached(&self, topic: Top) -> Seq<Phone<Cc>> {
        if self@.contains_key(topic) {
            self@[topic]
        } else {
            Seq::empty()
        }
    }

    /// A registry without topics.
    pub fn new() -> (center: Self)
        ensures
            center@ == Map::<Top, Seq<Phone<Cc>>>::empty(),
    {
        let center = BroadcastCenter { broadcasts: HashMap::new() };
        assert(center@ =~= Map::<Top, Seq<Phone<Cc>>>::empty());
        center
    }

    /// Attaches `phone` to `topic`, creating the topic if it is new, and
    /// sweeps the topic's group as `Broadcast::attach_phone` does. The
    /// other topics stay as they are.
    pub fn attach_to_broadcast(&mut self, topic: Top, phone: Phone<Cc>)
        ensures
            obeys_key_model::<Top>() ==> exists|alive: Seq<bool>|
                found_alive(old(self).attached(topic).push(phone), alive) && final(self)@ == old(
                    self,
                )@.insert(topic, survivors(old(self).attached(topic).push(phone), alive)),
            obeys_key_model::<Top>() ==> final(self)@.dom() == old(self)@.dom().insert(topic),
            obeys_key_model::<Top>() ==> final(self).attached(topic).len() <= old(self).attached(
                topic,
            ).len() + 1,
    {
        let ghost before = self.attached(topic);
        let for_topic = self.broadcasts.entry(topic).or_insert(Broadcast::new());
        for_topic.attach_phone(phone);
        proof {
            if obeys_key_model::<Top>() {
                let attached = before.push(phone);
                let alive = choose|alive: Seq<bool>|
                    found_alive(attached, alive) && self.attached(topic) == survivors(
                        attached,
                        alive,
                    );
                assert(found_alive(attached, alive) && self@ == old(self)@.insert(
                    topic,
                    survivors(attached, alive),
                ));
            }
        }
    }

    /// The phones that a call on `topic` goes to: the members of the
    /// topic's group, and none for an unknown topic.
    pub fn listeners(&self, topic: &Top) -> (phones: &[Phone<Cc>])
        ensures
            obeys_key_model::<Top>() ==> phones@ == self.attached(*topic),
    {
        match self.broadcasts.get(topic) {
            Some(for_topic) => for_topic.phones().as_slice(),
            None => &[],
        }
    }
}

/// A call on a topic that nothing was ever attached to returns no reply:
/// it has no listener, so there is no outcome to take a reply from.
pub proof fn lemma_unknown_topic_yields_nothing<Cc, Top, R, E>(
    center: BroadcastCenter<Cc, Top>,
    topic: Top,
    outcomes: Seq<Result<R, E>>,
)
    where Cc: CallCenter, Top: PartialEq + Clone + Hash + Eq
    requires
        !center@.contains_key(topic),
        outcomes.len() == center.attached(topic).len(),
    ensures
        center.attached(topic) == Seq::<Phone<Cc>>::empty(),
        replies(outcomes) == Seq::<R>::empty(),
{
    assert(outcomes =~= Seq::<Result<R, E>>::empty());
    lemma_replies_of_empty_group::<R, E>();
}

impl<Cc: CallCenter, Top: PartialEq + Clone + Hash + Eq> Default for BroadcastCenter<Cc, Top> {
    fn default() -> (center: Self)
        ensures
            center@ == Map::<Top, Seq<Phone<Cc>>>::empty(),
    {
        BroadcastCenter::new()
    }
}

} // verus!
