//! A group of phones that are called together.

use crate::operation::CallCenter;
use crate::phone::Phone;
use crate::queue::answers_closed;
use vstd::prelude::*;

verus! {

/// The members that stay after a sweep: all but those whose mark in
/// `alive`, the mark at the member's own position, is false. The members
/// that stay keep their order.
pub open spec fn survivors<T>(members: Seq<T>, alive: Seq<bool>) -> Seq<T>
    decreases members.len(),
{
    if members.len() == 0 {
        Seq::empty()
    } else {
        let earlier = survivors(members.drop_last(), alive);
        let at = members.len() - 1;
        if at < alive.len() && !alive[at] {
            earlier
        } else {
            earlier.push(members.last())
        }
    }
}

/// The replies among the outcomes of the calls to a group's members:
/// the values of those that succeeded, in the members' order.
pub open spec fn replies<R, E>(outcomes: Seq<Result<R, E>>) -> Seq<R> {
    outcomes.filter_map(
        |outcome: Result<R, E>|
            match outcome {
                Ok(reply) => Some(reply),
                Err(_) => None,
            },
    )
}

/// Whether `alive` is what a sweep can find out about `members`: one mark
/// per member, each the opposite of what the member's sending end
/// answered when asked whether its queue is closed.
pub open spec fn found_alive<Cc: CallCenter>(members: Seq<Phone<Cc>>, alive: Seq<bool>) -> bool {
    &&& alive.len() == members.len()
    &&& forall|i: int|
        0 <= i < members.len() ==> answers_closed(members[i].line(), !#[trigger] alive[i])
}

/// How many of `marks` are true.
pub open spec fn count_marked(marks: Seq<bool>) -> nat {
    marks.filter(|mark: bool| mark).len()
}

/// A group of phones, in the order in which they were attached. A call to
/// the group goes to every member; the members whose call fails are left
/// out of the result.
pub struct Broadcast<Cc: CallCenter> {
    phones: Vec<Phone<Cc>>,
}

impl<Cc: CallCenter> View for Broadcast<Cc> {
    type V = Seq<Phone<Cc>>;

    closed spec fn view(&self) -> Seq<Phone<Cc>> {
        self.phones@
    }
}

impl<Cc: CallCenter> Broadcast<Cc> {
    /// A group without members.
    pub fn new() -> (group: Self)
        ensures
            group@ == Seq::<Phone<Cc>>::empty(),
    {
        Broadcast { phones: Vec::new() }
    }

    /// Whether the group has no members.
    pub fn is_empty(&self) -> (empty: bool)
        ensures
            empty == (self@.len() == 0),
    {
        self.phones.len() == 0
    }

    /// The members, for the caller to place a call on each.
    pub fn phones(&self) -> (phones: &Vec<Phone<Cc>>)
        ensures
            phones@ == self@,
    {
        &self.phones
    }

    /// Asks every member whether its center is still there.
    fn liveness(&self) -> (alive: Vec<bool>)
        ensures
            found_alive(self@, alive@),
    {
        let mut alive: Vec<bool> = Vec::new();
        let mut i: usize = 0;
        while i < self.phones.len()
            invariant
                i <= self.phones@.len(),
                found_alive(self.phones@.take(i as int), alive@),
            decreases self.phones@.len() - i,
        {
            alive.push(self.phones[i].is_alive());
            i += 1;
        }
        alive
    }

    /// The sweep itself, given what was found out about each member: drops
    /// the members marked as not alive and keeps the others in their order.
    /// A member that `alive` has no mark for stays.
    pub fn retain_marked(&mut self, alive: &Vec<bool>)
        ensures
            final(self)@ == survivors(old(self)@, alive@),
    {
        let ghost members = self.phones@;
        let total: usize = self.phones.len();
        let mut rest: Vec<Phone<Cc>> = Vec::new();
        std::mem::swap(&mut self.phones, &mut rest);
        let mut kept: Vec<Phone<Cc>> = Vec::new();
        let mut i: usize = 0;
        for phone in it: rest
            invariant
                i == it.index(),
                it.seq() == members,
                members.len() == total,
                kept@ == survivors(members.take(i as int), alive@),
        {
            proof {
                lemma_survivors_take_succ(members, alive@, i as int);
            }
            let gone = i < alive.len() && !alive[i];
            if !gone {
                kept.push(phone);
            }
            i += 1;
        }
        assert(members.take(i as int) == members);
        self.phones = kept;
    }

    /// Drops the members whose center is gone.
    fn clear_dead_phones(&mut self)
        ensures
            exists|alive: Seq<bool>|
                found_alive(old(self)@, alive) && final(self)@ == survivors(old(self)@, alive),
    {
        let alive = self.liveness();
        self.retain_marked(&alive);
    }

    /// Adds `phone` to the group, then drops every member whose center is
    /// gone, the new one included. Which members that are is found out
    /// while sweeping, by asking each member's sending end; the members
    /// that stay keep their order.
    pub fn attach_phone(&mut self, phone: Phone<Cc>)
        ensures
            exists|alive: Seq<bool>|
                found_alive(old(self)@.push(phone), alive) && final(self)@ == survivors(
                    old(self)@.push(phone),
                    alive,
                ),
            final(self)@.len() <= old(self)@.len() + 1,
    {
        self.phones.push(phone);
        let ghost attached = self.phones@;
        self.clear_dead_phones();
        proof {
            let alive = choose|alive: Seq<bool>|
                found_alive(attached, alive) && self@ == survivors(attached, alive);
            lemma_survivors_count(attached, alive);
            assert(attached == old(self)@.push(phone));
            assert(found_alive(old(self)@.push(phone), alive) && self@ == survivors(
                old(self)@.push(phone),
                alive,
            ));
        }
    }
}

impl<Cc: CallCenter> Default for Broadcast<Cc> {
    fn default() -> (group: Self)
        ensures
            group@ == Seq::<Phone<Cc>>::empty(),
    {
        Broadcast::new()
    }
}

/// Collects the replies of a call to a group from the outcomes of the
/// calls to its members: the members whose call failed are left out.
pub fn collect_replies<R, E>(outcomes: Vec<Result<R, E>>) -> (collected: Vec<R>)
    ensures
        collected@ == replies(outcomes@),
{
    let ghost all = outcomes@;
    let mut collected: Vec<R> = Vec::new();
    for outcome in it: outcomes
        invariant
            it.seq() == all,
            collected@ == replies(all.take(it.index() as int)),
    {
        proof {
            lemma_replies_take_succ(all, it.index() as int);
        }
        match outcome {
            Ok(reply) => {
                collected.push(reply);
            },
            Err(_) => {},
        }
    }
    assert(all.take(all.len() as int) == all);
    collected
}

/// A sweep with one mark per member keeps as many members as are marked
/// alive, and so never more than there were.
pub proof fn lemma_survivors_count<T>(members: Seq<T>, alive: Seq<bool>)
    requires
        alive.len() == members.len(),
    ensures
        survivors(members, alive).len() == count_marked(alive),
        survivors(members, alive).len() <= members.len(),
{
    lemma_survivors_count_of_prefix(members, alive);
    assert(alive.take(members.len() as int) == alive);
}

/// A sweep during which every center is there keeps the whole group.
pub proof fn lemma_survivors_all_alive<T>(members: Seq<T>, alive: Seq<bool>)
    requires
        forall|i: int| 0 <= i < members.len() && i < alive.len() ==> alive[i],
    ensures
        survivors(members, alive) == members,
    decreases members.len(),
{
    if members.len() > 0 {
        lemma_survivors_all_alive(members.drop_last(), alive);
        assert(members.drop_last().push(members.last()) =~= members);
    } else {
        assert(survivors(members, alive) =~= members);
    }
}

/// Every member that a sweep keeps was a member before, and was not
/// marked as gone.
pub proof fn lemma_survivors_were_alive<T>(members: Seq<T>, alive: Seq<bool>, k: int)
    requires
        0 <= k < survivors(members, alive).len(),
    ensures
        exists|i: int|
            0 <= i < members.len() && (i < alive.len() ==> alive[i]) && #[trigger] members[i]
                == survivors(members, alive)[k],
    decreases members.len(),
{
    let earlier = survivors(members.drop_last(), alive);
    if k < earlier.len() {
        lemma_survivors_were_alive(members.drop_last(), alive, k);
        let i = choose|i: int|
            0 <= i < members.drop_last().len() && (i < alive.len() ==> alive[i])
                && #[trigger] members.drop_last()[i] == earlier[k];
        assert(members[i] == survivors(members, alive)[k]);
    } else {
        assert(members[members.len() - 1] == survivors(members, alive)[k]);
    }
}

/// A call to a group returns one reply for each member whose call
/// succeeded. When the calls to some members are bound to fail, because
/// their centers are gone, the group call still returns: with at most one
/// reply for each of the other members, and with exactly that many when
/// the calls to all of those succeed.
pub proof fn lemma_replies_of_partly_dead_group<R, E>(
    outcomes: Seq<Result<R, E>>,
    dead: Seq<bool>,
)
    requires
        dead.len() == outcomes.len(),
        forall|i: int| 0 <= i < dead.len() && dead[i] ==> outcomes[i] is Err,
    ensures
        replies(outcomes).len() + count_marked(dead) <= outcomes.len(),
        (forall|i: int| 0 <= i < dead.len() && !dead[i] ==> outcomes[i] is Ok) ==> replies(
            outcomes,
        ).len() + count_marked(dead) == outcomes.len(),
    decreases outcomes.len(),
{
    reveal(Seq::filter);
    if outcomes.len() > 0 {
        lemma_replies_of_partly_dead_group(outcomes.drop_last(), dead.drop_last());
    }
}

/// A call to a group without members returns no reply.
pub proof fn lemma_replies_of_empty_group<R, E>()
    ensures
        replies(Seq::<Result<R, E>>::empty()) == Seq::<R>::empty(),
{
}

/// Sweeping one member more keeps what was kept and adds that member
/// unless it is marked as gone.
proof fn lemma_survivors_take_succ<T>(members: Seq<T>, alive: Seq<bool>, i: int)
    requires
        0 <= i < members.len(),
    ensures
        survivors(members.take(i + 1), alive) == if i < alive.len() && !alive[i] {
            survivors(members.take(i), alive)
        } else {
            survivors(members.take(i), alive).push(members[i])
        },
{
    assert(members.take(i + 1).drop_last() =~= members.take(i));
    assert(members.take(i + 1).last() == members[i]);
}

/// A sweep of no more members than there are marks keeps as many of them
/// as their marks say.
proof fn lemma_survivors_count_of_prefix<T>(members: Seq<T>, alive: Seq<bool>)
    requires
        members.len() <= alive.len(),
    ensures
        survivors(members, alive).len() == count_marked(alive.take(members.len() as int)),
        survivors(members, alive).len() <= members.len(),
    decreases members.len(),
{
    reveal(Seq::filter);
    if members.len() > 0 {
        let marks = alive.take(members.len() as int);
        assert(marks.drop_last() =~= alive.take(members.len() - 1));
        assert(marks.last() == alive[members.len() - 1]);
        lemma_survivors_count_of_prefix(members.drop_last(), alive);
    }
}

/// One outcome more adds its reply, if it has one, to the replies so far.
proof fn lemma_replies_take_succ<R, E>(outcomes: Seq<Result<R, E>>, i: int)
    requires
        0 <= i < outcomes.len(),
    ensures
        replies(outcomes.take(i + 1)) == match outcomes[i] {
            Ok(reply) => replies(outcomes.take(i)).push(reply),
            Err(_) => replies(outcomes.take(i)),
        },
{
    assert(outcomes.take(i + 1).drop_last() =~= outcomes.take(i));
    assert(outcomes.take(i + 1).last() == outcomes[i]);
    match outcomes[i] {
        Ok(reply) => {
            assert(replies(outcomes.take(i)) + seq![reply] =~= replies(outcomes.take(i)).push(
                reply,
            ));
        },
        Err(_) => {},
    }
}

} // verus!
