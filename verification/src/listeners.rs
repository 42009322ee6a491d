//! The subscribers of one kind of notification: for each user that has an
//! open stream, the channel that feeds it.
//!
//! The registry does not know what a channel is. Whoever owns it says, by a
//! predicate, which channels have been closed by their readers.

use crate::proto::UserId;
use std::collections::HashMap;
use vstd::prelude::*;

verus! {

/// The channels of the subscribers, by user id. A user has at most one.
pub struct Listeners<C> {
    channels: HashMap<UserId, C>,
}

impl<C> View for Listeners<C> {
    type V = Map<UserId, C>;

    closed spec fn view(&self) -> Map<UserId, C> {
        self.channels@
    }
}

/// `after` is `before` without some of its channels: each one that is left
/// was found open by `is_closed`, each one that is gone was found closed.
pub open spec fn swept<C, F: Fn(&C) -> bool>(
    before: Map<UserId, C>,
    after: Map<UserId, C>,
    is_closed: F,
) -> bool {
    &&& forall|id: UserId| #[trigger]
        after.contains_key(id) ==> before.contains_key(id) && after[id] == before[id]
            && is_closed.ensures((&before[id],), false)
    &&& forall|id: UserId|
        before.contains_key(id) && !after.contains_key(id) ==> is_closed.ensures(
            (&#[trigger] before[id],),
            true,
        )
}

/// `copies` holds one entry for each subscriber in `channels`, with a clone
/// of its channel.
pub open spec fn is_snapshot<C: Clone>(copies: Seq<(UserId, C)>, channels: Map<UserId, C>) -> bool {
    &&& copies.len() == channels.len()
    &&& forall|i: int|
        0 <= i < copies.len() ==> channels.contains_key(#[trigger] copies[i].0) && cloned(
            channels[copies[i].0],
            copies[i].1,
        )
    &&& forall|i: int, j: int|
        0 <= i < j < copies.len() ==> (#[trigger] copies[i]).0 != (#[trigger] copies[j]).0
    &&& forall|id: UserId|
        channels.contains_key(id) ==> exists|i: int|
            0 <= i < copies.len() && (#[trigger] copies[i]).0 == id
}

impl<C> Listeners<C> {
    /// A registry without subscribers.
    pub fn new() -> (listeners: Self)
        ensures
            listeners@ == Map::<UserId, C>::empty(),
    {
        Listeners { channels: HashMap::new() }
    }

    /// How many users subscribe.
    pub fn len(&self) -> (count: usize)
        ensures
            count == self@.len(),
    {
        self.channels.len()
    }

    /// Whether `user_id` subscribes.
    pub fn contains(&self, user_id: UserId) -> (found: bool)
        ensures
            found == self@.contains_key(user_id),
    {
        self.channels.contains_key(&user_id)
    }

    /// The channel of `user_id`, if it subscribes.
    pub fn get(&self, user_id: UserId) -> (channel: Option<&C>)
        ensures
            match channel {
                Some(found) => self@.contains_key(user_id) && *found == self@[user_id],
                None => !self@.contains_key(user_id),
            },
    {
        self.channels.get(&user_id)
    }

    /// The users that subscribe, each once, in no particular order.
    pub fn subscribers(&self) -> (ids: Vec<UserId>)
        ensures
            ids@.no_duplicates(),
            ids@.to_set() == self@.dom(),
            ids@.len() == self@.len(),
    {
        let mut ids: Vec<UserId> = Vec::new();
        for id in it: self.channels.keys()
            invariant
                it.seq().no_duplicates(),
                it.seq().unref().to_set() == self.channels@.dom(),
                it.seq().len() == self.channels@.len(),
                ids@ == it.seq().unref().take(it.index()),
                it.index() == it.seq().len() ==> ids@ == it.seq().unref(),
        {
            ids.push(*id);
            assert(it.seq().unref().take(it.index() + 1) =~= it.seq().unref().take(
                it.index(),
            ).push(*id));
            assert(it.seq().unref().take(it.seq().len() as int) =~= it.seq().unref());
        }
        proof {
            assert(ids@.no_duplicates()) by {
                assert forall|i: int, j: int| 0 <= i < ids@.len() && 0 <= j < ids@.len() && i != j implies ids@[i] != ids@[j] by {
                    let whole = choose|whole: Seq<&UserId>|
                        whole.no_duplicates() && ids@ == whole.unref();
                    assert(whole[i] != whole[j]);
                }
            }
        }
        ids
    }

    /// Ends the subscription of `user_id`. Tells whether there was one.
    pub fn detach(&mut self, user_id: UserId) -> (was_subscribed: bool)
        ensures
            final(self)@ == old(self)@.remove(user_id),
            was_subscribed == old(self)@.contains_key(user_id),
    {
        self.channels.remove(&user_id).is_some()
    }

    /// Drops every subscriber whose channel `is_closed` finds closed, and
    /// tells how many were dropped.
    pub fn actualize<F: Fn(&C) -> bool>(&mut self, is_closed: F) -> (removed: usize)
        requires
            forall|channel: &C| is_closed.requires((channel,)),
        ensures
            swept(old(self)@, final(self)@, is_closed),
            removed == old(self)@.len() - final(self)@.len(),
    {
        let ids = self.subscribers();
        let ghost before = self.channels@;
        let mut removed: usize = 0;
        let mut at: usize = 0;
        while at < ids.len()
            invariant
                at <= ids.len(),
                ids@.no_duplicates(),
                ids@.to_set() == before.dom(),
                ids@.len() == before.len(),
                before.dom().finite(),
                self.channels@.dom().finite(),
                forall|channel: &C| is_closed.requires((channel,)),
                removed <= at,
                removed == before.len() - self.channels@.len(),
                forall|id: UserId| #[trigger]
                    self.channels@.contains_key(id) ==> before.contains_key(id)
                        && self.channels@[id] == before[id],
                forall|i: int|
                    at <= i < ids@.len() ==> self.channels@.contains_key(#[trigger] ids@[i]),
                forall|i: int|
                    0 <= i < at && self.channels@.contains_key(#[trigger] ids@[i])
                        ==> is_closed.ensures((&before[ids@[i]],), false),
                forall|i: int|
                    0 <= i < at && !self.channels@.contains_key(#[trigger] ids@[i])
                        ==> is_closed.ensures((&before[ids@[i]],), true),
            decreases ids.len() - at,
        {
            let id = ids[at];
            let ghost current = self.channels@;
            assert(current.contains_key(ids@[at as int]));
            let closed = match self.channels.get(&id) {
                Some(channel) => is_closed(channel),
                None => false,
            };
            if closed {
                self.channels.remove(&id);
                removed += 1;
            }
            proof {
                assert forall|i: int| at < i < ids@.len() implies self.channels@.contains_key(
                    #[trigger] ids@[i],
                ) by {
                    assert(current.contains_key(ids@[i]));
                    assert(ids@[i] != ids@[at as int]);
                }
                assert forall|i: int|
                    0 <= i < at + 1 && self.channels@.contains_key(
                        #[trigger] ids@[i],
                    ) implies is_closed.ensures((&before[ids@[i]],), false) by {
                    if i < at {
                        assert(current.contains_key(ids@[i]));
                    }
                }
                assert forall|i: int|
                    0 <= i < at + 1 && !self.channels@.contains_key(
                        #[trigger] ids@[i],
                    ) implies is_closed.ensures((&before[ids@[i]],), true) by {
                    if i < at {
                        assert(ids@[i] != ids@[at as int]);
                        assert(!current.contains_key(ids@[i]));
                    }
                }
            }
            at += 1;
        }
        proof {
            assert forall|id: UserId|
                before.contains_key(id) && !self.channels@.contains_key(
                    id,
                ) implies is_closed.ensures((&#[trigger] before[id],), true) by {
                assert(ids@.to_set().contains(id));
                let i = choose|i: int| 0 <= i < ids@.len() && ids@[i] == id;
                assert(!self.channels@.contains_key(ids@[i]));
            }
            assert forall|id: UserId| #[trigger]
                self.channels@.contains_key(id) implies before.contains_key(id)
                && self.channels@[id] == before[id] && is_closed.ensures((&before[id],), false) by {
                assert(ids@.to_set().contains(id));
                let i = choose|i: int| 0 <= i < ids@.len() && ids@[i] == id;
                assert(self.channels@.contains_key(ids@[i]));
            }
        }
        removed
    }

    /// Subscribes `user_id` with `channel`. Subscribers whose channels
    /// `is_closed` finds closed are dropped first. A channel that `user_id`
    /// had before is replaced, and dropped with that.
    pub fn attach<F: Fn(&C) -> bool>(&mut self, user_id: UserId, channel: C, is_closed: F)
        requires
            forall|channel: &C| is_closed.requires((channel,)),
        ensures
            final(self)@.contains_key(user_id),
            final(self)@[user_id] == channel,
            swept(old(self)@.remove(user_id), final(self)@.remove(user_id), is_closed),
    {
        let ghost before = self.channels@;
        self.actualize(is_closed);
        let ghost between = self.channels@;
        self.channels.insert(user_id, channel);
        proof {
            if between.contains_key(user_id) {
                assert(self.channels@.remove(user_id) =~= between.remove(user_id));
            } else {
                assert(self.channels@.remove(user_id) =~= between);
            }
        }
    }
}

impl<C: Clone> Listeners<C> {
    /// A clone of the channel of each subscriber, with the subscriber's id, in
    /// no particular order. The registry is not needed any more to send on them.
    pub fn snapshot(&self) -> (copies: Vec<(UserId, C)>)
        ensures
            is_snapshot(copies@, self@),
    {
        let ids = self.subscribers();
        let mut copies: Vec<(UserId, C)> = Vec::new();
        let mut at: usize = 0;
        while at < ids.len()
            invariant
                at <= ids.len(),
                ids@.no_duplicates(),
                ids@.to_set() == self.channels@.dom(),
                ids@.len() == self.channels@.len(),
                copies@.len() == at,
                forall|i: int| 0 <= i < at ==> (#[trigger] copies@[i]).0 == ids@[i],
                forall|i: int|
                    0 <= i < at ==> cloned(self.channels@[ids@[i]], (#[trigger] copies@[i]).1),
            decreases ids.len() - at,
        {
            let id = ids[at];
            assert(ids@.to_set().contains(ids@[at as int]));
            match self.channels.get(&id) {
                Some(channel) => {
                    copies.push((id, channel.clone()));
                },
                None => {
                    assert(false);
                },
            }
            at += 1;
        }
        proof {
            assert forall|i: int| 0 <= i < copies@.len() implies self@.contains_key(
                #[trigger] copies@[i].0,
            ) && cloned(self@[copies@[i].0], copies@[i].1) by {
                assert(ids@.to_set().contains(ids@[i]));
            }
            assert forall|id: UserId| self@.contains_key(id) implies exists|i: int|
                0 <= i < copies@.len() && (#[trigger] copies@[i]).0 == id by {
                assert(ids@.to_set().contains(id));
                let i = choose|i: int| 0 <= i < ids@.len() && ids@[i] == id;
                assert(copies@[i].0 == id);
            }
        }
        copies
    }

    /// For each of `members` that subscribes, in the order of `members`, its
    /// id and a clone of its channel: those to whom a post of a chat with
    /// these members goes.
    pub fn recipients(&self, members: &Vec<UserId>) -> (copies: Vec<(UserId, C)>)
        ensures
            copies@.map_values(|copy: (UserId, C)| copy.0) == members@.filter(
                |id: UserId| self@.contains_key(id),
            ),
            forall|i: int|
                0 <= i < copies@.len() ==> self@.contains_key((#[trigger] copies@[i]).0) && cloned(
                    self@[copies@[i].0],
                    copies@[i].1,
                ),
    {
        let mut copies: Vec<(UserId, C)> = Vec::new();
        let mut at: usize = 0;
        let ghost subscribes = |id: UserId| self@.contains_key(id);
        while at < members.len()
            invariant
                at <= members.len(),
                subscribes == |id: UserId| self@.contains_key(id),
                copies@.map_values(|copy: (UserId, C)| copy.0) == members@.take(at as int).filter(
                    subscribes,
                ),
                forall|i: int|
                    0 <= i < copies@.len() ==> self@.contains_key((#[trigger] copies@[i]).0)
                        && cloned(self@[copies@[i].0], copies@[i].1),
            decreases members.len() - at,
        {
            let id = members[at];
            let ghost ids_before = copies@.map_values(|copy: (UserId, C)| copy.0);
            proof {
                assert(members@.take(at + 1) =~= members@.take(at as int).push(id));
                crate::seqs::lemma_filter_push(members@.take(at as int), id, subscribes);
            }
            match self.channels.get(&id) {
                Some(channel) => {
                    copies.push((id, channel.clone()));
                    assert(copies@.map_values(|copy: (UserId, C)| copy.0) =~= ids_before.push(id));
                },
                None => {},
            }
            at += 1;
        }
        assert(members@.take(members@.len() as int) =~= members@);
        copies
    }
}

} // verus!
