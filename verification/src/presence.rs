//! Who is connected: a user is online from a registration until the next
//! logout.

use crate::proto::{User, UserId, UserView};
use std::collections::HashSet;
use vstd::prelude::*;

verus! {

/// The users that are online.
pub struct Presence {
    online: HashSet<UserId>,
}

impl View for Presence {
    type V = Set<UserId>;

    closed spec fn view(&self) -> Set<UserId> {
        self.online@
    }
}

/// The ids of `users`, in their order.
pub open spec fn ids_of(users: Seq<UserView>) -> Seq<UserId> {
    users.map_values(|user: UserView| user.id)
}

/// The test that an id is in `online`.
pub open spec fn is_in(online: Set<UserId>) -> spec_fn(UserId) -> bool {
    |id: UserId| online.contains(id)
}

/// The test that an id is not in `online`.
pub open spec fn is_out(online: Set<UserId>) -> spec_fn(UserId) -> bool {
    |id: UserId| !online.contains(id)
}

impl Presence {
    /// Nobody is online.
    pub fn new() -> (presence: Self)
        ensures
            presence@ == Set::<UserId>::empty(),
    {
        Presence { online: HashSet::new() }
    }

    /// `user_id` is online from now on. Tells whether it was offline before.
    pub fn enter(&mut self, user_id: UserId) -> (came: bool)
        ensures
            final(self)@ == old(self)@.insert(user_id),
            came == !old(self)@.contains(user_id),
    {
        self.online.insert(user_id)
    }

    /// `user_id` is offline from now on. Tells whether it was online before.
    pub fn leave(&mut self, user_id: UserId) -> (went: bool)
        ensures
            final(self)@ == old(self)@.remove(user_id),
            went == old(self)@.contains(user_id),
    {
        self.online.remove(&user_id)
    }

    /// Whether `user_id` is online.
    pub fn is_online(&self, user_id: UserId) -> (online: bool)
        ensures
            online == self@.contains(user_id),
    {
        self.online.contains(&user_id)
    }

    /// Sorts `users` by whether they are online: first the ids of those that
    /// are, then the ids of those that are not, each in the order of `users`.
    pub fn classify(&self, users: &Vec<User>) -> (sorted: (Vec<UserId>, Vec<UserId>))
        ensures
            sorted.0@ == ids_of(users.deep_view()).filter(is_in(self@)),
            sorted.1@ == ids_of(users.deep_view()).filter(is_out(self@)),
    {
        let mut online: Vec<UserId> = Vec::new();
        let mut offline: Vec<UserId> = Vec::new();
        let ghost here = is_in(self@);
        let ghost away = is_out(self@);
        let mut at: usize = 0;
        while at < users.len()
            invariant
                at <= users.len(),
                here == is_in(self@),
                away == is_out(self@),
                online@ == ids_of(users.deep_view().take(at as int)).filter(here),
                offline@ == ids_of(users.deep_view().take(at as int)).filter(away),
            decreases users.len() - at,
        {
            let id = users[at].id;
            proof {
                let views = users.deep_view();
                assert(views[at as int] == users@[at as int]@);
                assert(views.take(at + 1) =~= views.take(at as int).push(views[at as int]));
                assert(ids_of(views.take(at + 1)) =~= ids_of(views.take(at as int)).push(id));
                crate::seqs::lemma_filter_push(ids_of(views.take(at as int)), id, here);
                crate::seqs::lemma_filter_push(ids_of(views.take(at as int)), id, away);
            }
            if self.online.contains(&id) {
                online.push(id);
            } else {
                offline.push(id);
            }
            at += 1;
        }
        assert(users.deep_view().take(users@.len() as int) =~= users.deep_view());
        (online, offline)
    }
}

} // verus!
