//! The chat room as it lives in memory: who is online, and who listens to
//! which kind of notification.

use crate::events::{ChatChanged, UserChanged};
use crate::listeners::{is_snapshot, swept, Listeners};
use crate::presence::Presence;
use crate::proto::{Chat, Post, UserId};
use vstd::prelude::*;

verus! {

/// How many messages a channel to a subscriber holds before a send waits.
pub const CHANNEL_CAPACITY: usize = 4;

/// The address on which the chat room listens when none is set.
pub const DEF_ENDPOINT: &'static str = "0.0.0.0:50051";

/// The file of the store when none is set.
pub const DEF_DB_FILE: &'static str = "migchat_server.db";

/// The value of a setting: what is set, or else `default`.
pub fn setting_or(setting: Option<String>, default: &str) -> (value: String)
    ensures
        value@ == match setting {
            Some(set) => set@,
            None => default@,
        },
{
    match setting {
        Some(set) => set,
        None => default.to_owned(),
    }
}

/// One message on its way to one subscriber.
#[derive(Debug, PartialEq)]
pub struct Delivery<C, N> {
    /// The subscriber.
    pub to: UserId,
    /// The channel to send on.
    pub channel: C,
    pub message: N,
}

/// To whom `deliveries` go, and on which channels.
pub open spec fn addressed<C, N>(deliveries: Seq<Delivery<C, N>>) -> Seq<(UserId, C)> {
    deliveries.map_values(|delivery: Delivery<C, N>| (delivery.to, delivery.channel))
}

/// The ids of those to whom `copies` belong.
pub open spec fn owners<C>(copies: Seq<(UserId, C)>) -> Seq<UserId> {
    copies.map_values(|copy: (UserId, C)| copy.0)
}

/// One delivery of `message` for each of `copies`, in their order.
pub fn deliveries_of<C, N: Clone>(copies: Vec<(UserId, C)>, message: &N) -> (deliveries: Vec<
    Delivery<C, N>,
>)
    ensures
        addressed(deliveries@) == copies@,
        forall|i: int|
            0 <= i < deliveries@.len() ==> cloned(*message, (#[trigger] deliveries@[i]).message),
{
    let mut deliveries: Vec<Delivery<C, N>> = Vec::new();
    let ghost all = copies@;
    for copy in it: copies.into_iter()
        invariant
            it.seq() == all,
            addressed(deliveries@) == all.take(it.index()),
            it.index() == it.seq().len() ==> addressed(deliveries@) == all,
            forall|i: int|
                0 <= i < deliveries@.len() ==> cloned(
                    *message,
                    (#[trigger] deliveries@[i]).message,
                ),
    {
        let ghost before = addressed(deliveries@);
        let (to, channel) = copy;
        deliveries.push(Delivery { to, channel, message: message.clone() });
        assert(addressed(deliveries@) =~= before.push(copy));
        assert(all.take(it.index() + 1) =~= all.take(it.index()).push(copy));
        assert(all.take(all.len() as int) =~= all);
    }
    deliveries
}

/// The state of the chat room that is not in the store. The four kinds of
/// notification have a registry each, and each registry its kind of channel.
pub struct ChatRoomImpl<UC, IC, CC, PC> {
    /// Who is told about users.
    pub users_listeners: Listeners<UC>,
    /// Who takes invitations.
    pub invitations_listeners: Listeners<IC>,
    /// Who is told about chats.
    pub chats_listeners: Listeners<CC>,
    /// Who takes posts.
    pub posts_listeners: Listeners<PC>,
    /// Who is online.
    pub online_users: Presence,
}

impl<UC, IC, CC, PC> ChatRoomImpl<UC, IC, CC, PC> {
    /// A chat room in which nobody is online and nobody listens.
    pub fn new() -> (room: Self)
        ensures
            room.users_listeners@ == Map::<UserId, UC>::empty(),
            room.invitations_listeners@ == Map::<UserId, IC>::empty(),
            room.chats_listeners@ == Map::<UserId, CC>::empty(),
            room.posts_listeners@ == Map::<UserId, PC>::empty(),
            room.online_users@ == Set::<UserId>::empty(),
    {
        ChatRoomImpl {
            users_listeners: Listeners::new(),
            invitations_listeners: Listeners::new(),
            chats_listeners: Listeners::new(),
            posts_listeners: Listeners::new(),
            online_users: Presence::new(),
        }
    }

    /// Whether everything but the listeners to chats is the same in `self` and `other`.
    pub open spec fn same_but_chats_listeners(&self, other: &Self) -> bool {
        &&& self.users_listeners@ == other.users_listeners@
        &&& self.invitations_listeners@ == other.invitations_listeners@
        &&& self.posts_listeners@ == other.posts_listeners@
        &&& self.online_users@ == other.online_users@
    }

    /// Whether everything but the listeners to users is the same in `self` and `other`.
    pub open spec fn same_but_users_listeners(&self, other: &Self) -> bool {
        &&& self.chats_listeners@ == other.chats_listeners@
        &&& self.invitations_listeners@ == other.invitations_listeners@
        &&& self.posts_listeners@ == other.posts_listeners@
        &&& self.online_users@ == other.online_users@
    }

    /// Whether everything but the listeners to posts is the same in `self` and `other`.
    pub open spec fn same_but_posts_listeners(&self, other: &Self) -> bool {
        &&& self.users_listeners@ == other.users_listeners@
        &&& self.invitations_listeners@ == other.invitations_listeners@
        &&& self.chats_listeners@ == other.chats_listeners@
        &&& self.online_users@ == other.online_users@
    }

    /// Whether everything but the listeners to invitations is the same in `self` and `other`.
    pub open spec fn same_but_invitations_listeners(&self, other: &Self) -> bool {
        &&& self.users_listeners@ == other.users_listeners@
        &&& self.chats_listeners@ == other.chats_listeners@
        &&& self.posts_listeners@ == other.posts_listeners@
        &&& self.online_users@ == other.online_users@
    }

    /// Drops the listeners to chats whose channels are closed, and tells how
    /// many they were.
    pub fn actualize_chat_listeners<F: Fn(&CC) -> bool>(&mut self, is_closed: F) -> (removed: usize)
        requires
            forall|channel: &CC| is_closed.requires((channel,)),
        ensures
            swept(old(self).chats_listeners@, final(self).chats_listeners@, is_closed),
            removed == old(self).chats_listeners@.len() - final(self).chats_listeners@.len(),
            final(self).same_but_chats_listeners(old(self)),
    {
        self.chats_listeners.actualize(is_closed)
    }

    /// Drops the listeners to users whose channels are closed, and tells how
    /// many they were.
    pub fn actualize_user_listeners<F: Fn(&UC) -> bool>(&mut self, is_closed: F) -> (removed: usize)
        requires
            forall|channel: &UC| is_closed.requires((channel,)),
        ensures
            swept(old(self).users_listeners@, final(self).users_listeners@, is_closed),
            removed == old(self).users_listeners@.len() - final(self).users_listeners@.len(),
            final(self).same_but_users_listeners(old(self)),
    {
        self.users_listeners.actualize(is_closed)
    }

    /// Drops the listeners to posts whose channels are closed, and tells how
    /// many they were.
    pub fn actualize_post_listeners<F: Fn(&PC) -> bool>(&mut self, is_closed: F) -> (removed: usize)
        requires
            forall|channel: &PC| is_closed.requires((channel,)),
        ensures
            swept(old(self).posts_listeners@, final(self).posts_listeners@, is_closed),
            removed == old(self).posts_listeners@.len() - final(self).posts_listeners@.len(),
            final(self).same_but_posts_listeners(old(self)),
    {
        self.posts_listeners.actualize(is_closed)
    }
}

impl<UC, IC, CC: Clone, PC> ChatRoomImpl<UC, IC, CC, PC> {
    /// The sends that tell every listener to chats about `notification`:
    /// one for each, all with the same message, in no particular order.
    pub fn notify_chat_changed(&self, notification: &ChatChanged) -> (deliveries: Vec<
        Delivery<CC, ChatChanged>,
    >)
        ensures
            is_snapshot(addressed(deliveries@), self.chats_listeners@),
            forall|i: int|
                0 <= i < deliveries@.len() ==> (#[trigger] deliveries@[i]).message@
                    == notification@,
    {
        deliveries_of(self.chats_listeners.snapshot(), notification)
    }
}

impl<UC: Clone, IC, CC, PC> ChatRoomImpl<UC, IC, CC, PC> {
    /// The sends that tell every listener to users about `notification`:
    /// one for each, all with the same message, in no particular order.
    pub fn notify_user_changed(&self, notification: &UserChanged) -> (deliveries: Vec<
        Delivery<UC, UserChanged>,
    >)
        ensures
            is_snapshot(addressed(deliveries@), self.users_listeners@),
            forall|i: int|
                0 <= i < deliveries@.len() ==> (#[trigger] deliveries@[i]).message@
                    == notification@,
    {
        deliveries_of(self.users_listeners.snapshot(), notification)
    }
}

impl<UC, IC, CC, PC: Clone> ChatRoomImpl<UC, IC, CC, PC> {
    /// The sends that bring `post` to the members of its chat: one for each
    /// member that listens to posts, in the order of the members. `chat` is
    /// the chat of the post as the store has it; without it nobody is told.
    pub fn notify_new_post(&self, post: &Post, chat: Option<&Chat>) -> (deliveries: Vec<
        Delivery<PC, Post>,
    >)
        ensures
            owners(addressed(deliveries@)) == match chat {
                Some(found) => found@.users.filter(
                    |id: UserId| self.posts_listeners@.contains_key(id),
                ),
                None => Seq::<UserId>::empty(),
            },
            forall|i: int|
                0 <= i < deliveries@.len() ==> {
                    &&& self.posts_listeners@.contains_key((#[trigger] deliveries@[i]).to)
                    &&& cloned(self.posts_listeners@[deliveries@[i].to], deliveries@[i].channel)
                    &&& deliveries@[i].message@ == post@
                },
    {
        match chat {
            Some(found) => {
                let copies = self.posts_listeners.recipients(&found.users);
                let ghost to = copies@;
                let deliveries = deliveries_of(copies, post);
                proof {
                    assert forall|i: int| 0 <= i < deliveries@.len() implies {
                        &&& self.posts_listeners@.contains_key((#[trigger] deliveries@[i]).to)
                        &&& cloned(
                            self.posts_listeners@[deliveries@[i].to],
                            deliveries@[i].channel,
                        )
                        &&& deliveries@[i].message@ == post@
                    } by {
                        assert(addressed(deliveries@)[i] == to[i]);
                    }
                }
                deliveries
            },
            None => {
                let deliveries: Vec<Delivery<PC, Post>> = Vec::new();
                assert(owners(addressed(deliveries@)) =~= Seq::<UserId>::empty());
                deliveries
            },
        }
    }
}

} // verus!
