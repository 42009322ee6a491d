//! The changes that the chat room tells its subscribers about, and what a
//! subscriber's stream makes of each.

use crate::proto::{
    Chat, ChatId, ChatView, UpdateChats, UpdateChatsView, UpdateUsers, UpdateUsersView, User,
    UserId, UserView,
};
use vstd::prelude::*;

verus! {

/// A change in the directory of users.
#[derive(Debug, PartialEq)]
pub enum UserChanged {
    /// A user has registered for the first time.
    Info(User),
    /// A user that was known before has come back.
    Online(UserId),
    /// A user has logged out.
    Offline(UserId),
}

pub enum UserChangedView {
    Info(UserView),
    Online(UserId),
    Offline(UserId),
}

impl View for UserChanged {
    type V = UserChangedView;

    open spec fn view(&self) -> UserChangedView {
        match self {
            UserChanged::Info(user) => UserChangedView::Info(user@),
            UserChanged::Online(id) => UserChangedView::Online(*id),
            UserChanged::Offline(id) => UserChangedView::Offline(*id),
        }
    }
}

impl Clone for UserChanged {
    fn clone(&self) -> (copy: Self)
        ensures
            copy@ == self@,
    {
        match self {
            UserChanged::Info(user) => UserChanged::Info(user.clone()),
            UserChanged::Online(id) => UserChanged::Online(*id),
            UserChanged::Offline(id) => UserChanged::Offline(*id),
        }
    }
}

/// A change in the directory of chats.
#[derive(Debug, PartialEq)]
pub enum ChatChanged {
    /// A chat is new, or its members have changed.
    Updated(Chat),
    /// A chat has been closed.
    Closed(ChatId),
}

pub enum ChatChangedView {
    Updated(ChatView),
    Closed(ChatId),
}

impl View for ChatChanged {
    type V = ChatChangedView;

    open spec fn view(&self) -> ChatChangedView {
        match self {
            ChatChanged::Updated(chat) => ChatChangedView::Updated(chat@),
            ChatChanged::Closed(id) => ChatChangedView::Closed(*id),
        }
    }
}

impl Clone for ChatChanged {
    fn clone(&self) -> (copy: Self)
        ensures
            copy@ == self@,
    {
        match self {
            ChatChanged::Updated(chat) => ChatChanged::Updated(chat.clone()),
            ChatChanged::Closed(id) => ChatChanged::Closed(*id),
        }
    }
}

/// Whether `user_id` may see `chat`. A chat with a description is open to
/// everybody; one without is a dialog, and only its members see it.
pub open spec fn chat_visible(chat: ChatView, user_id: UserId) -> bool {
    chat.description.len() > 0 || chat.users.contains(user_id)
}

/// What the stream of users sends for `change`. A user that registers for
/// the first time counts as online.
pub open spec fn users_update_of(change: UserChangedView) -> UpdateUsersView {
    match change {
        UserChangedView::Info(user) => UpdateUsersView {
            added: seq![user],
            online: seq![user.id],
            offline: seq![],
        },
        UserChangedView::Online(id) => UpdateUsersView {
            added: seq![],
            online: seq![id],
            offline: seq![],
        },
        UserChangedView::Offline(id) => UpdateUsersView {
            added: seq![],
            online: seq![],
            offline: seq![id],
        },
    }
}

/// What the stream of chats of `user_id` sends for `change`: nothing for a
/// chat that the user may not see.
pub open spec fn chats_update_of(change: ChatChangedView, user_id: UserId) -> Option<
    UpdateChatsView,
> {
    match change {
        ChatChangedView::Updated(chat) => if chat_visible(chat, user_id) {
            Some(UpdateChatsView { updated: seq![chat], gone: seq![] })
        } else {
            None
        },
        ChatChangedView::Closed(id) => Some(UpdateChatsView { updated: seq![], gone: seq![id] }),
    }
}

/// Whether `id` is among `ids`.
pub fn contains_id(ids: &Vec<UserId>, id: UserId) -> (found: bool)
    ensures
        found == ids@.contains(id),
{
    let mut at: usize = 0;
    while at < ids.len()
        invariant
            at <= ids.len(),
            forall|i: int| 0 <= i < at ==> ids@[i] != id,
        decreases ids.len() - at,
    {
        if ids[at] == id {
            return true;
        }
        at += 1;
    }
    false
}

/// Whether `user_id` may see `chat`.
pub fn is_chat_visible_for(chat: &Chat, user_id: UserId) -> (visible: bool)
    ensures
        visible == chat_visible(chat@, user_id),
{
    if chat.description.as_str().is_empty() {
        contains_id(&chat.users, user_id)
    } else {
        true
    }
}

/// The message that a subscriber to the users gets for `change`.
pub fn users_update(change: UserChanged) -> (update: UpdateUsers)
    ensures
        update@ == users_update_of(change@),
{
    let update = match change {
        UserChanged::Info(user) => {
            let id = user.id;
            UpdateUsers { added: vec![user], online: vec![id], offline: Vec::new() }
        },
        UserChanged::Online(id) => UpdateUsers {
            added: Vec::new(),
            online: vec![id],
            offline: Vec::new(),
        },
        UserChanged::Offline(id) => UpdateUsers {
            added: Vec::new(),
            online: Vec::new(),
            offline: vec![id],
        },
    };
    assert(update@.added =~= users_update_of(change@).added);
    assert(update@.online =~= users_update_of(change@).online);
    assert(update@.offline =~= users_update_of(change@).offline);
    update
}

/// The message that the subscriber `user_id` to the chats gets for `change`,
/// if it gets one: a chat that it may not see is passed over.
pub fn chats_update(change: ChatChanged, user_id: UserId) -> (update: Option<UpdateChats>)
    ensures
        match update {
            Some(message) => chats_update_of(change@, user_id) == Some(message@),
            None => chats_update_of(change@, user_id) is None,
        },
{
    match change {
        ChatChanged::Updated(chat) => {
            if !is_chat_visible_for(&chat, user_id) {
                return None;
            }
            let ghost view = chat@;
            let message = UpdateChats { updated: vec![chat], gone: Vec::new() };
            assert(message@.updated =~= seq![view]);
            assert(message@.gone =~= seq![]);
            Some(message)
        },
        ChatChanged::Closed(id) => {
            let message = UpdateChats { updated: Vec::new(), gone: vec![id] };
            assert(message@.updated =~= seq![]);
            assert(message@.gone =~= seq![id]);
            Some(message)
        },
    }
}

/// Whether a notification went to every subscriber: `sent` holds, for each
/// one, whether the send succeeded. With a failure among them, some channel
/// is closed and the registry is due for a sweep.
pub fn delivered_to_all(sent: &Vec<bool>) -> (all: bool)
    ensures
        all == (forall|i: int| 0 <= i < sent@.len() ==> sent@[i]),
{
    let mut at: usize = 0;
    while at < sent.len()
        invariant
            at <= sent.len(),
            forall|i: int| 0 <= i < at ==> sent@[i],
        decreases sent.len() - at,
    {
        if !sent[at] {
            return false;
        }
        at += 1;
    }
    true
}

} // verus!
