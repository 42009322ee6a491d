//! What the chat room keeps: users and chats by id, and for each chat its
//! posts in the order in which they came.
//!
//! `StoreView` is the content of the store as contracts speak of it. The
//! functions decide what a transaction on the store does with the record it
//! has found; reading and writing the record is left to the caller.

use crate::events::contains_id;
use crate::proto::{Chat, ChatId, ChatView, Post, PostView, UserId, UserView, NOT_POST_ID};
use crate::seqs::{lemma_filter_members, lemma_filter_push};
use vstd::bytes::{spec_u64_to_le_bytes, u64_to_le_bytes};
use vstd::prelude::*;

verus! {

/// The key space of the users.
pub const BUCKET_USERS: &'static str = "users";

/// The key space of the chats.
pub const BUCKET_CHATS: &'static str = "chats";

/// The key space that holds, for each chat, the key space of its posts.
pub const BUCKET_POSTS: &'static str = "posts";

/// The key of the record with the id `id`, and of the `id`-th post of a
/// chat: the eight bytes of `id`, the lowest first.
pub fn record_key(id: u64) -> (key: Vec<u8>)
    ensures
        key@ == spec_u64_to_le_bytes(id),
        key@.len() == 8,
{
    u64_to_le_bytes(id)
}

/// `users` without `user_id`, as often as it was there.
pub open spec fn without(users: Seq<UserId>, user_id: UserId) -> Seq<UserId> {
    users.filter(is_not(user_id))
}

/// The test that an id is another one than `user_id`.
pub open spec fn is_not(user_id: UserId) -> spec_fn(UserId) -> bool {
    |id: UserId| id != user_id
}

/// A change to the members of a chat, made while the chat is read and
/// written back in one transaction.
#[derive(Debug, Clone, Copy, PartialEq, Eq, Structural)]
pub enum ChatEdit {
    /// The user becomes a member, unless it is one.
    Enter(UserId),
    /// The user stops being a member, if it is one.
    Leave(UserId),
    /// The chat stays as it is.
    Keep,
}

impl ChatEdit {
    /// Whether the edit changes `chat`: only then the chat is written back.
    pub open spec fn changes(self, chat: ChatView) -> bool {
        match self {
            ChatEdit::Enter(user_id) => !chat.users.contains(user_id),
            ChatEdit::Leave(user_id) => chat.users.contains(user_id),
            ChatEdit::Keep => false,
        }
    }

    /// `chat` after the edit.
    pub open spec fn result(self, chat: ChatView) -> ChatView {
        match self {
            ChatEdit::Enter(user_id) => if chat.users.contains(user_id) {
                chat
            } else {
                ChatView { users: chat.users.push(user_id), ..chat }
            },
            ChatEdit::Leave(user_id) => ChatView { users: without(chat.users, user_id), ..chat },
            ChatEdit::Keep => chat,
        }
    }

    /// An edit that changes nothing leaves the chat as it was: what a
    /// conditional update returns without writing is the chat of the store.
    pub proof fn law_unchanged_is_unwritten(self, chat: ChatView)
        requires
            !self.changes(chat),
        ensures
            self.result(chat) == chat,
    {
        match self {
            ChatEdit::Leave(user_id) => {
                lemma_without_absent(chat.users, user_id);
            },
            _ => {},
        }
    }

    /// Makes the edit on `chat` and tells whether `chat` has changed.
    pub fn apply(&self, chat: &mut Chat) -> (changed: bool)
        ensures
            final(chat)@ == self.result(old(chat)@),
            changed == self.changes(old(chat)@),
    {
        match self {
            ChatEdit::Enter(user_id) => {
                if contains_id(&chat.users, *user_id) {
                    false
                } else {
                    chat.users.push(*user_id);
                    true
                }
            },
            ChatEdit::Leave(user_id) => {
                if contains_id(&chat.users, *user_id) {
                    chat.users = remove_id(&chat.users, *user_id);
                    true
                } else {
                    proof {
                        lemma_without_absent(chat.users@, *user_id);
                    }
                    false
                }
            },
            ChatEdit::Keep => false,
        }
    }
}

/// Nothing is taken out of a list that does not hold the id.
pub proof fn lemma_without_absent(users: Seq<UserId>, user_id: UserId)
    requires
        !users.contains(user_id),
    ensures
        without(users, user_id) == users,
    decreases users.len(),
{
    reveal(Seq::filter);
    if users.len() > 0 {
        let rest = users.drop_last();
        assert(users[users.len() - 1] != user_id);
        assert forall|i: int| 0 <= i < rest.len() implies rest[i] != user_id by {
            assert(users[i] == rest[i]);
        }
        lemma_without_absent(rest, user_id);
        assert(users =~= rest.push(users.last()));
    } else {
        assert(without(users, user_id) =~= users);
    }
}

/// What is left of a list does not hold the id that was taken out.
pub proof fn lemma_without_gone(users: Seq<UserId>, user_id: UserId)
    ensures
        !without(users, user_id).contains(user_id),
        forall|other: UserId|
            other != user_id ==> (without(users, user_id).contains(other) <==> users.contains(
                other,
            )),
{
    lemma_filter_members(users, is_not(user_id));
}

/// `ids` without `user_id`, in the same order.
pub fn remove_id(ids: &Vec<UserId>, user_id: UserId) -> (kept: Vec<UserId>)
    ensures
        kept@ == without(ids@, user_id),
{
    let mut kept: Vec<UserId> = Vec::new();
    let ghost keep = is_not(user_id);
    let mut at: usize = 0;
    while at < ids.len()
        invariant
            at <= ids.len(),
            keep == is_not(user_id),
            kept@ == ids@.take(at as int).filter(keep),
        decreases ids.len() - at,
    {
        proof {
            assert(ids@.take(at + 1) =~= ids@.take(at as int).push(ids@[at as int]));
            lemma_filter_push(ids@.take(at as int), ids@[at as int], keep);
        }
        if ids[at] != user_id {
            kept.push(ids[at]);
        }
        at += 1;
    }
    assert(ids@.take(ids@.len() as int) =~= ids@);
    kept
}

/// The view of a record that may be missing.
pub open spec fn chat_view(chat: Option<Chat>) -> Option<ChatView> {
    match chat {
        Some(found) => Some(found@),
        None => None,
    }
}

/// The part of a conditional update that lies between reading the chat and
/// writing it back. Without a chat there is nothing to return and nothing to
/// write. With one, the edit is made: the chat is returned as it is then,
/// and is to be written back only if the edit has changed it.
pub fn update_chat(found: Option<Chat>, edit: ChatEdit) -> (outcome: (Option<Chat>, bool))
    ensures
        chat_view(outcome.0) == updated_chat(chat_view(found), edit),
        outcome.1 == writes_back(chat_view(found), edit),
{
    match found {
        Some(chat) => {
            let mut chat = chat;
            let changed = edit.apply(&mut chat);
            (Some(chat), changed)
        },
        None => (None, false),
    }
}

/// What a conditional update returns for the chat that it has found.
pub open spec fn updated_chat(found: Option<ChatView>, edit: ChatEdit) -> Option<ChatView> {
    match found {
        Some(chat) => Some(edit.result(chat)),
        None => None,
    }
}

/// Whether a conditional update writes.
pub open spec fn writes_back(found: Option<ChatView>, edit: ChatEdit) -> bool {
    match found {
        Some(chat) => edit.changes(chat),
        None => false,
    }
}

/// The test that `edit` changes a chat.
pub open spec fn is_changed_by(edit: ChatEdit) -> spec_fn(ChatView) -> bool {
    |chat: ChatView| edit.changes(chat)
}

/// Those of `chats` that `edit` changes, as they are after it.
pub open spec fn all_updated(chats: Seq<ChatView>, edit: ChatEdit) -> Seq<ChatView> {
    chats.filter(is_changed_by(edit)).map_values(|chat: ChatView| edit.result(chat))
}

/// The part of a conditional update of all chats that lies between reading
/// them and writing back: the edit is made on each chat, and those that it
/// has changed are returned, in the order of `chats`. Only they are to be
/// written, and if there is none, nothing is.
pub fn update_all(chats: &Vec<Chat>, edit: ChatEdit) -> (changed: Vec<Chat>)
    ensures
        changed.deep_view() == all_updated(chats.deep_view(), edit),
{
    let mut changed: Vec<Chat> = Vec::new();
    let ghost views = chats.deep_view();
    let mut at: usize = 0;
    while at < chats.len()
        invariant
            at <= chats.len(),
            views == chats.deep_view(),
            changed.deep_view() == all_updated(views.take(at as int), edit),
        decreases chats.len() - at,
    {
        let ghost before = changed.deep_view();
        proof {
            assert(views[at as int] == chats@[at as int]@);
            assert(views.take(at + 1) =~= views.take(at as int).push(views[at as int]));
            lemma_filter_push(views.take(at as int), views[at as int], is_changed_by(edit));
        }
        let mut chat = chats[at].clone();
        if edit.apply(&mut chat) {
            changed.push(chat);
            assert(changed.deep_view() =~= before.push(edit.result(views[at as int])));
            assert(changed.deep_view() =~= all_updated(views.take(at + 1), edit));
        }
        at += 1;
    }
    assert(views.take(views.len() as int) =~= views);
    changed
}

/// The part of `all` that starts at position `idx_from` and holds at most
/// `count` elements.
pub open spec fn window<A>(all: Seq<A>, idx_from: nat, count: nat) -> Seq<A> {
    let start = if idx_from <= all.len() {
        idx_from
    } else {
        all.len()
    };
    let end = if start + count <= all.len() {
        start + count
    } else {
        all.len()
    };
    all.subrange(start as int, end as int)
}

/// Of the posts `stored` of a chat, in the order in which they came, the
/// `count` ones from position `idx_from` on, or as many as there are.
/// Nothing is an answer too: a chat without posts, or a position past the
/// last post, gives an empty list.
pub fn read_chat_posts(stored: &Vec<Post>, idx_from: usize, count: usize) -> (posts: Vec<Post>)
    ensures
        posts.deep_view() == window(stored.deep_view(), idx_from as nat, count as nat),
{
    let mut posts: Vec<Post> = Vec::new();
    let start = if idx_from <= stored.len() {
        idx_from
    } else {
        stored.len()
    };
    let end = if count <= stored.len() - start {
        start + count
    } else {
        stored.len()
    };
    let mut at: usize = start;
    while at < end
        invariant
            start <= at <= end <= stored.len(),
            posts.deep_view() == stored.deep_view().subrange(start as int, at as int),
        decreases end - at,
    {
        let ghost before = posts.deep_view();
        posts.push(stored[at].clone());
        assert(posts.deep_view() =~= before.push(stored@[at as int]@));
        assert(stored.deep_view().subrange(start as int, at + 1) =~= stored.deep_view().subrange(
            start as int,
            at as int,
        ).push(stored@[at as int]@));
        at += 1;
    }
    posts
}

/// The content of the store.
pub struct StoreView {
    pub users: Map<UserId, UserView>,
    pub chats: Map<ChatId, ChatView>,
    /// The posts of each chat that has any, the first that came first.
    pub posts: Map<ChatId, Seq<PostView>>,
}

impl StoreView {
    pub open spec fn read_user(self, id: UserId) -> Option<UserView> {
        if self.users.contains_key(id) {
            Some(self.users[id])
        } else {
            None
        }
    }

    pub open spec fn write_user(self, id: UserId, user: UserView) -> StoreView {
        StoreView { users: self.users.insert(id, user), ..self }
    }

    /// Removes the user, from the users and from the members of every chat.
    pub open spec fn remove_user(self, id: UserId) -> StoreView {
        StoreView {
            users: self.users.remove(id),
            chats: self.chats.map_values(|chat: ChatView| ChatEdit::Leave(id).result(chat)),
            ..self
        }
    }

    pub open spec fn read_chat(self, id: ChatId) -> Option<ChatView> {
        if self.chats.contains_key(id) {
            Some(self.chats[id])
        } else {
            None
        }
    }

    pub open spec fn write_chat(self, id: ChatId, chat: ChatView) -> StoreView {
        StoreView { chats: self.chats.insert(id, chat), ..self }
    }

    /// The store after a conditional update of the chat `id`: it has changed
    /// only if the chat is there and the edit changes it.
    pub open spec fn update_chat(self, id: ChatId, edit: ChatEdit) -> StoreView {
        if writes_back(self.read_chat(id), edit) {
            self.write_chat(id, edit.result(self.chats[id]))
        } else {
            self
        }
    }

    /// Removes the chat and all its posts.
    pub open spec fn remove_chat(self, id: ChatId) -> StoreView {
        StoreView { chats: self.chats.remove(id), posts: self.posts.remove(id), ..self }
    }

    /// The posts of the chat `chat_id`, the first that came first. A chat
    /// that is unknown, or has none, has the empty list.
    pub open spec fn chat_posts(self, chat_id: ChatId) -> Seq<PostView> {
        if self.posts.contains_key(chat_id) {
            self.posts[chat_id]
        } else {
            Seq::empty()
        }
    }

    /// Puts `post` behind the posts that its chat has.
    pub open spec fn write_post(self, post: PostView) -> StoreView {
        StoreView {
            posts: self.posts.insert(post.chat_id, self.chat_posts(post.chat_id).push(post)),
            ..self
        }
    }

    pub open spec fn chat_posts_count(self, chat_id: ChatId) -> nat {
        self.chat_posts(chat_id).len()
    }

    pub open spec fn read_chat_posts(self, chat_id: ChatId, idx_from: nat, count: nat) -> Seq<
        PostView,
    > {
        window(self.chat_posts(chat_id), idx_from, count)
    }

    /// The post at position `i` of the chat `chat_id` lies under the chat
    /// that it names, that chat is there, and the post has an id.
    pub open spec fn post_in_order(self, chat_id: ChatId, i: int) -> bool {
        &&& self.chats.contains_key(chat_id)
        &&& self.posts[chat_id][i].chat_id == chat_id
        &&& self.posts[chat_id][i].id != NOT_POST_ID
    }

    /// Every post lies under the chat that it names, that chat is there, and
    /// no post is without an id.
    pub open spec fn posts_in_order(self) -> bool {
        forall|chat_id: ChatId, i: int|
            self.posts.contains_key(chat_id) && 0 <= i < self.posts[chat_id].len()
                ==> #[trigger] self.post_in_order(chat_id, i)
    }
}

/// A post that is written is the last of its chat, behind those that were
/// there, and the posts of the other chats stay as they are.
pub proof fn law_write_post_appends(store: StoreView, post: PostView)
    ensures
        store.write_post(post).chat_posts(post.chat_id) == store.chat_posts(post.chat_id).push(
            post,
        ),
        forall|other: ChatId|
            other != post.chat_id ==> store.write_post(post).chat_posts(other)
                == store.chat_posts(other),
        store.write_post(post).read_chat_posts(
            post.chat_id,
            0,
            store.chat_posts_count(post.chat_id),
        ) == store.chat_posts(post.chat_id),
{
    let before = store.chat_posts(post.chat_id);
    assert(before.push(post).subrange(0, before.len() as int) =~= before);
}

/// A chat without posts answers every request for posts with the empty list.
pub proof fn law_no_posts_no_error(store: StoreView, chat_id: ChatId, idx_from: nat, count: nat)
    requires
        store.chat_posts_count(chat_id) == 0,
    ensures
        store.read_chat_posts(chat_id, idx_from, count) == Seq::<PostView>::empty(),
{
    assert(store.read_chat_posts(chat_id, idx_from, count) =~= Seq::<PostView>::empty());
}

/// After a user is removed, the user is gone and no chat has it as a
/// member. The chats are the same otherwise: none is added or removed, and
/// every other member stays.
pub proof fn law_removed_user_is_in_no_chat(store: StoreView, user_id: UserId)
    ensures
        store.remove_user(user_id).read_user(user_id) is None,
        store.remove_user(user_id).chats.dom() == store.chats.dom(),
        store.remove_user(user_id).posts == store.posts,
        forall|chat_id: ChatId| #[trigger]
            store.chats.contains_key(chat_id) ==> {
                let before = store.chats[chat_id];
                let after = store.remove_user(user_id).chats[chat_id];
                &&& after == ChatEdit::Leave(user_id).result(before)
                &&& !after.users.contains(user_id)
                &&& forall|other: UserId|
                    other != user_id ==> (after.users.contains(other) <==> before.users.contains(
                        other,
                    ))
            },
{
    assert forall|chat_id: ChatId| #[trigger] store.chats.contains_key(chat_id) implies {
        let before = store.chats[chat_id];
        let after = store.remove_user(user_id).chats[chat_id];
        &&& after == ChatEdit::Leave(user_id).result(before)
        &&& !after.users.contains(user_id)
        &&& forall|other: UserId|
            other != user_id ==> (after.users.contains(other) <==> before.users.contains(other))
    } by {
        lemma_without_gone(store.chats[chat_id].users, user_id);
    }
}

/// After a chat is removed, neither the chat nor any of its posts is left.
pub proof fn law_remove_chat_removes_posts(store: StoreView, chat_id: ChatId)
    ensures
        store.remove_chat(chat_id).read_chat(chat_id) is None,
        store.remove_chat(chat_id).chat_posts_count(chat_id) == 0,
        store.posts_in_order() ==> store.remove_chat(chat_id).posts_in_order(),
{
    let after = store.remove_chat(chat_id);
    if store.posts_in_order() {
        assert forall|other: ChatId, i: int|
            after.posts.contains_key(other) && 0 <= i < after.posts[other].len()
            implies #[trigger] after.post_in_order(other, i) by {
            assert(store.post_in_order(other, i));
        }
    }
}

} // verus!
