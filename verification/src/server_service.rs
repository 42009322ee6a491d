//! The calls of the chat room service. Each function takes what the caller
//! has read from the store, changes what the chat room holds in memory, and
//! says what is to be written, who is to be told, and what the answer is.

use crate::events::{chat_visible, contains_id, is_chat_visible_for, ChatChanged, ChatChangedView, UserChanged, UserChangedView};
use crate::identity::{
    described_chat_id, get_chat_id, get_user_id, listed_chat_id, new_post_id, user_id_of,
};
use crate::ascending::{lemma_sorted_set_of, sorted_set};
use crate::identity::sorted_members;
use crate::listeners::swept;
use crate::presence::{ids_of, is_in, is_out};
use crate::proto::{
    Chat, ChatId, ChatInfo, ChatInfoView, ChatReference, ChatView, Invitation, Post, PostId,
    PostView, Registration, RegistrationInfo, RpcResult, RpcResultView, UpdateChats,
    UpdateChatsView, UpdateUsers, UpdateUsersView, User, UserId, UserInfo, UserInfoView, UserView,
    NOT_CHAT_ID, NOT_POST_ID,
};
use crate::seqs::{lemma_filter_push, lemma_push_to_set};
use crate::server::ChatRoomImpl;
use crate::status::{decimal, joined, joined3, number_text, Code, Status, StatusView};
use crate::storage::{chat_view, ChatEdit};
use chrono::Utc;
use vstd::prelude::*;
use vstd::string::StringExecFns;

verus! {

/// `chrono::Utc::now().timestamp()`: the seconds since the start of 1970 on
/// the clock of the machine. Nothing is known of the value.
#[verifier::external_body]
fn unix_seconds() -> u64 {
    Utc::now().timestamp() as u64
}

/// The view of a user that may be missing.
pub open spec fn user_view(user: Option<User>) -> Option<UserView> {
    match user {
        Some(found) => Some(found@),
        None => None,
    }
}

/// The failure that a call answers with when the store has failed with
/// `error`: the sentence is `context` followed by `error`.
pub fn storage_failure(context: &str, error: &str) -> (status: Status)
    ensures
        status@ == (StatusView { code: Code::Internal, message: context@ + error@ }),
{
    Status::internal(joined(context, error))
}

/// The answer of a call that has done what it was asked to.
pub fn done(description: &str) -> (result: RpcResult)
    ensures
        result@ == (RpcResultView { ok: true, description: description@ }),
{
    RpcResult { ok: true, description: String::from_str(description) }
}

/// What a registration leads to.
#[derive(Debug, PartialEq)]
pub struct Registered {
    /// The record to write, if the user is new.
    pub store: Option<User>,
    /// What the listeners to users are told.
    pub notification: UserChanged,
    pub reply: RegistrationInfo,
}

pub struct RegisteredView {
    pub store: Option<UserView>,
    pub notification: UserChangedView,
    pub reply: RegistrationInfo,
}

impl View for Registered {
    type V = RegisteredView;

    open spec fn view(&self) -> RegisteredView {
        RegisteredView {
            store: user_view(self.store),
            notification: self.notification@,
            reply: self.reply,
        }
    }
}

/// What the registration with `info` at the time `now` leads to, when the
/// store holds `found` under the id of the user. A user that is known comes
/// online and keeps the date of its first registration. A user that is new
/// is written with the date `now` and announced.
pub open spec fn registered(info: UserInfoView, found: Option<UserView>, now: u64) -> RegisteredView {
    let id = user_id_of(info);
    match found {
        Some(user) => RegisteredView {
            store: None,
            notification: UserChangedView::Online(id),
            reply: RegistrationInfo {
                registration: Some(Registration { user_id: id }),
                created: user.created,
            },
        },
        None => {
            let user = UserView { id, name: info.name, short_name: info.short_name, created: now };
            RegisteredView {
                store: Some(user),
                notification: UserChangedView::Info(user),
                reply: RegistrationInfo {
                    registration: Some(Registration { user_id: id }),
                    created: now,
                },
            }
        },
    }
}

/// What `register_at` answers to the result `found` of reading the user.
pub open spec fn register_outcome(
    outcome: Result<Registered, Status>,
    info: UserInfoView,
    found: Result<Option<User>, String>,
    now: u64,
) -> bool {
    match found {
        Ok(user) => outcome matches Ok(plan) && plan@ == registered(info, user_view(user), now),
        Err(error) => outcome matches Err(status) && status@ == (StatusView {
            code: Code::Internal,
            message: error@,
        }),
    }
}

/// What follows a registration once it is known whether the record could
/// be written. `written` is the outcome of writing `plan.store`, and `Ok`
/// where there was nothing to write. After a failure the call fails with
/// what the store has said, and nobody is told. Else the listeners to
/// users are told what `plan` holds for them, and `plan.reply` is the answer.
pub fn registered_after_write(plan: Registered, written: Result<(), String>) -> (outcome: Result<
    (UserChanged, RegistrationInfo),
    Status,
>)
    ensures
        match written {
            Ok(_) => outcome matches Ok(told) && told.0@ == plan@.notification && told.1
                == plan.reply,
            Err(error) => outcome matches Err(status) && status@ == (StatusView {
                code: Code::Internal,
                message: error@,
            }),
        },
{
    match written {
        Ok(_) => Ok((plan.notification, plan.reply)),
        Err(error) => Err(Status::internal(error)),
    }
}

impl<UC, IC, CC, PC> ChatRoomImpl<UC, IC, CC, PC> {
    /// Whether the listeners are the same in `self` and `other`.
    pub open spec fn same_listeners(&self, other: &Self) -> bool {
        &&& self.users_listeners@ == other.users_listeners@
        &&& self.invitations_listeners@ == other.invitations_listeners@
        &&& self.chats_listeners@ == other.chats_listeners@
        &&& self.posts_listeners@ == other.posts_listeners@
    }

    /// Registers the user `user_info` at the time `now`. `found` is what
    /// reading the store under the id of the user has given. The user is
    /// online from now on, whatever the store has said. If the store has
    /// failed, so does the call.
    pub fn register_at(
        &mut self,
        user_info: UserInfo,
        found: Result<Option<User>, String>,
        now: u64,
    ) -> (outcome: Result<Registered, Status>)
        ensures
            final(self).online_users@ == old(self).online_users@.insert(user_id_of(user_info@)),
            final(self).same_listeners(old(self)),
            register_outcome(outcome, user_info@, found, now),
    {
        let id = get_user_id(&user_info);
        self.online_users.enter(id);
        match found {
            Err(error) => Err(Status::internal(error)),
            Ok(Some(user)) => Ok(
                Registered {
                    store: None,
                    notification: UserChanged::Online(id),
                    reply: RegistrationInfo {
                        registration: Some(Registration { user_id: id }),
                        created: user.created,
                    },
                },
            ),
            Ok(None) => {
                let user = User {
                    id,
                    name: user_info.name,
                    short_name: user_info.short_name,
                    created: now,
                };
                Ok(
                    Registered {
                        store: Some(user.clone()),
                        notification: UserChanged::Info(user),
                        reply: RegistrationInfo {
                            registration: Some(Registration { user_id: id }),
                            created: now,
                        },
                    },
                )
            },
        }
    }

    /// Registers the user `user_info` now: `register_at` with the time that
    /// the clock shows.
    pub fn register(&mut self, user_info: UserInfo, found: Result<Option<User>, String>) -> (outcome:
        Result<Registered, Status>)
        ensures
            final(self).online_users@ == old(self).online_users@.insert(user_id_of(user_info@)),
            final(self).same_listeners(old(self)),
            exists|now: u64| register_outcome(outcome, user_info@, found, now),
    {
        let now = unix_seconds();
        let ghost info = user_info@;
        let outcome = self.register_at(user_info, found, now);
        assert(register_outcome(outcome, info, found, now));
        outcome
    }

    /// Logs the user out: it has no subscription of any kind any more and is
    /// not online. The listeners to users are to be told that it is offline.
    /// Nothing can fail, and a second logout finds nothing left to do.
    pub fn logout(&mut self, registration: Registration) -> (outcome: (UserChanged, RpcResult))
        ensures
            final(self).users_listeners@ == old(self).users_listeners@.remove(registration.user_id),
            final(self).chats_listeners@ == old(self).chats_listeners@.remove(registration.user_id),
            final(self).invitations_listeners@ == old(self).invitations_listeners@.remove(
                registration.user_id,
            ),
            final(self).posts_listeners@ == old(self).posts_listeners@.remove(registration.user_id),
            final(self).online_users@ == old(self).online_users@.remove(registration.user_id),
            !final(self).users_listeners@.contains_key(registration.user_id),
            !final(self).chats_listeners@.contains_key(registration.user_id),
            !final(self).invitations_listeners@.contains_key(registration.user_id),
            !final(self).posts_listeners@.contains_key(registration.user_id),
            !final(self).online_users@.contains(registration.user_id),
            outcome.0@ == UserChangedView::Offline(registration.user_id),
            outcome.1@ == (RpcResultView { ok: true, description: "logout successful"@ }),
    {
        let user_id = registration.user_id;
        self.users_listeners.detach(user_id);
        self.chats_listeners.detach(user_id);
        self.invitations_listeners.detach(user_id);
        self.posts_listeners.detach(user_id);
        self.online_users.leave(user_id);
        (UserChanged::Offline(user_id), done("logout successful"))
    }
}

/// What reading all users has given: nothing, where the store has failed.
pub open spec fn users_read(stored: Result<Vec<User>, String>) -> Seq<UserView> {
    match stored {
        Ok(users) => users.deep_view(),
        Err(_) => Seq::empty(),
    }
}

/// What reading all chats has given: nothing, where the store has failed.
pub open spec fn chats_read(stored: Result<Vec<Chat>, String>) -> Seq<ChatView> {
    match stored {
        Ok(chats) => chats.deep_view(),
        Err(_) => Seq::empty(),
    }
}

/// The test that a user is another one than `user_id`.
pub open spec fn is_other_user(user_id: UserId) -> spec_fn(UserView) -> bool {
    |user: UserView| user.id != user_id
}

/// The test that `user_id` may see a chat.
pub open spec fn is_visible_to(user_id: UserId) -> spec_fn(ChatView) -> bool {
    |chat: ChatView| chat_visible(chat, user_id)
}

/// The test that `user_id` is a member of a chat.
pub open spec fn has_member(user_id: UserId) -> spec_fn(ChatView) -> bool {
    |chat: ChatView| chat.users.contains(user_id)
}

/// The first message of the stream of users of `user_id`: all users in
/// `stored` but the subscriber itself, and which of them are in `online`.
pub open spec fn first_users_update(
    stored: Seq<UserView>,
    user_id: UserId,
    online: Set<UserId>,
) -> UpdateUsersView {
    let added = stored.filter(is_other_user(user_id));
    UpdateUsersView {
        added,
        online: ids_of(added).filter(is_in(online)),
        offline: ids_of(added).filter(is_out(online)),
    }
}

/// The first message of the stream of chats of `user_id`: those chats in
/// `stored` that the subscriber may see.
pub open spec fn first_chats_update(stored: Seq<ChatView>, user_id: UserId) -> UpdateChatsView {
    UpdateChatsView { updated: stored.filter(is_visible_to(user_id)), gone: seq![] }
}

/// The chats in `stored` of which `user_id` is a member: those whose posts
/// the stream of posts of `user_id` starts with, chat by chat, in this order.
pub open spec fn chats_to_replay(stored: Seq<ChatView>, user_id: UserId) -> Seq<ChatId> {
    stored.filter(has_member(user_id)).map_values(|chat: ChatView| chat.id)
}

/// The users in `stored` but `user_id`, in the same order.
pub fn other_users(stored: &Vec<User>, user_id: UserId) -> (others: Vec<User>)
    ensures
        others.deep_view() == stored.deep_view().filter(is_other_user(user_id)),
{
    let mut others: Vec<User> = Vec::new();
    let ghost views = stored.deep_view();
    let mut at: usize = 0;
    while at < stored.len()
        invariant
            at <= stored.len(),
            views == stored.deep_view(),
            others.deep_view() == views.take(at as int).filter(is_other_user(user_id)),
        decreases stored.len() - at,
    {
        let ghost before = others.deep_view();
        proof {
            assert(views[at as int] == stored@[at as int]@);
            assert(views.take(at + 1) =~= views.take(at as int).push(views[at as int]));
            lemma_filter_push(views.take(at as int), views[at as int], is_other_user(user_id));
        }
        if stored[at].id != user_id {
            others.push(stored[at].clone());
            assert(others.deep_view() =~= before.push(views[at as int]));
        }
        at += 1;
    }
    assert(views.take(views.len() as int) =~= views);
    others
}

/// The chats in `stored` that `user_id` may see, in the same order.
pub fn visible_chats(stored: &Vec<Chat>, user_id: UserId) -> (visible: Vec<Chat>)
    ensures
        visible.deep_view() == stored.deep_view().filter(is_visible_to(user_id)),
{
    let mut visible: Vec<Chat> = Vec::new();
    let ghost views = stored.deep_view();
    let mut at: usize = 0;
    while at < stored.len()
        invariant
            at <= stored.len(),
            views == stored.deep_view(),
            visible.deep_view() == views.take(at as int).filter(is_visible_to(user_id)),
        decreases stored.len() - at,
    {
        let ghost before = visible.deep_view();
        proof {
            assert(views[at as int] == stored@[at as int]@);
            assert(views.take(at + 1) =~= views.take(at as int).push(views[at as int]));
            lemma_filter_push(views.take(at as int), views[at as int], is_visible_to(user_id));
        }
        if is_chat_visible_for(&stored[at], user_id) {
            visible.push(stored[at].clone());
            assert(visible.deep_view() =~= before.push(views[at as int]));
        }
        at += 1;
    }
    assert(views.take(views.len() as int) =~= views);
    visible
}

/// The ids of the chats in `stored` of which `user_id` is a member, in the
/// same order.
pub fn member_chats(stored: &Vec<Chat>, user_id: UserId) -> (ids: Vec<ChatId>)
    ensures
        ids@ == chats_to_replay(stored.deep_view(), user_id),
{
    let mut ids: Vec<ChatId> = Vec::new();
    let ghost views = stored.deep_view();
    let mut at: usize = 0;
    while at < stored.len()
        invariant
            at <= stored.len(),
            views == stored.deep_view(),
            ids@ == chats_to_replay(views.take(at as int), user_id),
        decreases stored.len() - at,
    {
        let ghost before = ids@;
        proof {
            assert(views[at as int] == stored@[at as int]@);
            assert(views.take(at + 1) =~= views.take(at as int).push(views[at as int]));
            lemma_filter_push(views.take(at as int), views[at as int], has_member(user_id));
        }
        if contains_id(&stored[at].users, user_id) {
            ids.push(stored[at].id);
            assert(ids@ =~= chats_to_replay(views.take(at + 1), user_id));
        }
        at += 1;
    }
    assert(views.take(views.len() as int) =~= views);
    ids
}

impl<UC, IC, CC, PC> ChatRoomImpl<UC, IC, CC, PC> {
    /// Opens the stream of users of the subscriber: `listener` becomes its
    /// channel, in place of one that it had, and the first message of the
    /// stream is returned. `stored` is what reading all users has given; if
    /// the store has failed, the stream starts with no users.
    pub fn get_users<F: Fn(&UC) -> bool>(
        &mut self,
        registration: Registration,
        listener: UC,
        is_closed: F,
        stored: Result<Vec<User>, String>,
    ) -> (first: UpdateUsers)
        requires
            forall|channel: &UC| is_closed.requires((channel,)),
        ensures
            final(self).users_listeners@.contains_key(registration.user_id),
            final(self).users_listeners@[registration.user_id] == listener,
            swept(
                old(self).users_listeners@.remove(registration.user_id),
                final(self).users_listeners@.remove(registration.user_id),
                is_closed,
            ),
            final(self).same_but_users_listeners(old(self)),
            first@ == first_users_update(
                users_read(stored),
                registration.user_id,
                old(self).online_users@,
            ),
    {
        let user_id = registration.user_id;
        self.users_listeners.attach(user_id, listener, is_closed);
        let existing = match stored {
            Ok(users) => other_users(&users, user_id),
            Err(_) => {
                let nobody: Vec<User> = Vec::new();
                assert(nobody.deep_view() =~= Seq::<UserView>::empty().filter(
                    is_other_user(user_id),
                )) by {
                    reveal(Seq::filter);
                }
                nobody
            },
        };
        let (online, offline) = self.online_users.classify(&existing);
        UpdateUsers { added: existing, online, offline }
    }

    /// Opens the stream of chats of the subscriber: `listener` becomes its
    /// channel, in place of one that it had, and the first message of the
    /// stream is returned. `stored` is what reading all chats has given; if
    /// the store has failed, the stream starts with no chats.
    pub fn get_chats<F: Fn(&CC) -> bool>(
        &mut self,
        registration: Registration,
        listener: CC,
        is_closed: F,
        stored: Result<Vec<Chat>, String>,
    ) -> (first: UpdateChats)
        requires
            forall|channel: &CC| is_closed.requires((channel,)),
        ensures
            final(self).chats_listeners@.contains_key(registration.user_id),
            final(self).chats_listeners@[registration.user_id] == listener,
            swept(
                old(self).chats_listeners@.remove(registration.user_id),
                final(self).chats_listeners@.remove(registration.user_id),
                is_closed,
            ),
            final(self).same_but_chats_listeners(old(self)),
            first@ == first_chats_update(chats_read(stored), registration.user_id),
    {
        let user_id = registration.user_id;
        self.chats_listeners.attach(user_id, listener, is_closed);
        let existing = match stored {
            Ok(chats) => visible_chats(&chats, user_id),
            Err(_) => {
                let none: Vec<Chat> = Vec::new();
                assert(none.deep_view() =~= Seq::<ChatView>::empty().filter(
                    is_visible_to(user_id),
                )) by {
                    reveal(Seq::filter);
                }
                none
            },
        };
        let first = UpdateChats { updated: existing, gone: Vec::new() };
        assert(first@.gone =~= seq![]);
        first
    }

    /// Opens the stream of invitations of the subscriber: `listener` becomes
    /// its channel, in place of one that it had. The stream starts empty:
    /// an invitation that came before is lost.
    pub fn get_invitations<F: Fn(&IC) -> bool>(
        &mut self,
        registration: Registration,
        listener: IC,
        is_closed: F,
    )
        requires
            forall|channel: &IC| is_closed.requires((channel,)),
        ensures
            final(self).invitations_listeners@.contains_key(registration.user_id),
            final(self).invitations_listeners@[registration.user_id] == listener,
            swept(
                old(self).invitations_listeners@.remove(registration.user_id),
                final(self).invitations_listeners@.remove(registration.user_id),
                is_closed,
            ),
            final(self).same_but_invitations_listeners(old(self)),
    {
        self.invitations_listeners.attach(registration.user_id, listener, is_closed);
    }

    /// Opens the stream of posts of the subscriber: `listener` becomes its
    /// channel, in place of one that it had. The stream starts with the
    /// posts of the chats that are returned, all the posts of one chat in
    /// the order of the store before those of the next. `stored` is what
    /// reading all chats has given; if the store has failed, the stream
    /// starts with no posts.
    pub fn get_posts<F: Fn(&PC) -> bool>(
        &mut self,
        registration: Registration,
        listener: PC,
        is_closed: F,
        stored: Result<Vec<Chat>, String>,
    ) -> (replay: Vec<ChatId>)
        requires
            forall|channel: &PC| is_closed.requires((channel,)),
        ensures
            final(self).posts_listeners@.contains_key(registration.user_id),
            final(self).posts_listeners@[registration.user_id] == listener,
            swept(
                old(self).posts_listeners@.remove(registration.user_id),
                final(self).posts_listeners@.remove(registration.user_id),
                is_closed,
            ),
            final(self).same_but_posts_listeners(old(self)),
            replay@ == chats_to_replay(chats_read(stored), registration.user_id),
    {
        let user_id = registration.user_id;
        self.posts_listeners.attach(user_id, listener, is_closed);
        match stored {
            Ok(chats) => member_chats(&chats, user_id),
            Err(_) => {
                let none: Vec<ChatId> = Vec::new();
                assert(none@ =~= chats_to_replay(Seq::<ChatView>::empty(), user_id)) by {
                    reveal(Seq::filter);
                }
                none
            },
        }
    }
}

/// The lists of `per_chat`, one after the other.
pub open spec fn one_after_another(per_chat: Seq<Seq<PostView>>) -> Seq<PostView>
    decreases per_chat.len(),
{
    if per_chat.len() == 0 {
        Seq::empty()
    } else {
        one_after_another(per_chat.drop_last()) + per_chat.last()
    }
}

/// What the stream of posts of a subscriber starts with: the posts of its
/// chats, which `per_chat` holds chat by chat, as one list.
pub fn replay_posts(per_chat: Vec<Vec<Post>>) -> (posts: Vec<Post>)
    ensures
        posts.deep_view() == one_after_another(per_chat.deep_view()),
{
    let mut posts: Vec<Post> = Vec::new();
    let ghost all = per_chat.deep_view();
    let ghost given = per_chat@;
    assert(posts.deep_view() =~= one_after_another(all.take(0)));
    for chat_posts in it: per_chat.into_iter()
        invariant
            it.seq() == given,
            all == given.map_values(|list: Vec<Post>| list.deep_view()),
            posts.deep_view() == one_after_another(all.take(it.index())),
            it.index() == it.seq().len() ==> posts.deep_view() == one_after_another(all),
    {
        let ghost before = posts.deep_view();
        let mut chat_posts = chat_posts;
        let ghost added = chat_posts.deep_view();
        posts.append(&mut chat_posts);
        proof {
            assert(posts.deep_view() =~= before + added);
            assert(all.take(it.index() + 1).drop_last() =~= all.take(it.index()));
            assert(all.take(it.index() + 1).last() == added);
            assert(all.take(all.len() as int) =~= all);
        }
    }
    posts
}

/// `post` as it is stored: with the id `id` and the date `now`.
pub open spec fn stamped(post: PostView, id: PostId, now: u64) -> PostView {
    PostView { id, created: now, ..post }
}

/// A post that the chat room has taken.
#[derive(Debug, PartialEq)]
pub struct Accepted {
    /// The post as it is to be written and sent to the members of its chat.
    pub post: Post,
    pub reply: RpcResult,
}

/// What the chat room answers to the post `post`, for which it has drawn
/// the id `id` at the time `now`. A post that comes with an id is refused.
pub open spec fn create_post_outcome(
    outcome: Result<Accepted, Status>,
    post: PostView,
    id: PostId,
    now: u64,
) -> bool {
    if post.id != NOT_POST_ID {
        outcome matches Err(status) && status@ == (StatusView {
            code: Code::InvalidArgument,
            message: "id must be 0"@,
        })
    } else {
        outcome matches Ok(accepted) && accepted.post@ == stamped(post, id, now)
            && accepted.reply@ == (RpcResultView { ok: true, description: "accepted"@ })
    }
}

/// Takes the post `post` with the id `id` at the time `now`, unless it
/// comes with an id of its own.
pub fn create_post_at(post: Post, id: PostId, now: u64) -> (outcome: Result<Accepted, Status>)
    ensures
        create_post_outcome(outcome, post@, id, now),
{
    if post.id != NOT_POST_ID {
        return Err(Status::invalid_argument(String::from_str("id must be 0")));
    }
    let mut post = post;
    post.id = id;
    post.created = now;
    Ok(Accepted { post, reply: done("accepted") })
}

/// Takes the post `post` now, with a fresh id that is not zero, unless it
/// comes with an id of its own.
pub fn create_post(post: Post) -> (outcome: Result<Accepted, Status>)
    ensures
        exists|id: PostId, now: u64|
            id != NOT_POST_ID && create_post_outcome(outcome, post@, id, now),
{
    let id = new_post_id();
    let now = unix_seconds();
    let ghost asked = post@;
    let outcome = create_post_at(post, id, now);
    assert(id != NOT_POST_ID && create_post_outcome(outcome, asked, id, now));
    outcome
}

/// What follows a post that was taken once it is known whether it could be
/// written. `written` is the outcome of writing `accepted.post`. After a
/// failure the call fails, and the post is sent to nobody. Else the post
/// goes to the members of its chat, and `accepted.reply` is the answer.
pub fn post_after_write(accepted: Accepted, written: Result<(), String>) -> (outcome: Result<
    (Post, RpcResult),
    Status,
>)
    ensures
        match written {
            Ok(_) => outcome matches Ok(sent) && sent.0@ == accepted.post@ && sent.1@
                == accepted.reply@,
            Err(error) => outcome matches Err(status) && status@ == (StatusView {
                code: Code::Internal,
                message: "failed to save post, "@ + error@,
            }),
        },
{
    match written {
        Ok(_) => Ok((accepted.post, accepted.reply)),
        Err(error) => Err(storage_failure("failed to save post, ", error.as_str())),
    }
}

/// The members that a new chat starts with: the creator and those that it
/// names, each once, from the smallest id to the largest; nobody, where the
/// creator does not ask for it.
pub open spec fn chat_members(info: ChatInfoView) -> Seq<UserId> {
    if info.auto_enter {
        sorted_set(info.desired_users.to_set().insert(info.user_id))
    } else {
        Seq::empty()
    }
}

/// What is done to a chat that is there already when it is created again:
/// the creator enters it, where it asks for it.
pub open spec fn create_chat_edit(info: ChatInfoView) -> ChatEdit {
    if info.auto_enter {
        ChatEdit::Enter(info.user_id)
    } else {
        ChatEdit::Keep
    }
}

/// The id of the chat that `info` asks for, where `info` decides it: by the
/// description, or else by the members. Otherwise the id is drawn.
pub open spec fn planned_chat_id(info: ChatInfoView) -> Option<ChatId> {
    if info.description.len() > 0 {
        Some(described_chat_id(info.description))
    } else if info.auto_enter {
        Some(listed_chat_id(chat_members(info)))
    } else {
        None
    }
}

/// Which chat a request to create one means, and what is done to the chat
/// if it is there.
#[derive(Debug, PartialEq)]
pub struct NewChat {
    pub id: ChatId,
    /// The members of the chat, if it is made.
    pub users: Vec<UserId>,
    /// The change to the chat, if it is there.
    pub edit: ChatEdit,
}

/// Finds the chat that `info` means.
pub fn plan_chat(info: &ChatInfo) -> (plan: NewChat)
    ensures
        plan.users@ == chat_members(info@),
        plan.edit == create_chat_edit(info@),
        planned_chat_id(info@) matches Some(id) ==> plan.id == id,
        plan.id != NOT_CHAT_ID,
{
    let users = if info.auto_enter {
        let mut all = info.desired_users.clone();
        all.push(info.user_id);
        proof {
            lemma_push_to_set(info.desired_users@, info.user_id);
        }
        let users = sorted_members(all.as_slice());
        proof {
            assert(all@.to_set().contains(info.user_id));
            assert(users@.to_set().contains(info.user_id));
            lemma_sorted_set_of(users@);
        }
        users
    } else {
        Vec::new()
    };
    let edit = if info.auto_enter {
        ChatEdit::Enter(info.user_id)
    } else {
        ChatEdit::Keep
    };
    let id = get_chat_id(info.description.as_str(), users.as_slice());
    NewChat { id, users, edit }
}

/// The chat that a request to create one answers with, and whether it is
/// to be written: the chat `found` that is there, or else a new one.
pub open spec fn created(
    info: ChatInfoView,
    id: ChatId,
    users: Seq<UserId>,
    found: Option<ChatView>,
    now: u64,
) -> (ChatView, bool) {
    match found {
        Some(chat) => (chat, false),
        None => (
            ChatView {
                id,
                permanent: info.permanent,
                description: info.description,
                users,
                created: now,
            },
            true,
        ),
    }
}

/// What a request to create a chat leads to.
#[derive(Debug, PartialEq)]
pub struct Created {
    /// The chat: the answer, and what the listeners to chats are told.
    pub chat: Chat,
    /// Whether the chat is new and to be written.
    pub store: bool,
}

/// What `create_chat_at` answers to the result `updated` of the
/// conditional update.
pub open spec fn create_chat_outcome(
    outcome: Result<Created, Status>,
    info: ChatInfoView,
    id: ChatId,
    users: Seq<UserId>,
    updated: Result<Option<Chat>, String>,
    now: u64,
) -> bool {
    match updated {
        Ok(found) => outcome matches Ok(made) && (made.chat@, made.store) == created(
            info,
            id,
            users,
            chat_view(found),
            now,
        ),
        Err(error) => outcome matches Err(status) && status@ == (StatusView {
            code: Code::Internal,
            message: "failed to access chats, "@ + error@,
        }),
    }
}

/// Creates the chat that `info` asks for, at the time `now`, unless it is
/// there. `plan` is what `plan_chat` has found for `info`, and `updated` is
/// what the conditional update of the chat `plan.id` with `plan.edit` has
/// returned. If the store has failed, so does the call.
pub fn create_chat_at(
    info: ChatInfo,
    plan: NewChat,
    updated: Result<Option<Chat>, String>,
    now: u64,
) -> (outcome: Result<Created, Status>)
    ensures
        create_chat_outcome(outcome, info@, plan.id, plan.users@, updated, now),
{
    match updated {
        Ok(Some(chat)) => Ok(Created { chat, store: false }),
        Ok(None) => Ok(
            Created {
                chat: Chat {
                    id: plan.id,
                    permanent: info.permanent,
                    description: info.description,
                    users: plan.users,
                    created: now,
                },
                store: true,
            },
        ),
        Err(error) => Err(storage_failure("failed to access chats, ", error.as_str())),
    }
}

/// Creates the chat that `info` asks for now: `create_chat_at` with the
/// time that the clock shows.
pub fn create_chat(info: ChatInfo, plan: NewChat, updated: Result<Option<Chat>, String>) -> (outcome:
    Result<Created, Status>)
    ensures
        exists|now: u64| create_chat_outcome(outcome, info@, plan.id, plan.users@, updated, now),
{
    let now = unix_seconds();
    let ghost asked = info@;
    let ghost id = plan.id;
    let ghost users = plan.users@;
    let outcome = create_chat_at(info, plan, updated, now);
    assert(create_chat_outcome(outcome, asked, id, users, updated, now));
    outcome
}

/// What follows the creation of a chat once it is known whether the chat
/// could be written. `written` is the outcome of writing `made.chat`, and
/// `Ok` where the chat was there and nothing was written. After a failure
/// the call fails, and nobody is told. Else the listeners to chats are
/// told of the chat, and the chat is the answer.
pub fn chat_after_write(made: Created, written: Result<(), String>) -> (outcome: Result<
    (ChatChanged, Chat),
    Status,
>)
    ensures
        match written {
            Ok(_) => outcome matches Ok(told) && told.0@ == ChatChangedView::Updated(made.chat@)
                && told.1@ == made.chat@,
            Err(error) => outcome matches Err(status) && status@ == (StatusView {
                code: Code::Internal,
                message: "failed to create chat, "@ + error@,
            }),
        },
{
    match written {
        Ok(_) => Ok((ChatChanged::Updated(made.chat.clone()), made.chat)),
        Err(error) => Err(storage_failure("failed to create chat, ", error.as_str())),
    }
}

/// What stands in the way of the invitation: the store has failed, the
/// chat or the invited user is unknown, or the invited user does not
/// listen to invitations, which `listens` tells.
pub open spec fn invite_obstacle(
    invitation: Invitation,
    chat: Result<Option<Chat>, String>,
    user: Result<Option<User>, String>,
    listens: bool,
) -> Option<StatusView> {
    match chat {
        Err(error) => Some(
            StatusView { code: Code::Internal, message: "failed read chats, "@ + error@ },
        ),
        Ok(None) => Some(
            StatusView {
                code: Code::NotFound,
                message: "chat "@ + decimal(invitation.chat_id as nat) + " does not exist"@,
            },
        ),
        Ok(Some(_)) => match user {
            Err(error) => Some(StatusView { code: Code::Internal, message: error@ }),
            Ok(None) => Some(
                StatusView {
                    code: Code::NotFound,
                    message: "user "@ + decimal(invitation.to_user_id as nat)
                        + " is not registered"@,
                },
            ),
            Ok(Some(_)) => if listens {
                None
            } else {
                Some(
                    StatusView {
                        code: Code::NotFound,
                        message: "did not subscribe"@,
                    },
                )
            },
        },
    }
}

impl<UC, IC: Clone, CC, PC> ChatRoomImpl<UC, IC, CC, PC> {
    /// Finds the channel on which `invitation` goes to the invited user.
    /// `chat` and `user` are what reading the chat and the invited user has
    /// given. The invitation is not kept: if the invited user does not
    /// listen now, the inviting one learns it at once.
    pub fn invite_user(
        &self,
        invitation: &Invitation,
        chat: Result<Option<Chat>, String>,
        user: Result<Option<User>, String>,
    ) -> (outcome: Result<IC, Status>)
        ensures
            match invite_obstacle(
                *invitation,
                chat,
                user,
                self.invitations_listeners@.contains_key(invitation.to_user_id),
            ) {
                Some(obstacle) => outcome matches Err(status) && status@ == obstacle,
                None => outcome matches Ok(channel) && cloned(
                    self.invitations_listeners@[invitation.to_user_id],
                    channel,
                ),
            },
    {
        match chat {
            Err(error) => {
                return Err(storage_failure("failed read chats, ", error.as_str()));
            },
            Ok(None) => {
                let number = number_text(invitation.chat_id);
                return Err(
                    Status::not_found(joined3("chat ", number.as_str(), " does not exist")),
                );
            },
            Ok(Some(_)) => {},
        }
        match user {
            Err(error) => {
                return Err(Status::internal(error));
            },
            Ok(None) => {
                let number = number_text(invitation.to_user_id);
                return Err(
                    Status::not_found(joined3("user ", number.as_str(), " is not registered")),
                );
            },
            Ok(Some(_)) => {},
        }
        match self.invitations_listeners.get(invitation.to_user_id) {
            Some(channel) => Ok(channel.clone()),
            None => Err(Status::not_found(String::from_str("did not subscribe"))),
        }
    }
}

/// The answer to an invitation, once it is known whether it could be sent.
pub fn invitation_sent(sent: bool) -> (outcome: Result<RpcResult, Status>)
    ensures
        if sent {
            outcome matches Ok(reply) && reply@ == (RpcResultView {
                ok: true,
                description: "invitation has been sent"@,
            })
        } else {
            outcome matches Err(status) && status@ == (StatusView {
                code: Code::Internal,
                message: "failed to send invitation"@,
            })
        },
{
    if sent {
        Ok(done("invitation has been sent"))
    } else {
        Err(Status::internal(String::from_str("failed to send invitation")))
    }
}

/// What a change to the members of a chat answers with when the chat is
/// unknown or the store has failed.
pub open spec fn update_obstacle(updated: Result<Option<Chat>, String>) -> Option<StatusView> {
    match updated {
        Ok(Some(_)) => None,
        Ok(None) => Some(StatusView { code: Code::NotFound, message: "chat does not exist"@ }),
        Err(error) => Some(
            StatusView { code: Code::Internal, message: "failed access chats, "@ + error@ },
        ),
    }
}

/// The failure for `updated`, which is not a chat.
fn update_failure(updated: Result<Option<Chat>, String>) -> (status: Status)
    requires
        update_obstacle(updated) is Some,
    ensures
        Some(status@) == update_obstacle(updated),
{
    match updated {
        Err(error) => storage_failure("failed access chats, ", error.as_str()),
        _ => Status::not_found(String::from_str("chat does not exist")),
    }
}

/// The change that `enter_chat` asks the store to make.
pub fn enter_chat_edit(reference: &ChatReference) -> (edit: ChatEdit)
    ensures
        edit == ChatEdit::Enter(reference.user_id),
{
    ChatEdit::Enter(reference.user_id)
}

/// The change that `leave_chat` asks the store to make.
pub fn leave_chat_edit(reference: &ChatReference) -> (edit: ChatEdit)
    ensures
        edit == ChatEdit::Leave(reference.user_id),
{
    ChatEdit::Leave(reference.user_id)
}

/// What follows when a user has entered a chat. `updated` is what the
/// conditional update of the chat with `enter_chat_edit` has returned. The
/// listeners to chats are told of the chat, also where the user was a
/// member already and nothing was written.
pub fn enter_chat(updated: Result<Option<Chat>, String>) -> (outcome: Result<
    (ChatChanged, RpcResult),
    Status,
>)
    ensures
        match update_obstacle(updated) {
            Some(obstacle) => outcome matches Err(status) && status@ == obstacle,
            None => outcome matches Ok(entered) && updated matches Ok(Some(chat))
                && entered.0@ == ChatChangedView::Updated(chat@) && entered.1@ == (RpcResultView {
                ok: true,
                description: "entered the chat"@,
            }),
        },
{
    match updated {
        Ok(Some(chat)) => Ok((ChatChanged::Updated(chat), done("entered the chat"))),
        other => Err(update_failure(other)),
    }
}

/// Whether `chat` is closed once it is as it is: it is not permanent and
/// has no member left.
pub open spec fn closes(chat: ChatView) -> bool {
    !chat.permanent && chat.users.len() == 0
}

/// What the listeners to chats are told when a user has left the chat
/// `chat_id`, which is `chat` now.
pub open spec fn left_notification(chat_id: ChatId, chat: ChatView) -> ChatChangedView {
    if closes(chat) {
        ChatChangedView::Closed(chat_id)
    } else {
        ChatChangedView::Updated(chat)
    }
}

/// What follows when a user has left a chat.
#[derive(Debug, PartialEq)]
pub struct Left {
    /// Whether the chat, and its posts with it, is to be removed.
    pub remove: bool,
    /// What the listeners to chats are told.
    pub notification: ChatChanged,
    pub reply: RpcResult,
}

/// What follows when a user has left the chat that `reference` names.
/// `updated` is what the conditional update of the chat with
/// `leave_chat_edit` has returned. A chat that is not permanent and has
/// lost its last member is closed: it is to be removed with its posts, and
/// the listeners to chats are told that it is closed.
pub fn leave_chat(reference: &ChatReference, updated: Result<Option<Chat>, String>) -> (outcome:
    Result<Left, Status>)
    ensures
        match update_obstacle(updated) {
            Some(obstacle) => outcome matches Err(status) && status@ == obstacle,
            None => outcome matches Ok(left) && updated matches Ok(Some(chat))
                && left.remove == closes(chat@) && left.notification@ == left_notification(
                reference.chat_id,
                chat@,
            ) && left.reply@ == (RpcResultView { ok: true, description: "left the chat"@ }),
        },
{
    match updated {
        Ok(Some(chat)) => {
            if !chat.permanent && chat.users.len() == 0 {
                Ok(
                    Left {
                        remove: true,
                        notification: ChatChanged::Closed(reference.chat_id),
                        reply: done("left the chat"),
                    },
                )
            } else {
                Ok(
                    Left {
                        remove: false,
                        notification: ChatChanged::Updated(chat),
                        reply: done("left the chat"),
                    },
                )
            }
        },
        other => Err(update_failure(other)),
    }
}

} // verus!
