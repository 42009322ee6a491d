//! The chat room as a whole: what each call does to the store and to the
//! set of users that are online, and what holds of the chat room whatever
//! calls are made.
//!
//! A step is the effect of one call, put together from the decisions of the
//! service and the operations of the store in the order in which the call
//! makes them.

use crate::events::{chat_visible, chats_update_of, ChatChangedView};
use crate::identity::{described_chat_id, user_id_of};
use crate::proto::{
    ChatId, ChatInfoView, ChatReference, ChatView, PostId, PostView, RegistrationInfo, UserId,
    UserInfoView, NOT_POST_ID,
};
use crate::seqs::{lemma_filter_members, lemma_filter_push};
use crate::server_service::{
    chat_members, closes, create_chat_edit, created, first_chats_update, is_visible_to,
    left_notification, one_after_another, planned_chat_id, registered, stamped,
};
use crate::storage::{updated_chat, without, ChatEdit, StoreView};
use vstd::prelude::*;

verus! {

/// The store, and who is online.
pub struct RoomView {
    pub store: StoreView,
    pub online: Set<UserId>,
}

/// A registration with `info` at the time `now`: the chat room after it,
/// and the answer.
pub open spec fn register_step(room: RoomView, info: UserInfoView, now: u64) -> (
    RoomView,
    RegistrationInfo,
) {
    let id = user_id_of(info);
    let plan = registered(info, room.store.read_user(id), now);
    let store = match plan.store {
        Some(user) => room.store.write_user(id, user),
        None => room.store,
    };
    (RoomView { store, online: room.online.insert(id) }, plan.reply)
}

/// The creation of the chat `id` that `info` asks for, at the time `now`:
/// the store after it, and the chat that is the answer.
pub open spec fn create_chat_step(store: StoreView, info: ChatInfoView, id: ChatId, now: u64) -> (
    StoreView,
    ChatView,
) {
    let edit = create_chat_edit(info);
    let updated = store.update_chat(id, edit);
    let (chat, is_new) = created(
        info,
        id,
        chat_members(info),
        updated_chat(store.read_chat(id), edit),
        now,
    );
    (
        if is_new {
            updated.write_chat(id, chat)
        } else {
            updated
        },
        chat,
    )
}

/// A user enters a chat: the store after it, and what the listeners to
/// chats are told; nothing, where the chat is unknown.
pub open spec fn enter_chat_step(store: StoreView, reference: ChatReference) -> (
    StoreView,
    Option<ChatChangedView>,
) {
    let edit = ChatEdit::Enter(reference.user_id);
    match updated_chat(store.read_chat(reference.chat_id), edit) {
        Some(chat) => (
            store.update_chat(reference.chat_id, edit),
            Some(ChatChangedView::Updated(chat)),
        ),
        None => (store, None),
    }
}

/// A user leaves a chat: the store after it, and what the listeners to
/// chats are told; nothing, where the chat is unknown.
pub open spec fn leave_chat_step(store: StoreView, reference: ChatReference) -> (
    StoreView,
    Option<ChatChangedView>,
) {
    let edit = ChatEdit::Leave(reference.user_id);
    match updated_chat(store.read_chat(reference.chat_id), edit) {
        Some(chat) => {
            let updated = store.update_chat(reference.chat_id, edit);
            (
                if closes(chat) {
                    updated.remove_chat(reference.chat_id)
                } else {
                    updated
                },
                Some(left_notification(reference.chat_id, chat)),
            )
        },
        None => (store, None),
    }
}

/// A post comes in and gets the id `id` at the time `now`: the store after
/// it, and the post as the members of its chat get it; nothing, where the
/// post is refused.
pub open spec fn create_post_step(store: StoreView, post: PostView, id: PostId, now: u64) -> (
    StoreView,
    Option<PostView>,
) {
    if post.id != NOT_POST_ID {
        (store, None)
    } else {
        (store.write_post(stamped(post, id, now)), Some(stamped(post, id, now)))
    }
}

/// The posts that the stream of posts of a subscriber starts with, when
/// `chats` are the chats of which it is a member.
pub open spec fn replayed(store: StoreView, chats: Seq<ChatId>) -> Seq<PostView> {
    one_after_another(chats.map_values(|chat_id: ChatId| store.chat_posts(chat_id)))
}

/// The test that a post belongs to the chat `chat_id`.
pub open spec fn in_chat(chat_id: ChatId) -> spec_fn(PostView) -> bool {
    |post: PostView| post.chat_id == chat_id
}

/// Who registers twice gets the same id and the same date of registration
/// both times, whenever the second registration is made, and the second
/// registration leaves the chat room as the first has left it.
pub proof fn law_register_again(room: RoomView, info: UserInfoView, first: u64, second: u64)
    ensures
        ({
            let (once, answer) = register_step(room, info, first);
            let (twice, again) = register_step(once, info, second);
            &&& again == answer
            &&& answer.registration == Some(crate::proto::Registration { user_id: user_id_of(info) })
            &&& twice == once
        }),
{
    let (once, answer) = register_step(room, info, first);
    let (twice, again) = register_step(once, info, second);
    assert(once.online.insert(user_id_of(info)) =~= once.online);
}

/// A description that is not empty decides the chat: whoever asks, and
/// with whatever else, means the same chat.
pub proof fn law_description_decides_chat(one: ChatInfoView, other: ChatInfoView)
    requires
        one.description.len() > 0,
        other.description == one.description,
    ensures
        planned_chat_id(one) == Some(described_chat_id(one.description)),
        planned_chat_id(other) == planned_chat_id(one),
{
}

/// Without a description the members decide the chat, as a set: neither
/// who of them asks, nor the order in which the others are named, nor a
/// name that is given twice makes it another chat.
pub proof fn law_members_decide_dialog(one: ChatInfoView, other: ChatInfoView)
    requires
        one.description.len() == 0,
        other.description.len() == 0,
        one.auto_enter,
        other.auto_enter,
        one.desired_users.to_set().insert(one.user_id) == other.desired_users.to_set().insert(
            other.user_id,
        ),
    ensures
        planned_chat_id(one) is Some,
        planned_chat_id(other) == planned_chat_id(one),
        chat_members(other) == chat_members(one),
{
}

/// Every call keeps the posts in order: each post that is stored has an id
/// and lies under a chat that is there. For a new post this asks that its
/// chat is there and that the id drawn for it is not zero.
pub proof fn law_posts_stay_in_order(
    room: RoomView,
    info: UserInfoView,
    chat: ChatInfoView,
    chat_id: ChatId,
    reference: ChatReference,
    post: PostView,
    post_id: PostId,
    now: u64,
)
    requires
        room.store.posts_in_order(),
    ensures
        register_step(room, info, now).0.store.posts_in_order(),
        create_chat_step(room.store, chat, chat_id, now).0.posts_in_order(),
        enter_chat_step(room.store, reference).0.posts_in_order(),
        leave_chat_step(room.store, reference).0.posts_in_order(),
        room.store.chats.contains_key(post.chat_id) && post_id != NOT_POST_ID ==> create_post_step(
            room.store,
            post,
            post_id,
            now,
        ).0.posts_in_order(),
{
    let store = room.store;
    let after = register_step(room, info, now).0.store;
    assert forall|c: ChatId, i: int|
        after.posts.contains_key(c) && 0 <= i < after.posts[c].len() implies #[trigger] after.post_in_order(
        c,
        i,
    ) by {
        assert(store.post_in_order(c, i));
    }
    let after = create_chat_step(store, chat, chat_id, now).0;
    assert forall|c: ChatId, i: int|
        after.posts.contains_key(c) && 0 <= i < after.posts[c].len() implies #[trigger] after.post_in_order(
        c,
        i,
    ) by {
        assert(store.post_in_order(c, i));
    }
    let after = enter_chat_step(store, reference).0;
    assert forall|c: ChatId, i: int|
        after.posts.contains_key(c) && 0 <= i < after.posts[c].len() implies #[trigger] after.post_in_order(
        c,
        i,
    ) by {
        assert(store.post_in_order(c, i));
    }
    let after = leave_chat_step(store, reference).0;
    assert forall|c: ChatId, i: int|
        after.posts.contains_key(c) && 0 <= i < after.posts[c].len() implies #[trigger] after.post_in_order(
        c,
        i,
    ) by {
        assert(store.post_in_order(c, i));
    }
    if store.chats.contains_key(post.chat_id) && post_id != NOT_POST_ID {
        let after = create_post_step(store, post, post_id, now).0;
        assert forall|c: ChatId, i: int|
            after.posts.contains_key(c) && 0 <= i < after.posts[c].len() implies #[trigger] after.post_in_order(
            c,
            i,
        ) by {
            if post.id == NOT_POST_ID && c == post.chat_id {
                if i < store.chat_posts(c).len() {
                    assert(store.post_in_order(c, i));
                }
            } else {
                assert(store.post_in_order(c, i));
            }
        }
    }
}

/// When the last member leaves a chat that is not permanent, the chat and
/// all its posts are gone from the store, and the listeners to chats are
/// told that it is closed.
pub proof fn law_last_member_closes_chat(store: StoreView, reference: ChatReference)
    requires
        store.read_chat(reference.chat_id) matches Some(chat) && !chat.permanent && without(
            chat.users,
            reference.user_id,
        ).len() == 0,
    ensures
        ({
            let (after, told) = leave_chat_step(store, reference);
            &&& after.read_chat(reference.chat_id) is None
            &&& after.chat_posts_count(reference.chat_id) == 0
            &&& told == Some(ChatChangedView::Closed(reference.chat_id))
        }),
{
}

/// A user that enters a chat of which it is a member changes nothing: the
/// store is the same, and the listeners are told of the chat as it was.
pub proof fn law_enter_again_changes_nothing(store: StoreView, reference: ChatReference)
    requires
        store.read_chat(reference.chat_id) matches Some(chat) && chat.users.contains(
            reference.user_id,
        ),
    ensures
        enter_chat_step(store, reference) == (
            store,
            Some(ChatChangedView::Updated(store.chats[reference.chat_id])),
        ),
{
}

/// Two users that create a chat with the same description and enter it
/// have one chat between them, and both are its members. The store holds
/// no other chat than before.
pub proof fn law_same_description_one_chat(
    store: StoreView,
    one: ChatInfoView,
    other: ChatInfoView,
    first: u64,
    second: u64,
)
    requires
        one.description.len() > 0,
        other.description == one.description,
        one.auto_enter,
        other.auto_enter,
    ensures
        ({
            let id = described_chat_id(one.description);
            let (once, made) = create_chat_step(store, one, id, first);
            let (twice, found) = create_chat_step(once, other, id, second);
            &&& planned_chat_id(one) == Some(id)
            &&& planned_chat_id(other) == Some(id)
            &&& twice.read_chat(id) == Some(found)
            &&& found.users.contains(one.user_id)
            &&& found.users.contains(other.user_id)
            &&& twice.chats.dom() == store.chats.dom().insert(id)
        }),
{
    let id = described_chat_id(one.description);
    let (once, made) = create_chat_step(store, one, id, first);
    let (twice, found) = create_chat_step(once, other, id, second);
    assert(made.users.contains(one.user_id)) by {
        if store.chats.contains_key(id) {
            let before = store.chats[id];
            if !before.users.contains(one.user_id) {
                assert(before.users.push(one.user_id)[before.users.len() as int] == one.user_id);
            }
        } else {
            lemma_members_hold(one);
        }
    }
    assert(once.read_chat(id) == Some(made));
    assert(found.users.contains(one.user_id) && found.users.contains(other.user_id)) by {
        if !made.users.contains(other.user_id) {
            let grown = made.users.push(other.user_id);
            assert(grown[made.users.len() as int] == other.user_id);
            let at = choose|i: int| 0 <= i < made.users.len() && made.users[i] == one.user_id;
            assert(grown[at] == one.user_id);
        }
    }
    assert(twice.chats.dom() =~= store.chats.dom().insert(id));
}

/// The members that a new chat starts with hold the creator and everybody
/// that it names, and nobody else.
pub proof fn lemma_members_hold(info: ChatInfoView)
    requires
        info.auto_enter,
    ensures
        chat_members(info).to_set() == info.desired_users.to_set().insert(info.user_id),
        chat_members(info).contains(info.user_id),
{
    let all = info.desired_users.push(info.user_id);
    crate::seqs::lemma_push_to_set(info.desired_users, info.user_id);
    crate::ascending::lemma_sorted_set_exists(all);
    assert(chat_members(info).to_set().contains(info.user_id));
}

/// A post that comes with an id is refused, and the store stays as it is.
pub proof fn law_post_with_id_refused(store: StoreView, post: PostView, id: PostId, now: u64)
    requires
        post.id != NOT_POST_ID,
    ensures
        create_post_step(store, post, id, now) == (store, None::<PostView>),
{
}

/// A post that is taken is stored with an id, as the last post of its chat.
pub proof fn law_post_is_appended(store: StoreView, post: PostView, id: PostId, now: u64)
    requires
        post.id == NOT_POST_ID,
        id != NOT_POST_ID,
    ensures
        ({
            let (after, sent) = create_post_step(store, post, id, now);
            &&& sent == Some(stamped(post, id, now))
            &&& after.chat_posts(post.chat_id) == store.chat_posts(post.chat_id).push(
                stamped(post, id, now),
            )
            &&& stamped(post, id, now).id != NOT_POST_ID
        }),
{
}

/// A second logout changes nothing: who has no subscription and is not
/// online is left so.
pub proof fn law_logout_again<C>(listeners: Map<UserId, C>, online: Set<UserId>, user_id: UserId)
    ensures
        listeners.remove(user_id).remove(user_id) == listeners.remove(user_id),
        online.remove(user_id).remove(user_id) == online.remove(user_id),
        !listeners.remove(user_id).contains_key(user_id),
        !online.remove(user_id).contains(user_id),
{
    assert(listeners.remove(user_id).remove(user_id) =~= listeners.remove(user_id));
    assert(online.remove(user_id).remove(user_id) =~= online.remove(user_id));
}

/// The stream of chats of a user never shows a chat that the user may not
/// see: neither in its first message nor for a change.
pub proof fn law_stream_shows_only_visible(
    stored: Seq<ChatView>,
    change: ChatChangedView,
    user_id: UserId,
)
    ensures
        forall|i: int|
            0 <= i < first_chats_update(stored, user_id).updated.len() ==> chat_visible(
                #[trigger] first_chats_update(stored, user_id).updated[i],
                user_id,
            ),
        forall|update: crate::proto::UpdateChatsView, i: int|
            chats_update_of(change, user_id) == Some(update) && 0 <= i < update.updated.len()
                ==> chat_visible(#[trigger] update.updated[i], user_id),
{
    let shown = first_chats_update(stored, user_id).updated;
    lemma_filter_members(stored, is_visible_to(user_id));
    assert forall|i: int| 0 <= i < shown.len() implies chat_visible(#[trigger] shown[i], user_id) by {
        assert(shown.contains(shown[i]));
    }
}

/// What the stream of posts starts with holds, for each chat of the
/// subscriber, the posts of that chat in the order in which they were
/// stored, and nothing else.
pub proof fn law_replay_keeps_order(store: StoreView, chats: Seq<ChatId>, chat_id: ChatId)
    requires
        store.posts_in_order(),
        chats.no_duplicates(),
    ensures
        replayed(store, chats).filter(in_chat(chat_id)) == if chats.contains(chat_id) {
            store.chat_posts(chat_id)
        } else {
            Seq::empty()
        },
    decreases chats.len(),
{
    let lists = chats.map_values(|c: ChatId| store.chat_posts(c));
    if chats.len() == 0 {
        assert(replayed(store, chats) =~= Seq::<PostView>::empty());
        assert(replayed(store, chats).filter(in_chat(chat_id)) =~= Seq::<PostView>::empty()) by {
            reveal(Seq::filter);
        }
    } else {
        let rest = chats.drop_last();
        let last = chats.last();
        law_replay_keeps_order(store, rest, chat_id);
        assert(lists.drop_last() =~= rest.map_values(|c: ChatId| store.chat_posts(c)));
        assert(replayed(store, chats) == replayed(store, rest) + store.chat_posts(last));
        Seq::filter_distributes_over_add(
            replayed(store, rest),
            store.chat_posts(last),
            in_chat(chat_id),
        );
        lemma_posts_of_one_chat(store, last, chat_id);
        if chats.contains(chat_id) {
            let at = choose|i: int| 0 <= i < chats.len() && chats[i] == chat_id;
            if at == chats.len() - 1 {
                assert(!rest.contains(chat_id)) by {
                    if rest.contains(chat_id) {
                        let j = choose|j: int| 0 <= j < rest.len() && rest[j] == chat_id;
                        assert(chats[j] == chats[at]);
                    }
                }
                assert(Seq::<PostView>::empty() + store.chat_posts(last) =~= store.chat_posts(
                    last,
                ));
            } else {
                assert(rest[at] == chat_id);
                assert(rest.contains(chat_id));
                assert(last != chat_id);
                assert(store.chat_posts(chat_id) + Seq::<PostView>::empty() =~= store.chat_posts(
                    chat_id,
                ));
            }
        } else {
            assert(!rest.contains(chat_id)) by {
                if rest.contains(chat_id) {
                    let j = choose|j: int| 0 <= j < rest.len() && rest[j] == chat_id;
                    assert(chats[j] == chat_id);
                }
            }
            assert(last != chat_id) by {
                assert(chats[chats.len() - 1] == last);
            }
            assert(Seq::<PostView>::empty() + Seq::<PostView>::empty() =~= Seq::<
                PostView,
            >::empty());
        }
    }
}

/// The store after `written` are written to it, one after the other.
pub open spec fn store_after(store: StoreView, written: Seq<PostView>) -> StoreView
    decreases written.len(),
{
    if written.len() == 0 {
        store
    } else {
        store_after(store, written.drop_last()).write_post(written.last())
    }
}

/// The test that a post belongs to one of `chats`.
pub open spec fn in_chats(chats: Seq<ChatId>) -> spec_fn(PostView) -> bool {
    |post: PostView| chats.contains(post.chat_id)
}

/// What the stream of posts of a subscriber delivers while nothing fails
/// and the subscriber stays a member of `chats` and of no other chat: first
/// the posts that `store` holds for these chats, then of the posts
/// `written` since, in the order in which they were written, those that
/// belong to these chats.
pub open spec fn streamed(store: StoreView, chats: Seq<ChatId>, written: Seq<PostView>) -> Seq<
    PostView,
> {
    replayed(store, chats) + written.filter(in_chats(chats))
}

/// The posts that a stream of posts delivers for one chat of the
/// subscriber are the posts of that chat as the store holds them then, in
/// the order of the store: none is missing, none comes twice, none is out
/// of its place.
pub proof fn law_stream_keeps_order(
    store: StoreView,
    chats: Seq<ChatId>,
    written: Seq<PostView>,
    chat_id: ChatId,
)
    requires
        store.posts_in_order(),
        chats.no_duplicates(),
        chats.contains(chat_id),
    ensures
        streamed(store, chats, written).filter(in_chat(chat_id)) == store_after(
            store,
            written,
        ).chat_posts(chat_id),
{
    Seq::filter_distributes_over_add(
        replayed(store, chats),
        written.filter(in_chats(chats)),
        in_chat(chat_id),
    );
    law_replay_keeps_order(store, chats, chat_id);
    lemma_posts_of_own_chats(written, chats, chat_id);
    lemma_written_posts_follow(store, written, chat_id);
}

/// Of the posts of some chats, those of one of these chats are all the
/// posts of that chat.
pub proof fn lemma_posts_of_own_chats(written: Seq<PostView>, chats: Seq<ChatId>, chat_id: ChatId)
    requires
        chats.contains(chat_id),
    ensures
        written.filter(in_chats(chats)).filter(in_chat(chat_id)) == written.filter(
            in_chat(chat_id),
        ),
    decreases written.len(),
{
    if written.len() == 0 {
        assert(written.filter(in_chats(chats)) =~= Seq::<PostView>::empty()) by {
            reveal(Seq::filter);
        }
        assert(written.filter(in_chat(chat_id)) =~= Seq::<PostView>::empty()) by {
            reveal(Seq::filter);
        }
    } else {
        let rest = written.drop_last();
        let last = written.last();
        lemma_posts_of_own_chats(rest, chats, chat_id);
        assert(written =~= rest.push(last));
        lemma_filter_push(rest, last, in_chats(chats));
        lemma_filter_push(rest, last, in_chat(chat_id));
        if chats.contains(last.chat_id) {
            lemma_filter_push(rest.filter(in_chats(chats)), last, in_chat(chat_id));
        }
    }
}

/// The posts of a chat after some posts are written are those that it had,
/// and behind them those of the written posts that belong to it, in the
/// order in which they were written.
pub proof fn lemma_written_posts_follow(store: StoreView, written: Seq<PostView>, chat_id: ChatId)
    ensures
        store_after(store, written).chat_posts(chat_id) == store.chat_posts(chat_id)
            + written.filter(in_chat(chat_id)),
    decreases written.len(),
{
    if written.len() == 0 {
        assert(written.filter(in_chat(chat_id)) =~= Seq::<PostView>::empty()) by {
            reveal(Seq::filter);
        }
        assert(store.chat_posts(chat_id) + Seq::<PostView>::empty() =~= store.chat_posts(
            chat_id,
        ));
    } else {
        let rest = written.drop_last();
        let last = written.last();
        lemma_written_posts_follow(store, rest, chat_id);
        assert(written =~= rest.push(last));
        lemma_filter_push(rest, last, in_chat(chat_id));
        crate::storage::law_write_post_appends(store_after(store, rest), last);
        if last.chat_id == chat_id {
            assert(store_after(store, written).chat_posts(chat_id) =~= store.chat_posts(chat_id)
                + written.filter(in_chat(chat_id)));
        }
    }
}

/// In a store that is in order, the posts of a chat are all its own.
pub proof fn lemma_posts_of_one_chat(store: StoreView, holder: ChatId, chat_id: ChatId)
    requires
        store.posts_in_order(),
    ensures
        store.chat_posts(holder).filter(in_chat(chat_id)) == if holder == chat_id {
            store.chat_posts(holder)
        } else {
            Seq::empty()
        },
{
    let posts = store.chat_posts(holder);
    assert forall|i: int| 0 <= i < posts.len() implies (#[trigger] posts[i]).chat_id == holder by {
        assert(store.post_in_order(holder, i));
    }
    lemma_filter_all_or_none(posts, in_chat(chat_id), holder == chat_id);
}

/// A filter that keeps every element keeps the sequence, and one that
/// keeps none leaves nothing.
pub proof fn lemma_filter_all_or_none<A>(s: Seq<A>, keep: spec_fn(A) -> bool, all: bool)
    requires
        forall|i: int| 0 <= i < s.len() ==> keep(#[trigger] s[i]) == all,
    ensures
        s.filter(keep) == if all {
            s
        } else {
            Seq::empty()
        },
    decreases s.len(),
{
    reveal(Seq::filter);
    if s.len() == 0 {
        assert(s.filter(keep) =~= s);
    } else {
        let rest = s.drop_last();
        assert forall|i: int| 0 <= i < rest.len() implies keep(#[trigger] rest[i]) == all by {
            assert(rest[i] == s[i]);
        }
        lemma_filter_all_or_none(rest, keep, all);
        assert(keep(s[s.len() - 1]) == all);
        if all {
            assert(rest.push(s.last()) =~= s);
        }
    }
}

} // verus!
