//! Stable identifiers: the id of a user follows from the names it registers
//! with, the id of a chat from its description or from its members, and a
//! post gets a random id that is never zero.

use crate::ascending::{ascending, lemma_increasing_ascends, lemma_sorted_set_of, sorted_set};
use crate::proto::{
    ChatId, PostId, UserId, UserInfo, UserInfoView, NOT_CHAT_ID, NOT_POST_ID, NOT_USER_ID,
};
use crate::seqs::lemma_push_to_set;
use fxhash::FxHasher64;
use std::collections::BTreeSet;
use std::hash::Hasher;
use vstd::bytes::{spec_u64_to_le_bytes, u64_to_le_bytes};
use vstd::prelude::*;
use vstd::std_specs::iter::IteratorSpec;
use vstd::string::StrSliceExecFns;
use vstd::utf8::encode_utf8;

verus! {

/// What `fxhash::FxHasher64` returns from `finish` after it was made by
/// `default` and fed each element of `chunks` by one call of `write`, in order.
pub uninterp spec fn fx_hash64(chunks: Seq<Seq<u8>>) -> u64;

/// The byte strings that `chunks` hold.
pub open spec fn chunk_views(chunks: Seq<Vec<u8>>) -> Seq<Seq<u8>> {
    chunks.map_values(|chunk: Vec<u8>| chunk@)
}

/// `FxHasher64::default`, one `Hasher::write` for each chunk, then
/// `Hasher::finish`. The hasher starts from a fixed state, and `write` changes
/// it by the bytes it is given and nothing else, so the result is a function
/// of the chunks. `write` takes the bytes in words of the byte order of the
/// machine: the function is the one of the machine that the library is
/// built for.
#[verifier::external_body]
fn fx_hash_chunks(chunks: &Vec<Vec<u8>>) -> (digest: u64)
    ensures
        digest == fx_hash64(chunk_views(chunks@)),
{
    let mut hasher = FxHasher64::default();
    for chunk in chunks.iter() {
        hasher.write(chunk);
    }
    hasher.finish()
}

/// `rand::random::<u64>()`: any value may come back.
#[verifier::external_body]
fn random_u64() -> u64 {
    rand::random()
}

/// How often a fresh id is drawn before `LAST_RESORT_ID` is taken.
pub const ID_DRAWS: u32 = 16;

/// The id that is taken where zero would come out: when every draw gave
/// zero, and when a hash is zero.
pub const LAST_RESORT_ID: u64 = u64::MAX;

/// The id that a hash gives: the hash itself, but for zero, which stands
/// for "no id" and is never an id. In its place the id is `LAST_RESORT_ID`.
pub open spec fn hashed_id(digest: u64) -> u64 {
    if digest == 0 {
        LAST_RESORT_ID
    } else {
        digest
    }
}

/// The id that the hash `digest` gives. It is never zero.
pub fn id_of_hash(digest: u64) -> (id: u64)
    ensures
        id == hashed_id(digest),
        id != 0,
{
    if digest == 0 {
        LAST_RESORT_ID
    } else {
        digest
    }
}

/// The id of the user that registers with `info`.
pub open spec fn user_id_of(info: UserInfoView) -> UserId {
    hashed_id(fx_hash64(seq![encode_utf8(info.name), encode_utf8(info.short_name)]))
}

/// The id of a chat with the description `description`, which is not empty.
pub open spec fn described_chat_id(description: Seq<char>) -> ChatId {
    hashed_id(fx_hash64(seq![encode_utf8(description)]))
}

/// The id of a chat without description whose members are `members`, in this order.
pub open spec fn listed_chat_id(members: Seq<UserId>) -> ChatId {
    hashed_id(fx_hash64(members.map_values(|id: UserId| spec_u64_to_le_bytes(id))))
}

/// The id of the chat without description that `users` have among themselves:
/// neither the order in `users` nor a repetition changes it.
pub open spec fn dialog_chat_id(users: Seq<UserId>) -> ChatId {
    listed_chat_id(sorted_set(users.to_set()))
}

/// The id of the user that registers with `user`: a hash of its name followed
/// by its short name. The same names always give the same id, and no names
/// give `NOT_USER_ID`.
pub fn get_user_id(user: &UserInfo) -> (id: UserId)
    ensures
        id == user_id_of(user@),
        id != NOT_USER_ID,
{
    let mut chunks: Vec<Vec<u8>> = Vec::new();
    chunks.push(user.name.as_str().as_bytes_vec());
    chunks.push(user.short_name.as_str().as_bytes_vec());
    assert(chunk_views(chunks@) =~= seq![encode_utf8(user@.name), encode_utf8(user@.short_name)]);
    id_of_hash(fx_hash_chunks(&chunks))
}

/// The members of `users`, each once, from the smallest to the largest.
pub fn sorted_members(users: &[UserId]) -> (members: Vec<UserId>)
    ensures
        members@ == sorted_set(users@.to_set()),
        ascending(members@),
        members@.to_set() == users@.to_set(),
{
    let mut set: BTreeSet<UserId> = BTreeSet::new();
    let mut at: usize = 0;
    while at < users.len()
        invariant
            at <= users.len(),
            set@ == users@.take(at as int).to_set(),
        decreases users.len() - at,
    {
        set.insert(users[at]);
        proof {
            assert(users@.take(at + 1) =~= users@.take(at as int).push(users@[at as int]));
            lemma_push_to_set(users@.take(at as int), users@[at as int]);
        }
        at += 1;
    }
    assert(users@.take(users@.len() as int) =~= users@);
    let mut members: Vec<UserId> = Vec::new();
    proof {
        lemma_increasing_ascends(set.iter().remaining());
    }
    for id in it: set.iter()
        invariant
            it.seq().unref().to_set() == set@,
            ascending(it.seq().unref()),
            members@ == it.seq().unref().take(it.index()),
            it.index() == it.seq().len() ==> members@ == it.seq().unref(),
    {
        members.push(*id);
        assert(it.seq().unref().take(it.index() + 1) =~= it.seq().unref().take(it.index()).push(
            *id,
        ));
        assert(it.seq().unref().take(it.seq().len() as int) =~= it.seq().unref());
    }
    proof {
        lemma_sorted_set_of(members@);
    }
    members
}

/// The id of a chat. A description that is not empty decides it alone, so
/// that the same description always means the same chat. Without one, the
/// members decide, whatever their order and however often each is named, so
/// that a dialog is found again by each of its members. With neither, the id
/// is drawn. It is never `NOT_CHAT_ID`.
pub fn get_chat_id(description: &str, users: &[UserId]) -> (id: ChatId)
    ensures
        description@.len() > 0 ==> id == described_chat_id(description@),
        description@.len() == 0 && users@.len() > 0 ==> id == dialog_chat_id(users@),
        id != NOT_CHAT_ID,
{
    if !description.is_empty() {
        let mut chunks: Vec<Vec<u8>> = Vec::new();
        chunks.push(description.as_bytes_vec());
        assert(chunk_views(chunks@) =~= seq![encode_utf8(description@)]);
        id_of_hash(fx_hash_chunks(&chunks))
    } else if users.len() > 0 {
        let members = sorted_members(users);
        let mut chunks: Vec<Vec<u8>> = Vec::new();
        let mut at: usize = 0;
        while at < members.len()
            invariant
                at <= members.len(),
                chunks@.len() == at,
                forall|i: int| 0 <= i < at ==> chunks@[i]@ == spec_u64_to_le_bytes(members@[i]),
            decreases members.len() - at,
        {
            chunks.push(u64_to_le_bytes(members[at]));
            at += 1;
        }
        assert(chunk_views(chunks@) =~= members@.map_values(
            |id: UserId| spec_u64_to_le_bytes(id),
        ));
        id_of_hash(fx_hash_chunks(&chunks))
    } else {
        new_chat_id()
    }
}

/// The first of `draws` that is not zero, or `LAST_RESORT_ID` where all are zero.
pub open spec fn first_nonzero(draws: Seq<u64>) -> u64
    decreases draws.len(),
{
    if draws.len() == 0 {
        LAST_RESORT_ID
    } else if draws[0] != 0 {
        draws[0]
    } else {
        first_nonzero(draws.drop_first())
    }
}

/// The id that a run of draws gives: the first draw that is not zero, the
/// value that stands for "no id". Where every draw is zero, the id is
/// `LAST_RESORT_ID`.
pub fn pick_id(draws: &Vec<u64>) -> (id: u64)
    ensures
        id == first_nonzero(draws@),
        id != 0,
{
    let mut at: usize = 0;
    assert(draws@.skip(0) =~= draws@);
    while at < draws.len()
        invariant
            at <= draws.len(),
            first_nonzero(draws@) == first_nonzero(draws@.skip(at as int)),
        decreases draws.len() - at,
    {
        let ghost rest = draws@.skip(at as int);
        assert(rest[0] == draws@[at as int]);
        assert(rest.drop_first() =~= draws@.skip(at + 1));
        if draws[at] != 0 {
            return draws[at];
        }
        at += 1;
    }
    LAST_RESORT_ID
}

/// Draws random numbers until one is not zero, and at most `ID_DRAWS`: a
/// fair source all but never gives that many zeros in a row.
fn draw_id() -> (id: u64)
    ensures
        id != 0,
        exists|draws: Seq<u64>| 0 < draws.len() <= ID_DRAWS && id == first_nonzero(draws),
{
    let mut draws: Vec<u64> = Vec::new();
    let mut left: u32 = ID_DRAWS;
    loop
        invariant_except_break
            0 < left <= ID_DRAWS,
            draws@.len() == ID_DRAWS - left,
        ensures
            0 < draws@.len() <= ID_DRAWS,
        decreases left,
    {
        let draw = random_u64();
        draws.push(draw);
        left -= 1;
        if draw != 0 || left == 0 {
            break ;
        }
    }
    pick_id(&draws)
}

/// A fresh id for a post: random, and never `NOT_POST_ID`.
pub fn new_post_id() -> (id: PostId)
    ensures
        id != NOT_POST_ID,
        exists|draws: Seq<u64>| 0 < draws.len() <= ID_DRAWS && id == first_nonzero(draws),
{
    draw_id()
}

/// A fresh id for a chat that has neither description nor members: random,
/// and never `NOT_CHAT_ID`.
pub fn new_chat_id() -> (id: ChatId)
    ensures
        id != NOT_CHAT_ID,
        exists|draws: Seq<u64>| 0 < draws.len() <= ID_DRAWS && id == first_nonzero(draws),
{
    draw_id()
}

} // verus!
