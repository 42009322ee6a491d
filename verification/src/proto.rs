//! The messages that clients and the chat room exchange, and the records that
//! the chat room keeps.
//!
//! Every message that owns text or a list has a view: the same record with
//! `Seq` in place of `String` and `Vec`. Contracts compare views.

use vstd::prelude::*;
use vstd::std_specs::convert::FromSpecImpl;
use vstd::string::{StrSliceExecFns, StringExecFns};

verus! {

/// Identifier of a chat. Zero is never the id of a chat.
pub type ChatId = u64;

/// Identifier of a user. Zero is never the id of a user.
pub type UserId = u64;

/// Identifier of a post. Zero is never the id of a stored post.
pub type PostId = u64;

/// The value that stands for "no user".
pub const NOT_USER_ID: UserId = 0;

/// The value that stands for "no chat".
pub const NOT_CHAT_ID: ChatId = 0;

/// The value that stands for "no post": a post that has not been given an id yet.
pub const NOT_POST_ID: PostId = 0;

/// What a person tells about themselves when they register.
#[derive(Debug, PartialEq)]
pub struct UserInfo {
    pub name: String,
    pub short_name: String,
}

pub struct UserInfoView {
    pub name: Seq<char>,
    pub short_name: Seq<char>,
}

impl View for UserInfo {
    type V = UserInfoView;

    open spec fn view(&self) -> UserInfoView {
        UserInfoView { name: self.name@, short_name: self.short_name@ }
    }
}

impl Clone for UserInfo {
    fn clone(&self) -> (copy: Self)
        ensures
            copy@ == self@,
    {
        UserInfo { name: self.name.clone(), short_name: self.short_name.clone() }
    }
}

/// A registered user.
#[derive(Debug, PartialEq)]
pub struct User {
    pub id: UserId,
    pub name: String,
    pub short_name: String,
    /// Unix seconds of the first registration.
    pub created: u64,
}

pub struct UserView {
    pub id: UserId,
    pub name: Seq<char>,
    pub short_name: Seq<char>,
    pub created: u64,
}

impl View for User {
    type V = UserView;

    open spec fn view(&self) -> UserView {
        UserView {
            id: self.id,
            name: self.name@,
            short_name: self.short_name@,
            created: self.created,
        }
    }
}

impl DeepView for User {
    type V = UserView;

    open spec fn deep_view(&self) -> UserView {
        self@
    }
}

impl Clone for User {
    fn clone(&self) -> (copy: Self)
        ensures
            copy@ == self@,
    {
        User {
            id: self.id,
            name: self.name.clone(),
            short_name: self.short_name.clone(),
            created: self.created,
        }
    }
}

/// A chat room: a description and the users that are its members.
#[derive(Debug, PartialEq)]
pub struct Chat {
    pub id: ChatId,
    /// A chat that is not permanent is closed when its last member leaves.
    pub permanent: bool,
    /// Empty for a dialog, which only its members can see.
    pub description: String,
    pub users: Vec<UserId>,
    /// Unix seconds of the creation.
    pub created: u64,
}

pub struct ChatView {
    pub id: ChatId,
    pub permanent: bool,
    pub description: Seq<char>,
    pub users: Seq<UserId>,
    pub created: u64,
}

impl View for Chat {
    type V = ChatView;

    open spec fn view(&self) -> ChatView {
        ChatView {
            id: self.id,
            permanent: self.permanent,
            description: self.description@,
            users: self.users@,
            created: self.created,
        }
    }
}

impl DeepView for Chat {
    type V = ChatView;

    open spec fn deep_view(&self) -> ChatView {
        self@
    }
}

impl Clone for Chat {
    fn clone(&self) -> (copy: Self)
        ensures
            copy@ == self@,
    {
        Chat {
            id: self.id,
            permanent: self.permanent,
            description: self.description.clone(),
            users: self.users.clone(),
            created: self.created,
        }
    }
}

/// A message in a chat.
#[derive(Debug, PartialEq)]
pub struct Post {
    /// `NOT_POST_ID` until the chat room accepts the post.
    pub id: PostId,
    pub chat_id: ChatId,
    pub user_id: UserId,
    pub text: String,
    /// Carried through as it came; the chat room never looks inside.
    pub attachments: Vec<u8>,
    /// Unix seconds of the acceptance.
    pub created: u64,
}

pub struct PostView {
    pub id: PostId,
    pub chat_id: ChatId,
    pub user_id: UserId,
    pub text: Seq<char>,
    pub attachments: Seq<u8>,
    pub created: u64,
}

impl View for Post {
    type V = PostView;

    open spec fn view(&self) -> PostView {
        PostView {
            id: self.id,
            chat_id: self.chat_id,
            user_id: self.user_id,
            text: self.text@,
            attachments: self.attachments@,
            created: self.created,
        }
    }
}

impl DeepView for Post {
    type V = PostView;

    open spec fn deep_view(&self) -> PostView {
        self@
    }
}

impl Clone for Post {
    fn clone(&self) -> (copy: Self)
        ensures
            copy@ == self@,
    {
        Post {
            id: self.id,
            chat_id: self.chat_id,
            user_id: self.user_id,
            text: self.text.clone(),
            attachments: self.attachments.clone(),
            created: self.created,
        }
    }
}

/// The token that a registered user shows in every later call.
#[derive(Debug, Clone, Copy, PartialEq, Eq, Structural)]
pub struct Registration {
    pub user_id: UserId,
}

/// The answer to a registration.
#[derive(Debug, Clone, Copy, PartialEq, Eq, Structural)]
pub struct RegistrationInfo {
    pub registration: Option<Registration>,
    /// Unix seconds of the user's first registration.
    pub created: u64,
}

/// A request of one user that another one joins a chat. It is delivered and
/// never stored.
#[derive(Debug, Clone, Copy, PartialEq, Eq, Structural)]
pub struct Invitation {
    pub chat_id: ChatId,
    pub from_user_id: UserId,
    pub to_user_id: UserId,
}

/// Names a chat on behalf of a user.
#[derive(Debug, Clone, Copy, PartialEq, Eq, Structural)]
pub struct ChatReference {
    pub user_id: UserId,
    pub chat_id: ChatId,
}

/// Asks for `count` posts of a chat, from the post at position `idx_from` on.
#[derive(Debug, Clone, Copy, PartialEq, Eq, Structural)]
pub struct HistoryParams {
    pub chat_id: ChatId,
    pub idx_from: u64,
    pub count: u64,
}

/// The request to create a chat.
#[derive(Debug, PartialEq)]
pub struct ChatInfo {
    pub user_id: UserId,
    pub permanent: bool,
    /// Whether the creator, and the users it names, become members at once.
    pub auto_enter: bool,
    pub description: String,
    pub desired_users: Vec<UserId>,
}

pub struct ChatInfoView {
    pub user_id: UserId,
    pub permanent: bool,
    pub auto_enter: bool,
    pub description: Seq<char>,
    pub desired_users: Seq<UserId>,
}

impl View for ChatInfo {
    type V = ChatInfoView;

    open spec fn view(&self) -> ChatInfoView {
        ChatInfoView {
            user_id: self.user_id,
            permanent: self.permanent,
            auto_enter: self.auto_enter,
            description: self.description@,
            desired_users: self.desired_users@,
        }
    }
}

/// The answer to a call that only succeeds or fails.
#[derive(Debug, PartialEq)]
pub struct RpcResult {
    pub ok: bool,
    pub description: String,
}

pub struct RpcResultView {
    pub ok: bool,
    pub description: Seq<char>,
}

impl View for RpcResult {
    type V = RpcResultView;

    open spec fn view(&self) -> RpcResultView {
        RpcResultView { ok: self.ok, description: self.description@ }
    }
}

/// One message of the stream of users: who is new, who came, who went.
#[derive(Debug, PartialEq)]
pub struct UpdateUsers {
    pub added: Vec<User>,
    pub online: Vec<UserId>,
    pub offline: Vec<UserId>,
}

pub struct UpdateUsersView {
    pub added: Seq<UserView>,
    pub online: Seq<UserId>,
    pub offline: Seq<UserId>,
}

impl View for UpdateUsers {
    type V = UpdateUsersView;

    open spec fn view(&self) -> UpdateUsersView {
        UpdateUsersView {
            added: self.added.deep_view(),
            online: self.online@,
            offline: self.offline@,
        }
    }
}

/// One message of the stream of chats: which have changed, which are closed.
#[derive(Debug, PartialEq)]
pub struct UpdateChats {
    pub updated: Vec<Chat>,
    pub gone: Vec<ChatId>,
}

pub struct UpdateChatsView {
    pub updated: Seq<ChatView>,
    pub gone: Seq<ChatId>,
}

impl View for UpdateChats {
    type V = UpdateChatsView;

    open spec fn view(&self) -> UpdateChatsView {
        UpdateChatsView { updated: self.updated.deep_view(), gone: self.gone@ }
    }
}

/// How a user is shown: by its short name, with the name in brackets
/// behind it; by the one of the two that is set; or as not set.
pub open spec fn shown_as(name: Seq<char>, short_name: Seq<char>) -> Seq<char> {
    if name.len() > 0 {
        if short_name.len() > 0 {
            short_name + " ("@ + name + ")"@
        } else {
            name
        }
    } else if short_name.len() > 0 {
        short_name
    } else {
        "<not set>"@
    }
}

/// The text that shows a user with these names.
fn show(name: &str, short_name: &str) -> (text: String)
    ensures
        text@ == shown_as(name@, short_name@),
{
    let has_name = !name.is_empty();
    let has_short = !short_name.is_empty();
    if has_name {
        if has_short {
            let mut text = short_name.to_owned();
            text.append(" (");
            text.append(name);
            text.append(")");
            text
        } else {
            name.to_owned()
        }
    } else if has_short {
        short_name.to_owned()
    } else {
        "<not set>".to_owned()
    }
}

impl User {
    /// The text that shows the user.
    pub fn to_text(&self) -> (text: String)
        ensures
            text@ == shown_as(self@.name, self@.short_name),
    {
        show(self.name.as_str(), self.short_name.as_str())
    }
}

impl From<User> for UserInfo {
    fn from(user: User) -> (info: UserInfo) {
        UserInfo { name: user.name, short_name: user.short_name }
    }
}

impl FromSpecImpl<User> for UserInfo {
    open spec fn obeys_from_spec() -> bool {
        true
    }

    open spec fn from_spec(user: User) -> UserInfo {
        UserInfo { name: user.name, short_name: user.short_name }
    }
}

/// A text that does not say who a user is.
#[derive(Debug, PartialEq)]
pub struct ParseUserError {
    /// The text as it came.
    pub text: String,
}

/// Whether `c` parts the short name from the name.
pub open spec fn is_separator(c: char) -> bool {
    c == ',' || c == ':' || c == ';'
}

/// Whether `char::is_whitespace` finds `c` to be white space.
pub uninterp spec fn is_white_space(c: char) -> bool;

/// `char::is_whitespace`, which depends on `c` alone.
#[verifier::external_body]
fn char_is_whitespace(c: char) -> (white: bool)
    ensures
        white == is_white_space(c),
{
    c.is_whitespace()
}

/// The position of the first separator in `s`, or the length of `s` if it
/// has none.
pub open spec fn first_separator(s: Seq<char>) -> int
    decreases s.len(),
{
    if s.len() == 0 {
        0
    } else if is_separator(s[0]) {
        0
    } else {
        1 + first_separator(s.drop_first())
    }
}

/// `s` without the white space at its start.
pub open spec fn trimmed_start(s: Seq<char>) -> Seq<char>
    decreases s.len(),
{
    if s.len() > 0 && is_white_space(s[0]) {
        trimmed_start(s.drop_first())
    } else {
        s
    }
}

/// `s` without the white space at its end.
pub open spec fn trimmed_end(s: Seq<char>) -> Seq<char>
    decreases s.len(),
{
    if s.len() > 0 && is_white_space(s.last()) {
        trimmed_end(s.drop_last())
    } else {
        s
    }
}

/// `s` without the white space at its start and at its end.
pub open spec fn trimmed(s: Seq<char>) -> Seq<char> {
    trimmed_end(trimmed_start(s))
}

/// Who a text names. The text holds a short name and a name, parted by
/// exactly one separator. The short name is taken as it stands, the name
/// without the white space around it. A text without a separator, or with
/// more than one, names nobody.
pub open spec fn parsed_user(s: Seq<char>) -> Option<UserInfoView> {
    let at = first_separator(s);
    if at < s.len() && first_separator(s.skip(at + 1)) == s.len() - at - 1 {
        Some(UserInfoView { short_name: s.take(at), name: trimmed(s.skip(at + 1)) })
    } else {
        None
    }
}

/// A stretch without separators that ends at a separator, or at the end of
/// the text, ends where the first separator is.
pub proof fn lemma_first_separator(s: Seq<char>, at: int)
    requires
        0 <= at <= s.len(),
        forall|i: int| 0 <= i < at ==> !is_separator(s[i]),
        at < s.len() ==> is_separator(s[at]),
    ensures
        first_separator(s) == at,
    decreases s.len(),
{
    if s.len() > 0 && at > 0 {
        let rest = s.drop_first();
        assert forall|i: int| 0 <= i < at - 1 implies !is_separator(rest[i]) by {
            assert(rest[i] == s[i + 1]);
        }
        lemma_first_separator(rest, at - 1);
    }
}

/// White space at the start does not count.
pub proof fn lemma_trimmed_start(s: Seq<char>, from: int)
    requires
        0 <= from <= s.len(),
        forall|i: int| 0 <= i < from ==> is_white_space(s[i]),
    ensures
        trimmed_start(s) == trimmed_start(s.skip(from)),
    decreases from,
{
    if from > 0 {
        let rest = s.drop_first();
        assert forall|i: int| 0 <= i < from - 1 implies is_white_space(rest[i]) by {
            assert(rest[i] == s[i + 1]);
        }
        lemma_trimmed_start(rest, from - 1);
        assert(rest.skip(from - 1) =~= s.skip(from));
    } else {
        assert(s.skip(0) =~= s);
    }
}

/// White space at the end does not count.
pub proof fn lemma_trimmed_end(s: Seq<char>, to: int)
    requires
        0 <= to <= s.len(),
        forall|i: int| to <= i < s.len() ==> is_white_space(s[i]),
    ensures
        trimmed_end(s) == trimmed_end(s.take(to)),
    decreases s.len() - to,
{
    if to < s.len() {
        let rest = s.drop_last();
        assert(is_white_space(s[s.len() - 1]));
        assert forall|i: int| to <= i < rest.len() implies is_white_space(rest[i]) by {
            assert(rest[i] == s[i]);
        }
        lemma_trimmed_end(rest, to);
        assert(rest.take(to) =~= s.take(to));
    } else {
        assert(s.take(to) =~= s);
    }
}

/// The characters of `s`.
fn chars_of(s: &str) -> (chars: Vec<char>)
    ensures
        chars@ == s@,
{
    broadcast use vstd::string::axiom_spec_iter;

    let mut chars: Vec<char> = Vec::new();
    for c in it: s.chars()
        invariant
            it.seq() == s@,
            chars@ == s@.take(it.index()),
            it.index() == it.seq().len() ==> chars@ == s@,
    {
        chars.push(c);
        assert(s@.take(it.index() + 1) =~= s@.take(it.index()).push(c));
        assert(s@.take(s@.len() as int) =~= s@);
    }
    chars
}

/// The position of the first separator in `chars` from `from` on, or the
/// length of `chars` if there is none.
fn find_separator(chars: &Vec<char>, from: usize) -> (at: usize)
    requires
        from <= chars.len(),
    ensures
        from <= at <= chars.len(),
        at - from == first_separator(chars@.skip(from as int)),
{
    let mut at: usize = from;
    while at < chars.len()
        invariant
            from <= at <= chars.len(),
            forall|i: int| from <= i < at ==> !is_separator(chars@[i]),
        ensures
            at < chars.len() ==> is_separator(chars@[at as int]),
        decreases chars.len() - at,
    {
        let c = chars[at];
        if c == ',' || c == ':' || c == ';' {
            break ;
        }
        at += 1;
    }
    proof {
        let rest = chars@.skip(from as int);
        assert forall|i: int| 0 <= i < at - from implies !is_separator(rest[i]) by {
            assert(rest[i] == chars@[from + i]);
        }
        if at < chars.len() {
            assert(rest[at - from] == chars@[at as int]);
        }
        lemma_first_separator(rest, at - from);
    }
    at
}

impl UserInfo {
    /// Whether the user has a name or a short name: only then it can be
    /// registered.
    pub fn is_set(&self) -> (set: bool)
        ensures
            set == (self@.name.len() > 0 || self@.short_name.len() > 0),
    {
        !self.name.as_str().is_empty() || !self.short_name.as_str().is_empty()
    }

    /// The text that shows the user.
    pub fn to_text(&self) -> (text: String)
        ensures
            text@ == shown_as(self@.name, self@.short_name),
    {
        show(self.name.as_str(), self.short_name.as_str())
    }

    /// Reads who `s` names: a short name, a separator, and a name.
    pub fn parse(s: &str) -> (parsed: Result<UserInfo, ParseUserError>)
        ensures
            match parsed {
                Ok(info) => parsed_user(s@) == Some(info@),
                Err(error) => parsed_user(s@) is None && error.text@ == s@,
            },
    {
        let chars = chars_of(s);
        let at = find_separator(&chars, 0);
        assert(chars@.skip(0) =~= chars@);
        if at >= chars.len() {
            return Err(ParseUserError { text: s.to_owned() });
        }
        let next = find_separator(&chars, at + 1);
        if next < chars.len() {
            return Err(ParseUserError { text: s.to_owned() });
        }
        let ghost rest = chars@.skip(at + 1);
        let mut start: usize = at + 1;
        while start < chars.len() && char_is_whitespace(chars[start])
            invariant
                at + 1 <= start <= chars.len(),
                forall|i: int| at + 1 <= i < start ==> is_white_space(chars@[i]),
            decreases chars.len() - start,
        {
            start += 1;
        }
        let mut end: usize = chars.len();
        while end > start && char_is_whitespace(chars[end - 1])
            invariant
                start <= end <= chars.len(),
                forall|i: int| end <= i < chars.len() ==> is_white_space(chars@[i]),
            decreases end,
        {
            end -= 1;
        }
        proof {
            assert forall|i: int| 0 <= i < start - at - 1 implies is_white_space(rest[i]) by {
                assert(rest[i] == chars@[at + 1 + i]);
            }
            lemma_trimmed_start(rest, start - at - 1);
            let tail = rest.skip(start - at - 1);
            assert(tail =~= chars@.skip(start as int));
            assert forall|i: int| end - start <= i < tail.len() implies is_white_space(tail[i]) by {
                assert(tail[i] == chars@[start + i]);
            }
            if start < chars.len() {
                assert(tail[0] == chars@[start as int]);
            }
            assert(trimmed_start(tail) == tail);
            lemma_trimmed_end(tail, end - start);
            let core = tail.take(end - start);
            assert(core =~= chars@.subrange(start as int, end as int));
            if end > start {
                assert(core.last() == chars@[end - 1]);
            }
            assert(trimmed_end(core) == core);
            assert(chars@.take(at as int) =~= chars@.subrange(0, at as int));
        }
        Ok(
            UserInfo {
                short_name: s.substring_char(0, at).to_owned(),
                name: s.substring_char(start, end).to_owned(),
            },
        )
    }
}

impl std::str::FromStr for UserInfo {
    type Err = ParseUserError;

    fn from_str(s: &str) -> (parsed: Result<Self, Self::Err>)
        ensures
            match parsed {
                Ok(info) => parsed_user(s@) == Some(info@),
                Err(error) => parsed_user(s@) is None && error.text@ == s@,
            },
    {
        UserInfo::parse(s)
    }
}

} // verus!
