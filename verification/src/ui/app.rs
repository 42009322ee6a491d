//! The state of the user interface of a client: which part has the
//! keyboard, and what the user is typing.

use crate::client_service::Command;
use crate::proto::{Chat, ChatId, ChatInfo, Invitation, Post, User, UserId, UserInfo, NOT_POST_ID, NOT_USER_ID};
use crate::seqs::lemma_filter_push;
use crate::storage::{remove_id, without};
use std::collections::HashMap;
use vstd::prelude::*;

verus! {

/// The parts of the screen.
#[derive(PartialEq, Eq, Clone, Copy, Debug, Structural)]
pub enum Widget {
    App,
    Users,
    Chats,
    Posts,
    Log,
    Input,
}

/// How a part of the screen is drawn.
#[derive(PartialEq, Eq, Clone, Copy, Debug, Structural)]
pub enum State {
    Normal,
    /// The arrow keys move in this part.
    Focused,
    /// This part takes every key.
    Modal,
}

/// What a line of input is for.
#[derive(PartialEq, Eq, Clone, Copy, Debug, Structural)]
pub enum InputResult {
    /// The description of a new chat.
    NewChat,
    /// The text of a new post.
    NewPost,
    /// The short name and the name of the user.
    UserInfo,
}

/// A line of input that the user is typing.
pub struct InputMode {
    pub purpose: InputResult,
    /// What the user is asked for.
    pub title: String,
    /// What the user has typed so far.
    pub text: String,
}

impl InputMode {
    /// An empty line for the description of a new chat.
    pub fn new_chat() -> (mode: Self)
        ensures
            mode.purpose == InputResult::NewChat,
            mode.title@ == "New chat name"@,
            mode.text@ == Seq::<char>::empty(),
    {
        InputMode {
            purpose: InputResult::NewChat,
            title: "New chat name".to_owned(),
            text: String::new(),
        }
    }

    /// An empty line for the text of a new post.
    pub fn new_post() -> (mode: Self)
        ensures
            mode.purpose == InputResult::NewPost,
            mode.title@ == "Post content"@,
            mode.text@ == Seq::<char>::empty(),
    {
        InputMode {
            purpose: InputResult::NewPost,
            title: "Post content".to_owned(),
            text: String::new(),
        }
    }

    /// An empty line for the short name and the name of the user.
    pub fn new_user_info() -> (mode: Self)
        ensures
            mode.purpose == InputResult::UserInfo,
            mode.title@ == "Login, Full Name"@,
            mode.text@ == Seq::<char>::empty(),
    {
        InputMode {
            purpose: InputResult::UserInfo,
            title: "Login, Full Name".to_owned(),
            text: String::new(),
        }
    }
}

/// `String::push`: `c` is put behind the text.
#[verifier::external_body]
fn push_char(text: &mut String, c: char)
    ensures
        final(text)@ == old(text)@.push(c),
{
    text.push(c)
}

/// `String::pop`: the last character is taken off a text that has one.
#[verifier::external_body]
fn pop_char(text: &mut String)
    requires
        old(text)@.len() > 0,
    ensures
        final(text)@ == old(text)@.drop_last(),
{
    text.pop();
}

/// A key that is meant for the viewer of the log.
#[derive(PartialEq, Eq, Clone, Copy, Debug, Structural)]
pub enum LogKey {
    Up,
    Down,
    Left,
    Right,
    Focus,
    Space,
    Minus,
    Plus,
}

/// What the surroundings have to do after a key or an event.
pub enum Reaction {
    Nothing,
    /// Hand the key to the viewer of the log.
    Log(LogKey),
    /// Send the command to the client of the chat room.
    Send(Command),
}

/// The line of a list that is selected after the key "down", in a list of
/// `count` lines.
pub open spec fn next_line(selected: Option<usize>, count: usize) -> Option<usize> {
    if count == 0 {
        None
    } else {
        match selected {
            Some(line) => Some(
                if line < count {
                    (line + 1) as usize
                } else {
                    count
                },
            ),
            None => Some(0),
        }
    }
}

/// The line of a list that is selected after the key "up", in a list of
/// `count` lines.
pub open spec fn previous_line(selected: Option<usize>, count: usize) -> Option<usize> {
    if count == 0 {
        None
    } else {
        match selected {
            Some(line) => Some(
                if line == 0 {
                    0
                } else if line - 1 < count {
                    (line - 1) as usize
                } else {
                    count
                },
            ),
            None => Some(0),
        }
    }
}

/// The test that a post belongs to the chat `chat_id`.
pub open spec fn is_post_of(chat_id: ChatId) -> spec_fn(Post) -> bool {
    |post: Post| post.chat_id == chat_id
}

/// What the user interface of a client knows and shows.
pub struct App {
    pub title: String,
    /// The other users, in the order in which they became known.
    pub users: Vec<User>,
    /// The users that have come online, one entry for each time.
    pub online: Vec<UserId>,
    /// The selected line in the list of users.
    pub users_state: Option<usize>,
    pub chats: HashMap<ChatId, Chat>,
    /// The selected line in the list of chats.
    pub chats_state: Option<usize>,
    /// The posts of all chats, in the order in which they came.
    pub posts: Vec<Post>,
    /// The selected line in the list of posts.
    pub posts_state: Option<usize>,
    pub user_description: String,
    /// The user of this client.
    pub user: User,
    pub extended_log: bool,
    /// The list in which the arrow keys move.
    pub focused: Widget,
    /// The part that takes every key; `Widget::App` when none does.
    pub modal: Widget,
    /// The line that the user is typing, if any.
    pub input: Option<InputMode>,
}

impl App {
    /// The user interface at the start. A user without names is asked for
    /// them first; one with a name is to be registered at once, which the
    /// command says.
    pub fn new(user: UserInfo, extended_log: bool) -> (start: (Self, Option<Command>))
        ensures
            ({
                let (app, command) = start;
                let asks = user@.name.len() == 0 && user@.short_name.len() == 0;
                &&& app.users@.len() == 0
                &&& app.online@.len() == 0
                &&& app.posts@.len() == 0
                &&& app.chats@ == Map::<ChatId, Chat>::empty()
                &&& app.users_state is None && app.chats_state is None && app.posts_state is None
                &&& app.title@ == "MiGChat"@
                &&& app.user_description@ == crate::proto::shown_as(user@.name, user@.short_name)
                &&& app.user.id == NOT_USER_ID
                &&& app.user@.name == user@.name
                &&& app.user@.short_name == user@.short_name
                &&& app.extended_log == extended_log
                &&& app.focused == Widget::Chats
                &&& app.modal == if asks {
                    Widget::Input
                } else {
                    Widget::App
                }
                &&& if asks {
                    &&& command is None
                    &&& app.input matches Some(mode)
                    &&& mode.purpose == InputResult::UserInfo
                    &&& mode.text@.len() == 0
                } else {
                    &&& app.input is None
                    &&& command matches Some(Command::Register(info))
                    &&& info@ == user@
                }
            }),
    {
        let need_user_info = !user.is_set();
        let modal = if need_user_info {
            Widget::Input
        } else {
            Widget::App
        };
        let (input, command) = if need_user_info {
            (Some(InputMode::new_user_info()), None)
        } else {
            (None, Some(Command::Register(user.clone())))
        };
        let app = App {
            title: "MiGChat".to_owned(),
            users: Vec::new(),
            online: Vec::new(),
            users_state: None,
            chats: HashMap::new(),
            chats_state: None,
            posts: Vec::new(),
            posts_state: None,
            user_description: user.to_text(),
            user: User { id: NOT_USER_ID, name: user.name, short_name: user.short_name, created: 0 },
            extended_log,
            focused: Widget::Chats,
            modal,
            input,
        };
        (app, command)
    }

    /// How `widget` is drawn.
    pub fn get_state(&self, widget: Widget) -> (state: State)
        ensures
            state == if widget == self.modal {
                State::Modal
            } else if widget == self.focused {
                State::Focused
            } else {
                State::Normal
            },
    {
        if widget == self.modal {
            State::Modal
        } else if widget == self.focused {
            State::Focused
        } else {
            State::Normal
        }
    }

    /// The line that is selected after the key "down".
    pub fn list_next(selected: Option<usize>, count: usize) -> (line: Option<usize>)
        ensures
            line == next_line(selected, count),
    {
        if count == 0 {
            None
        } else {
            match selected {
                Some(cur) => Some(
                    if cur < count {
                        cur + 1
                    } else {
                        count
                    },
                ),
                None => Some(0),
            }
        }
    }

    /// The line that is selected after the key "up".
    pub fn list_previous(selected: Option<usize>, count: usize) -> (line: Option<usize>)
        ensures
            line == previous_line(selected, count),
    {
        if count == 0 {
            None
        } else {
            match selected {
                Some(cur) => Some(
                    if cur > 0 {
                        if cur - 1 < count {
                            cur - 1
                        } else {
                            count
                        }
                    } else {
                        0
                    },
                ),
                None => Some(0),
            }
        }
    }

    /// The user interface after the key "up" or "down" has moved the
    /// selection in the list that has the focus to `line`.
    pub open spec fn with_line(self, line: Option<usize>) -> App {
        match self.focused {
            Widget::Users => App { users_state: line, ..self },
            Widget::Chats => App { chats_state: line, ..self },
            Widget::Posts => App { posts_state: line, ..self },
            _ => self,
        }
    }

    /// The selected line of the list that has the focus, and how many
    /// lines the list has.
    pub open spec fn focused_list(self) -> (Option<usize>, usize) {
        match self.focused {
            Widget::Users => (self.users_state, self.users@.len() as usize),
            Widget::Chats => (self.chats_state, self.chats@.len() as usize),
            Widget::Posts => (self.posts_state, self.posts@.len() as usize),
            _ => (None, 0),
        }
    }

    /// The key "up": in the log it goes to the viewer of the log, else it
    /// moves the selection in the list that has the focus.
    pub fn on_up(&mut self) -> (key: Option<LogKey>)
        ensures
            key == if old(self).modal == Widget::Log {
                Some(LogKey::Up)
            } else {
                None
            },
            *final(self) == if old(self).modal == Widget::App {
                old(self).with_line(
                    previous_line(old(self).focused_list().0, old(self).focused_list().1),
                )
            } else {
                *old(self)
            },
    {
        match self.modal {
            Widget::Log => Some(LogKey::Up),
            Widget::App => {
                match self.focused {
                    Widget::Users => {
                        self.users_state = App::list_previous(self.users_state, self.users.len());
                    },
                    Widget::Chats => {
                        self.chats_state = App::list_previous(self.chats_state, self.chats.len());
                    },
                    Widget::Posts => {
                        self.posts_state = App::list_previous(self.posts_state, self.posts.len());
                    },
                    _ => {},
                }
                None
            },
            _ => None,
        }
    }

    /// The key "down": in the log it goes to the viewer of the log, else it
    /// moves the selection in the list that has the focus.
    pub fn on_down(&mut self) -> (key: Option<LogKey>)
        ensures
            key == if old(self).modal == Widget::Log {
                Some(LogKey::Down)
            } else {
                None
            },
            *final(self) == if old(self).modal == Widget::App {
                old(self).with_line(
                    next_line(old(self).focused_list().0, old(self).focused_list().1),
                )
            } else {
                *old(self)
            },
    {
        match self.modal {
            Widget::Log => Some(LogKey::Down),
            Widget::App => {
                match self.focused {
                    Widget::Chats => {
                        self.chats_state = App::list_next(self.chats_state, self.chats.len());
                    },
                    Widget::Users => {
                        self.users_state = App::list_next(self.users_state, self.users.len());
                    },
                    Widget::Posts => {
                        self.posts_state = App::list_next(self.posts_state, self.posts.len());
                    },
                    _ => {},
                }
                None
            },
            _ => None,
        }
    }

    /// The list to the right of `widget`, or `widget` where there is none.
    pub open spec fn right_of(widget: Widget) -> Widget {
        match widget {
            Widget::Users => Widget::Chats,
            Widget::Chats => Widget::Posts,
            other => other,
        }
    }

    /// The list to the left of `widget`, or `widget` where there is none.
    pub open spec fn left_of(widget: Widget) -> Widget {
        match widget {
            Widget::Chats => Widget::Users,
            Widget::Posts => Widget::Chats,
            other => other,
        }
    }

    /// The key "right": in the log it goes to the viewer of the log, else
    /// the focus moves to the next list.
    pub fn on_right(&mut self) -> (key: Option<LogKey>)
        ensures
            key == if old(self).modal == Widget::Log {
                Some(LogKey::Right)
            } else {
                None
            },
            *final(self) == if old(self).modal == Widget::App {
                App { focused: App::right_of(old(self).focused), ..*old(self) }
            } else {
                *old(self)
            },
    {
        match self.modal {
            Widget::Log => Some(LogKey::Right),
            Widget::App => {
                match self.focused {
                    Widget::Users => {
                        self.focused = Widget::Chats;
                    },
                    Widget::Chats => {
                        self.focused = Widget::Posts;
                    },
                    _ => {},
                }
                None
            },
            _ => None,
        }
    }

    /// The key "left": in the log it goes to the viewer of the log, else
    /// the focus moves to the list before.
    pub fn on_left(&mut self) -> (key: Option<LogKey>)
        ensures
            key == if old(self).modal == Widget::Log {
                Some(LogKey::Left)
            } else {
                None
            },
            *final(self) == if old(self).modal == Widget::App {
                App { focused: App::left_of(old(self).focused), ..*old(self) }
            } else {
                *old(self)
            },
    {
        match self.modal {
            Widget::Log => Some(LogKey::Left),
            Widget::App => {
                match self.focused {
                    Widget::Chats => {
                        self.focused = Widget::Users;
                    },
                    Widget::Posts => {
                        self.focused = Widget::Chats;
                    },
                    _ => {},
                }
                None
            },
            _ => None,
        }
    }

    /// The key "escape": it closes a line of input, unless the line asks
    /// for the user's names, and takes the selection off the list that has
    /// the focus. Whatever else is modal stops being so.
    pub fn on_esc(&mut self)
        ensures
            *final(self) == match old(self).modal {
                Widget::Input => match old(self).input {
                    Some(mode) => if mode.purpose != InputResult::UserInfo {
                        App { modal: Widget::App, ..*old(self) }
                    } else {
                        *old(self)
                    },
                    None => *old(self),
                },
                Widget::App => old(self).with_line(None),
                _ => App { modal: Widget::App, ..*old(self) },
            },
    {
        match self.modal {
            Widget::Input => {
                let leave = match &self.input {
                    Some(mode) => mode.purpose != InputResult::UserInfo,
                    None => false,
                };
                if leave {
                    self.modal = Widget::App;
                }
            },
            Widget::App => match self.focused {
                Widget::Users => {
                    self.users_state = None;
                },
                Widget::Chats => {
                    self.chats_state = None;
                },
                Widget::Posts => {
                    self.posts_state = None;
                },
                _ => {},
            },
            _ => {
                self.modal = Widget::App;
            },
        }
    }

    /// The key "backspace": it takes the last character off the line that
    /// the user is typing.
    pub fn on_backspace(&mut self)
        ensures
            match old(self).input {
                Some(mode) => final(self).input matches Some(after) && after.purpose == mode.purpose
                    && after.title == mode.title && after.text@ == if mode.text@.len() > 0 {
                    mode.text@.drop_last()
                } else {
                    mode.text@
                },
                None => final(self).input is None,
            },
            *final(self) == (App { input: final(self).input, ..*old(self) }),
    {
        match self.input.take() {
            Some(mode) => {
                let mut mode = mode;
                if !mode.text.as_str().is_empty() {
                    pop_char(&mut mode.text);
                }
                self.input = Some(mode);
            },
            None => {},
        }
    }

    /// A tick of the clock: nothing happens.
    pub fn on_tick(&mut self)
        ensures
            *final(self) == *old(self),
    {
    }

    /// The chat in the selected line of the list of chats, which shows the
    /// chats in the order in which the map hands them out.
    pub fn get_sel_chat(&self) -> (chat: Option<&Chat>)
        ensures
            match chat {
                Some(found) => self.chats_state matches Some(line) && line < self.chats@.len()
                    && self.chats@.values().contains(*found),
                None => self.chats_state matches Some(line) ==> line >= self.chats@.len(),
            },
    {
        match self.chats_state {
            Some(line) => {
                let mut at: usize = 0;
                for chat in it: self.chats.values()
                    invariant
                        it.seq().unref().to_set() == self.chats@.values(),
                        it.seq().len() == self.chats@.len(),
                        at == it.index(),
                        at <= line,
                        self.chats_state == Some(line),
                {
                    if at == line {
                        assert(at < it.seq().len());
                        assert(it.seq().unref()[at as int] == *chat);
                        assert(it.seq().unref().to_set().contains(it.seq().unref()[at as int]));
                        assert(self.chats@.values().contains(*chat));
                        return Some(chat);
                    }
                    at += 1;
                }
                None
            },
            None => None,
        }
    }

    /// The chat with the id `chat_id`.
    pub fn get_chat(&self, chat_id: ChatId) -> (chat: Option<&Chat>)
        ensures
            match chat {
                Some(found) => self.chats@.contains_key(chat_id) && *found == self.chats@[chat_id],
                None => !self.chats@.contains_key(chat_id),
            },
    {
        self.chats.get(&chat_id)
    }

    /// How many of the posts belong to the chat `chat_id`.
    pub fn get_posts_count(&self, chat_id: ChatId) -> (count: usize)
        ensures
            count == self.posts@.filter(is_post_of(chat_id)).len(),
    {
        let mut count: usize = 0;
        let mut at: usize = 0;
        while at < self.posts.len()
            invariant
                at <= self.posts.len(),
                count <= at,
                count == self.posts@.take(at as int).filter(is_post_of(chat_id)).len(),
            decreases self.posts.len() - at,
        {
            proof {
                assert(self.posts@.take(at + 1) =~= self.posts@.take(at as int).push(
                    self.posts@[at as int],
                ));
                lemma_filter_push(
                    self.posts@.take(at as int),
                    self.posts@[at as int],
                    is_post_of(chat_id),
                );
            }
            if self.posts[at].chat_id == chat_id {
                count += 1;
            }
            at += 1;
        }
        assert(self.posts@.take(self.posts@.len() as int) =~= self.posts@);
        count
    }

    /// The posts of the chat `chat_id`, in the order in which they came.
    pub fn get_chat_posts(&self, chat_id: ChatId) -> (posts: Vec<&Post>)
        ensures
            posts@.map_values(|post: &Post| *post) == self.posts@.filter(is_post_of(chat_id)),
    {
        let mut posts: Vec<&Post> = Vec::new();
        let mut at: usize = 0;
        while at < self.posts.len()
            invariant
                at <= self.posts.len(),
                posts@.map_values(|post: &Post| *post) == self.posts@.take(at as int).filter(
                    is_post_of(chat_id),
                ),
            decreases self.posts.len() - at,
        {
            let ghost before = posts@.map_values(|post: &Post| *post);
            proof {
                assert(self.posts@.take(at + 1) =~= self.posts@.take(at as int).push(
                    self.posts@[at as int],
                ));
                lemma_filter_push(
                    self.posts@.take(at as int),
                    self.posts@[at as int],
                    is_post_of(chat_id),
                );
            }
            if self.posts[at].chat_id == chat_id {
                posts.push(&self.posts[at]);
                assert(posts@.map_values(|post: &Post| *post) =~= before.push(
                    self.posts@[at as int],
                ));
            }
            at += 1;
        }
        assert(self.posts@.take(self.posts@.len() as int) =~= self.posts@);
        posts
    }

    /// The posts of the selected chat, in the order in which they came;
    /// none, where no chat is selected.
    pub fn get_sel_posts(&self) -> (posts: Vec<&Post>)
        ensures
            !self.has_sel_chat() ==> posts@.len() == 0,
            self.has_sel_chat() ==> exists|chat: Chat|
                self.chats@.values().contains(chat) && posts@.map_values(|post: &Post| *post)
                    == self.posts@.filter(is_post_of(chat.id)),
    {
        match self.get_sel_chat() {
            Some(chat) => {
                let posts = self.get_chat_posts(chat.id);
                assert(self.chats@.values().contains(*chat) && posts@.map_values(
                    |post: &Post| *post,
                ) == self.posts@.filter(is_post_of(chat.id)));
                posts
            },
            None => Vec::new(),
        }
    }

    /// The user in the selected line of the list of users.
    pub fn get_sel_user(&self) -> (user: Option<&User>)
        ensures
            user == match self.users_state {
                Some(line) => if line < self.users@.len() {
                    Some(&self.users@[line as int])
                } else {
                    None
                },
                None => None,
            },
    {
        match self.users_state {
            Some(line) => if line < self.users.len() {
                Some(&self.users[line])
            } else {
                None
            },
            None => None,
        }
    }

    /// The position of the first of `users` with the id `user_id`, or the
    /// length of `users` if none has it.
    pub open spec fn position_of(users: Seq<User>, user_id: UserId) -> int
        decreases users.len(),
    {
        if users.len() == 0 {
            0
        } else if users[0].id == user_id {
            0
        } else {
            1 + App::position_of(users.drop_first(), user_id)
        }
    }

    /// `position_of` is the length of the stretch without the id.
    pub proof fn lemma_position_of(users: Seq<User>, user_id: UserId, at: int)
        requires
            0 <= at <= users.len(),
            forall|i: int| 0 <= i < at ==> users[i].id != user_id,
            at < users.len() ==> users[at].id == user_id,
        ensures
            App::position_of(users, user_id) == at,
        decreases users.len(),
    {
        if users.len() > 0 && at > 0 {
            let rest = users.drop_first();
            assert forall|i: int| 0 <= i < at - 1 implies rest[i].id != user_id by {
                assert(rest[i] == users[i + 1]);
            }
            App::lemma_position_of(rest, user_id, at - 1);
        }
    }

    /// The place of the user `user_id` among the other users.
    pub fn find_user(&self, user_id: UserId) -> (at: usize)
        ensures
            at == App::position_of(self.users@, user_id),
            at <= self.users@.len(),
    {
        let mut at: usize = 0;
        while at < self.users.len()
            invariant
                at <= self.users.len(),
                forall|i: int| 0 <= i < at ==> self.users@[i].id != user_id,
            ensures
                at < self.users.len() ==> self.users@[at as int].id == user_id,
            decreases self.users.len() - at,
        {
            if self.users[at].id == user_id {
                break ;
            }
            at += 1;
        }
        proof {
            App::lemma_position_of(self.users@, user_id, at as int);
        }
        at
    }

    /// The user with the id `user_id`: the user of this client, or the
    /// first of the other users with that id.
    pub fn get_user(&self, user_id: UserId) -> (user: Option<&User>)
        ensures
            user == if self.user.id == user_id {
                Some(&self.user)
            } else if App::position_of(self.users@, user_id) < self.users@.len() {
                Some(&self.users@[App::position_of(self.users@, user_id)])
            } else {
                None
            },
    {
        if self.user.id == user_id {
            Some(&self.user)
        } else {
            let at = self.find_user(user_id);
            if at < self.users.len() {
                Some(&self.users[at])
            } else {
                None
            }
        }
    }

    /// The text that shows `user`.
    pub fn get_user_description(user: &User) -> (text: String)
        ensures
            text@ == crate::proto::shown_as(user@.name, user@.short_name),
    {
        user.to_text()
    }

    /// The chat room has registered the user of this client as `user_id`.
    pub fn on_registered(&mut self, user_id: UserId)
        ensures
            final(self).user.id == user_id,
            final(self).user.name == old(self).user.name,
            final(self).user.short_name == old(self).user.short_name,
            final(self).user.created == old(self).user.created,
            *final(self) == (App { user: final(self).user, ..*old(self) }),
    {
        self.user.id = user_id;
    }

    /// The chat room has told of `user`: it joins the other users, unless
    /// a user with its id is among them.
    pub fn on_user_info(&mut self, user: User)
        ensures
            final(self).users@ == if App::position_of(old(self).users@, user.id) < old(
                self,
            ).users@.len() {
                old(self).users@
            } else {
                old(self).users@.push(user)
            },
            *final(self) == (App { users: final(self).users, ..*old(self) }),
    {
        let at = self.find_user(user.id);
        if at >= self.users.len() {
            self.users.push(user);
        }
    }

    /// The user `id` has come online.
    pub fn on_user_entered(&mut self, id: UserId)
        ensures
            final(self).online@ == old(self).online@.push(id),
            *final(self) == (App { online: final(self).online, ..*old(self) }),
    {
        self.online.push(id);
    }

    /// The user `id` has gone offline.
    pub fn on_user_gone(&mut self, id: UserId)
        ensures
            final(self).online@ == without(old(self).online@, id),
            *final(self) == (App { online: final(self).online, ..*old(self) }),
    {
        self.online = remove_id(&self.online, id);
    }

    /// The chat room has told of `chat`, which is new or has changed.
    pub fn on_chat_updated(&mut self, chat: Chat)
        ensures
            final(self).chats@ == old(self).chats@.insert(chat.id, chat),
            *final(self) == (App { chats: final(self).chats, ..*old(self) }),
    {
        self.chats.insert(chat.id, chat);
    }

    /// The user of this client is invited to a chat, and enters it at once.
    pub fn on_get_invited(&mut self, invitation: Invitation) -> (command: Command)
        ensures
            command matches Command::EnterChat(chat_id) && chat_id == invitation.chat_id,
            *final(self) == *old(self),
    {
        Command::EnterChat(invitation.chat_id)
    }

    /// A post has come.
    pub fn on_new_post(&mut self, post: Post)
        ensures
            final(self).posts@ == old(self).posts@.push(post),
            *final(self) == (App { posts: final(self).posts, ..*old(self) }),
    {
        self.posts.push(post);
    }

    /// The chat `chat_id` has been closed.
    pub fn on_chat_deleted(&mut self, chat_id: ChatId)
        ensures
            final(self).chats@ == old(self).chats@.remove(chat_id),
            *final(self) == (App { chats: final(self).chats, ..*old(self) }),
    {
        self.chats.remove(&chat_id);
    }

    /// Whether a line of the list of chats is selected that shows a chat.
    pub open spec fn has_sel_chat(self) -> bool {
        self.chats_state matches Some(line) && line < self.chats@.len()
    }

    /// `after` is `self` with a fresh line of input for `purpose`, which
    /// takes every key from now on.
    pub open spec fn asks_for(self, after: App, purpose: InputResult) -> bool {
        &&& after.input matches Some(mode)
        &&& mode.purpose == purpose
        &&& mode.text@.len() == 0
        &&& after == (App { modal: Widget::Input, input: after.input, ..self })
    }

    /// `after` is `self` with `c` behind what the user has typed.
    pub open spec fn typed(self, after: App, c: char) -> bool {
        match self.input {
            Some(mode) => {
                &&& after.input matches Some(longer)
                &&& longer.purpose == mode.purpose
                &&& longer.title == mode.title
                &&& longer.text@ == mode.text@.push(c)
                &&& after == (App { input: after.input, ..self })
            },
            None => after == self,
        }
    }

    /// `invitation` asks the selected user into one of the chats, in the
    /// name of the user of this client.
    pub open spec fn invites(self, invitation: Invitation) -> bool {
        &&& self.users_state matches Some(line)
        &&& line < self.users@.len()
        &&& invitation.to_user_id == self.users@[line as int].id
        &&& invitation.from_user_id == self.user.id
        &&& exists|chat: Chat|
            self.chats@.values().contains(chat) && invitation.chat_id == chat.id
    }

    /// What a key other than "quit" does outside a line of input: `after`
    /// and `reaction` are what becomes of `self`.
    pub open spec fn key_effect(
        self,
        after: App,
        reaction: Reaction,
        c: char,
        ctrl: bool,
        alt: bool,
    ) -> bool {
        if c == ' ' || c == '-' || c == '+' {
            &&& after == self
            &&& if self.modal == Widget::Log {
                reaction matches Reaction::Log(key) && key == if c == ' ' {
                    LogKey::Space
                } else if c == '-' {
                    LogKey::Minus
                } else {
                    LogKey::Plus
                }
            } else {
                reaction is Nothing
            }
        } else if c == 'n' && ctrl && self.focused == Widget::Chats {
            reaction is Nothing && self.asks_for(after, InputResult::NewChat)
        } else if c == 'n' && ctrl && self.focused == Widget::Posts {
            reaction is Nothing && self.asks_for(after, InputResult::NewPost)
        } else if c == 'p' && self.has_sel_chat() {
            reaction is Nothing && self.asks_for(after, InputResult::NewPost)
        } else if c == 'i' && alt && self.focused == Widget::Chats && self.has_sel_chat() {
            reaction is Nothing && self.asks_for(after, InputResult::NewPost)
        } else if c == 'i' && alt && self.focused == Widget::Users && self.has_sel_chat()
            && (self.users_state matches Some(line) && line < self.users@.len()) {
            &&& after == self
            &&& reaction matches Reaction::Send(Command::Invite(invitation))
            &&& self.invites(invitation)
        } else {
            after == self && reaction is Nothing
        }
    }

    /// A key with a character. "q" with the control key asks to leave the
    /// chat room, wherever the keyboard is. A line of input takes every
    /// other character. Else the key is a command of its own.
    pub fn on_key(&mut self, c: char, ctrl: bool, alt: bool) -> (reaction: Reaction)
        ensures
            if ctrl && c == 'q' {
                *final(self) == *old(self) && reaction matches Reaction::Send(Command::Exit)
            } else if old(self).modal == Widget::Input {
                old(self).typed(*final(self), c) && reaction is Nothing
            } else {
                old(self).key_effect(*final(self), reaction, c, ctrl, alt)
            },
    {
        if ctrl && c == 'q' {
            return Reaction::Send(Command::Exit);
        }
        if self.modal == Widget::Input {
            match self.input.take() {
                Some(mode) => {
                    let mut mode = mode;
                    push_char(&mut mode.text, c);
                    self.input = Some(mode);
                },
                None => {},
            }
            return Reaction::Nothing;
        }
        if c == ' ' {
            if self.modal == Widget::Log {
                return Reaction::Log(LogKey::Space);
            }
        } else if c == '-' {
            if self.modal == Widget::Log {
                return Reaction::Log(LogKey::Minus);
            }
        } else if c == '+' {
            if self.modal == Widget::Log {
                return Reaction::Log(LogKey::Plus);
            }
        } else if c == 'n' {
            if ctrl {
                match self.focused {
                    Widget::Chats => {
                        self.modal = Widget::Input;
                        self.input = Some(InputMode::new_chat());
                    },
                    Widget::Posts => {
                        self.modal = Widget::Input;
                        self.input = Some(InputMode::new_post());
                    },
                    _ => {},
                }
            }
        } else if c == 'p' {
            if self.get_sel_chat().is_some() {
                self.modal = Widget::Input;
                self.input = Some(InputMode::new_post());
            }
        } else if c == 'i' {
            if alt {
                match self.focused {
                    Widget::Users => {
                        let invitation = match (self.get_sel_user(), self.get_sel_chat()) {
                            (Some(user), Some(chat)) => Some(
                                Invitation {
                                    chat_id: chat.id,
                                    from_user_id: self.user.id,
                                    to_user_id: user.id,
                                },
                            ),
                            _ => None,
                        };
                        match invitation {
                            Some(invitation) => {
                                return Reaction::Send(Command::Invite(invitation));
                            },
                            None => {},
                        }
                    },
                    Widget::Chats => {
                        if self.get_sel_chat().is_some() {
                            self.modal = Widget::Input;
                            self.input = Some(InputMode::new_post());
                        }
                    },
                    _ => {},
                }
            }
        }
        Reaction::Nothing
    }

    /// `after` is `self` with the line of input closed.
    pub open spec fn closed_input(self, after: App) -> bool {
        after == (App { input: None, modal: Widget::App, ..self })
    }

    /// What the key "enter" does to a line of input `mode`: `after` and
    /// `reaction` are what becomes of `self`. The description of a new chat
    /// asks for a permanent chat with this user and the selected user in
    /// it. The text of a new post goes to the selected chat, if there is
    /// one. The names of the user are taken if they can be read, and the
    /// user is registered with them; else the line stays open.
    pub open spec fn entered(self, mode: InputMode, after: App, reaction: Reaction) -> bool {
        match mode.purpose {
            InputResult::NewChat => {
                &&& self.closed_input(after)
                &&& reaction matches Reaction::Send(Command::CreateChat(info))
                &&& info.user_id == self.user.id
                &&& info.permanent
                &&& info.auto_enter
                &&& info.description@ == mode.text@
                &&& info.desired_users@ == match self.users_state {
                    Some(line) => if line < self.users@.len() {
                        seq![self.users@[line as int].id]
                    } else {
                        seq![]
                    },
                    None => seq![],
                }
            },
            InputResult::NewPost => {
                &&& self.closed_input(after)
                &&& if self.has_sel_chat() {
                    &&& reaction matches Reaction::Send(Command::Post(post))
                    &&& post.id == NOT_POST_ID
                    &&& post.user_id == self.user.id
                    &&& post.text@ == mode.text@
                    &&& post.attachments@.len() == 0
                    &&& post.created == 0
                    &&& exists|chat: Chat|
                        self.chats@.values().contains(chat) && post.chat_id == chat.id
                } else {
                    reaction is Nothing
                }
            },
            InputResult::UserInfo => match crate::proto::parsed_user(mode.text@) {
                Some(names) => {
                    &&& reaction matches Reaction::Send(Command::Register(info))
                    &&& info@ == names
                    &&& after.user_description@ == crate::proto::shown_as(
                        names.name,
                        names.short_name,
                    )
                    &&& after.user.id == self.user.id
                    &&& after.user.created == self.user.created
                    &&& after.user.name@ == names.name
                    &&& after.user.short_name@ == names.short_name
                    &&& after == (App {
                        input: None,
                        modal: Widget::App,
                        user: after.user,
                        user_description: after.user_description,
                        ..self
                    })
                },
                None => after == self && reaction is Nothing,
            },
        }
    }

    /// The key "enter": in the log it goes to the viewer of the log; in a
    /// line of input it takes what the user has typed.
    pub fn on_enter(&mut self) -> (reaction: Reaction)
        ensures
            match old(self).modal {
                Widget::Log => *final(self) == *old(self) && reaction matches Reaction::Log(
                    LogKey::Focus,
                ),
                Widget::Input => match old(self).input {
                    Some(mode) => old(self).entered(mode, *final(self), reaction),
                    None => old(self).closed_input(*final(self)) && reaction is Nothing,
                },
                _ => *final(self) == *old(self) && reaction is Nothing,
            },
    {
        match self.modal {
            Widget::Log => Reaction::Log(LogKey::Focus),
            Widget::Input => {
                let reaction = match &self.input {
                    Some(input) => match input.purpose {
                        InputResult::NewChat => {
                            let mut desired_users: Vec<UserId> = Vec::new();
                            match self.get_sel_user() {
                                Some(user) => {
                                    desired_users.push(user.id);
                                },
                                None => {},
                            }
                            assert(desired_users@ =~= match self.users_state {
                                Some(line) => if line < self.users@.len() {
                                    seq![self.users@[line as int].id]
                                } else {
                                    seq![]
                                },
                                None => seq![],
                            });
                            Reaction::Send(
                                Command::CreateChat(
                                    ChatInfo {
                                        user_id: self.user.id,
                                        permanent: true,
                                        auto_enter: true,
                                        description: input.text.clone(),
                                        desired_users,
                                    },
                                ),
                            )
                        },
                        InputResult::NewPost => match self.get_sel_chat() {
                            Some(chat) => Reaction::Send(
                                Command::Post(
                                    Post {
                                        id: NOT_POST_ID,
                                        user_id: self.user.id,
                                        chat_id: chat.id,
                                        text: input.text.clone(),
                                        attachments: Vec::new(),
                                        created: 0,
                                    },
                                ),
                            ),
                            None => Reaction::Nothing,
                        },
                        InputResult::UserInfo => match UserInfo::parse(input.text.as_str()) {
                            Ok(info) => {
                                self.user_description = info.to_text();
                                self.user.name = info.name.clone();
                                self.user.short_name = info.short_name.clone();
                                Reaction::Send(Command::Register(info))
                            },
                            Err(_) => {
                                return Reaction::Nothing;
                            },
                        },
                    },
                    None => Reaction::Nothing,
                };
                self.input = None;
                self.modal = Widget::App;
                reaction
            },
            _ => Reaction::Nothing,
        }
    }
}

} // verus!
