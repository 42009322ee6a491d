//! The texts that the screen of a client shows, and where a window that
//! lies over the screen is put.

use crate::proto::{Chat, ChatView, Post, UserId};
use crate::status::{decimal, number_text};
use crate::ui::app::App;
use vstd::prelude::*;
use vstd::string::StringExecFns;

verus! {

impl App {
    /// The short name under which the user `user_id` is known, if it is known.
    pub open spec fn known_as(self, user_id: UserId) -> Option<Seq<char>> {
        if self.user.id == user_id {
            Some(self.user.short_name@)
        } else if App::position_of(self.users@, user_id) < self.users@.len() {
            Some(self.users@[App::position_of(self.users@, user_id)].short_name@)
        } else {
            None
        }
    }

    /// How the user `user_id` is named in a list: by its short name, or by
    /// its id where it is not known.
    pub open spec fn name_of(self, user_id: UserId) -> Seq<char> {
        match self.known_as(user_id) {
            Some(name) => name,
            None => decimal(user_id as nat),
        }
    }
}

/// `text` with `name` behind it, and a comma between them if there is
/// anything before.
pub open spec fn with_name(text: Seq<char>, name: Seq<char>) -> Seq<char> {
    if text.len() > 0 {
        text + ", "@ + name
    } else {
        name
    }
}

/// The title of a dialog among `users`: the short names of the others that
/// are known, in their order.
pub open spec fn dialog_title(app: App, users: Seq<UserId>) -> Seq<char>
    decreases users.len(),
{
    if users.len() == 0 {
        Seq::empty()
    } else {
        let before = dialog_title(app, users.drop_last());
        if users.last() != app.user.id {
            match app.known_as(users.last()) {
                Some(name) => with_name(before, name),
                None => before,
            }
        } else {
            before
        }
    }
}

/// The title of a chat: its description, or for a dialog the names of the
/// others in it.
pub open spec fn chat_title(app: App, chat: ChatView) -> Seq<char> {
    if chat.description.len() > 0 {
        chat.description
    } else {
        dialog_title(app, chat.users)
    }
}

/// The names of `users`, with commas between them.
pub open spec fn listed_names(app: App, users: Seq<UserId>) -> Seq<char>
    decreases users.len(),
{
    if users.len() == 0 {
        Seq::empty()
    } else if users.len() == 1 {
        app.name_of(users[0])
    } else {
        listed_names(app, users.drop_last()) + ", "@ + app.name_of(users.last())
    }
}

/// The line under the title of a chat: the names of its members in
/// brackets, or a word in their place for a dialog and for a chat without
/// members.
pub open spec fn members_line(app: App, chat: ChatView) -> Seq<char> {
    if chat.description.len() == 0 {
        "(private)"@
    } else if listed_names(app, chat.users).len() == 0 {
        "(empty)"@
    } else {
        "("@ + listed_names(app, chat.users) + ")"@
    }
}

/// `title` with the number of posts behind it, if there are any.
pub open spec fn with_count(title: Seq<char>, count: usize) -> Seq<char> {
    if count > 0 {
        title + " ("@ + decimal(count as nat) + ")"@
    } else {
        title
    }
}

/// The title of `chat` in the list of chats.
pub fn chat_description(app: &App, chat: &Chat) -> (text: String)
    ensures
        text@ == chat_title(*app, chat@),
{
    if !chat.description.as_str().is_empty() {
        return chat.description.clone();
    }
    let mut text = String::new();
    let mut at: usize = 0;
    while at < chat.users.len()
        invariant
            at <= chat.users.len(),
            text@ == dialog_title(*app, chat.users@.take(at as int)),
        decreases chat.users.len() - at,
    {
        let id = chat.users[at];
        proof {
            assert(chat.users@.take(at + 1).drop_last() =~= chat.users@.take(at as int));
            assert(chat.users@.take(at + 1).last() == id);
        }
        if id != app.user.id {
            match app.get_user(id) {
                Some(user) => {
                    if !text.as_str().is_empty() {
                        text.append(", ");
                    }
                    text.append(user.short_name.as_str());
                    assert(text@ =~= dialog_title(*app, chat.users@.take(at + 1)));
                },
                None => {},
            }
        }
        at += 1;
    }
    assert(chat.users@.take(chat.users@.len() as int) =~= chat.users@);
    text
}

/// The first line of `chat` in the list of chats: its title, and how many
/// of its posts are here.
pub fn chat_header(app: &App, chat: &Chat) -> (text: String)
    ensures
        text@ == with_count(
            chat_title(*app, chat@),
            app.posts@.filter(crate::ui::app::is_post_of(chat.id)).len() as usize,
        ),
{
    let mut text = chat_description(app, chat);
    let count = app.get_posts_count(chat.id);
    if count > 0 {
        let number = number_text(count as u64);
        text.append(" (");
        text.append(number.as_str());
        text.append(")");
    }
    text
}

/// How the user `user_id` is named in a list.
pub fn user_name(app: &App, user_id: UserId) -> (text: String)
    ensures
        text@ == app.name_of(user_id),
{
    match app.get_user(user_id) {
        Some(user) => user.short_name.clone(),
        None => number_text(user_id),
    }
}

/// The second line of `chat` in the list of chats.
pub fn chat_members(app: &App, chat: &Chat) -> (text: String)
    ensures
        text@ == members_line(*app, chat@),
{
    if chat.description.as_str().is_empty() {
        return "(private)".to_owned();
    }
    let mut names = String::new();
    let mut at: usize = 0;
    while at < chat.users.len()
        invariant
            at <= chat.users.len(),
            names@ == listed_names(*app, chat.users@.take(at as int)),
        decreases chat.users.len() - at,
    {
        proof {
            assert(chat.users@.take(at + 1).drop_last() =~= chat.users@.take(at as int));
            assert(chat.users@.take(at + 1).last() == chat.users@[at as int]);
            assert(chat.users@.take(at + 1)[0] == chat.users@[0]);
        }
        if at > 0 {
            names.append(", ");
        }
        let name = user_name(app, chat.users[at]);
        names.append(name.as_str());
        assert(names@ =~= listed_names(*app, chat.users@.take(at + 1)));
        at += 1;
    }
    assert(chat.users@.take(chat.users@.len() as int) =~= chat.users@);
    if names.as_str().is_empty() {
        "(empty)".to_owned()
    } else {
        let mut text = "(".to_owned();
        text.append(names.as_str());
        text.append(")");
        text
    }
}

/// Who has written `post`, as the list of posts names it: "me" for the
/// user of this client.
pub fn post_author(app: &App, post: &Post) -> (text: String)
    ensures
        text@ == if post.user_id == app.user.id {
            "me"@
        } else {
            app.name_of(post.user_id)
        },
{
    if post.user_id == app.user.id {
        "me".to_owned()
    } else {
        user_name(app, post.user_id)
    }
}

/// The title over the list of posts: the selected chat and the number of
/// its posts that are here.
pub fn posts_title(app: &App) -> (text: String)
    ensures
        !app.has_sel_chat() ==> text@ == "No chat selected"@,
        app.has_sel_chat() ==> exists|chat: Chat|
            app.chats@.values().contains(chat) && text@ == chat_title(*app, chat@) + " ("@
                + decimal(app.posts@.filter(crate::ui::app::is_post_of(chat.id)).len())
                + ")"@,
{
    match app.get_sel_chat() {
        Some(chat) => {
            let mut text = chat_description(app, chat);
            let number = number_text(app.get_posts_count(chat.id) as u64);
            text.append(" (");
            text.append(number.as_str());
            text.append(")");
            assert(app.chats@.values().contains(*chat) && text@ == chat_title(*app, chat@)
                + " ("@ + decimal(
                app.posts@.filter(crate::ui::app::is_post_of(chat.id)).len(),
            ) + ")"@);
            text
        },
        None => "No chat selected".to_owned(),
    }
}

/// Where a window of the size `inner` lies in a stretch of the size
/// `outer`: what is left free before it, its size, and what is left free
/// behind it. The window is cut to the stretch and lies in its middle.
pub fn centered(outer: u16, inner: u16) -> (parts: (u16, u16, u16))
    ensures
        parts.1 == if inner <= outer {
            inner
        } else {
            outer
        },
        parts.0 == (outer - parts.1) / 2,
        parts.0 + parts.1 + parts.2 == outer,
{
    let size = if inner <= outer {
        inner
    } else {
        outer
    };
    let before = (outer - size) / 2;
    (before, size, outer - before - size)
}

} // verus!
