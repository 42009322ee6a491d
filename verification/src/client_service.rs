//! What a client and its user interface tell each other.

use crate::proto::{
    Chat, ChatId, ChatInfo, HistoryParams, Invitation, Post, User, UserId, UserInfo,
};
use vstd::prelude::*;

verus! {

/// A stretch of the posts of one chat, as the chat room handed it out.
pub struct ChatHistory {
    pub chat_id: ChatId,
    /// The position in the chat of the first post in `posts`.
    pub idx_from: usize,
    pub posts: Vec<Post>,
}

/// What the chat room has told the client.
pub enum ChatRoomEvent {
    /// The id under which this client is registered.
    Registered(UserId),
    UserInfo(User),
    UserEntered(UserId),
    UserGone(UserId),
    /// A chat, and how many posts it held before.
    ChatUpdated(Chat, usize),
    ChatDeleted(ChatId),
    Invitation(Invitation),
    NewPost(Post),
    History(ChatHistory),
}

/// What the user interface asks the client to do.
pub enum Command {
    Register(UserInfo),
    CreateChat(ChatInfo),
    Invite(Invitation),
    EnterChat(ChatId),
    Post(Post),
    Exit,
    GetHistory(HistoryParams),
}

} // verus!
