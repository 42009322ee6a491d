use migchat::events::{chats_update, delivered_to_all, ChatChanged, UserChanged};
use migchat::identity::{get_chat_id, get_user_id};
use migchat::proto::{
    Chat, ChatInfo, ChatReference, Invitation, Post, Registration, RegistrationInfo, RpcResult,
    UpdateChats, UpdateUsers, User, UserInfo,
};
use migchat::server::ChatRoomImpl;
use migchat::server_service::{
    chat_after_write, create_chat, create_chat_at, create_post, create_post_at, enter_chat,
    enter_chat_edit, invitation_sent, leave_chat, leave_chat_edit, plan_chat, post_after_write,
    registered_after_write, replay_posts, storage_failure,
};
use migchat::status::{Code, Status};
use migchat::storage::{read_chat_posts, update_chat, ChatEdit};
use std::collections::BTreeMap;
use tokio::sync::mpsc;

type Room = ChatRoomImpl<
    mpsc::Sender<UserChanged>,
    mpsc::Sender<Invitation>,
    mpsc::Sender<ChatChanged>,
    mpsc::Sender<Post>,
>;

struct Store {
    users: BTreeMap<u64, User>,
    chats: BTreeMap<u64, Chat>,
    posts: BTreeMap<u64, Vec<Post>>,
}

impl Store {
    fn new() -> Store {
        Store {
            users: BTreeMap::new(),
            chats: BTreeMap::new(),
            posts: BTreeMap::new(),
        }
    }

    fn read_user(&self, id: u64) -> Result<Option<User>, String> {
        Ok(self.users.get(&id).cloned())
    }

    fn read_chat(&self, id: u64) -> Result<Option<Chat>, String> {
        Ok(self.chats.get(&id).cloned())
    }

    fn read_all_chats(&self) -> Result<Vec<Chat>, String> {
        Ok(self.chats.values().cloned().collect())
    }

    fn read_all_users(&self) -> Result<Vec<User>, String> {
        Ok(self.users.values().cloned().collect())
    }

    fn update_chat(&mut self, id: u64, edit: ChatEdit) -> Result<Option<Chat>, String> {
        let (chat, write) = update_chat(self.chats.get(&id).cloned(), edit);
        if write {
            self.chats.insert(id, chat.clone().unwrap());
        }
        Ok(chat)
    }

    fn remove_chat(&mut self, id: u64) {
        self.posts.remove(&id);
        self.chats.remove(&id);
    }

    fn write_post(&mut self, post: &Post) {
        self.posts.entry(post.chat_id).or_default().push(post.clone());
    }

    fn chat_posts(&self, id: u64) -> Vec<Post> {
        self.posts.get(&id).cloned().unwrap_or_default()
    }
}

fn info(name: &str, short_name: &str) -> UserInfo {
    UserInfo {
        name: name.to_string(),
        short_name: short_name.to_string(),
    }
}

fn closed<T>(channel: &mpsc::Sender<T>) -> bool {
    channel.is_closed()
}

fn register(room: &mut Room, store: &mut Store, who: UserInfo, now: u64) -> RegistrationInfo {
    let found = store.read_user(get_user_id(&who));
    let plan = room.register_at(who, found, now).unwrap();
    if let Some(user) = plan.store {
        store.users.insert(user.id, user);
    }
    plan.reply
}

fn create(store: &mut Store, request: ChatInfo, now: u64) -> Chat {
    let plan = plan_chat(&request);
    let id = plan.id;
    let updated = store.update_chat(plan.id, plan.edit);
    let made = create_chat_at(request, plan, updated, now).unwrap();
    if made.store {
        store.chats.insert(id, made.chat.clone());
    }
    made.chat
}

fn leave(store: &mut Store, reference: ChatReference) -> Result<ChatChanged, Status> {
    let updated = store.update_chat(reference.chat_id, leave_chat_edit(&reference));
    let left = leave_chat(&reference, updated)?;
    if left.remove {
        store.remove_chat(reference.chat_id);
    }
    Ok(left.notification)
}

fn post(chat_id: u64, user_id: u64, text: &str) -> Post {
    Post {
        id: 0,
        chat_id,
        user_id,
        text: text.to_string(),
        attachments: Vec::new(),
        created: 0,
    }
}

fn dialog(user_id: u64, desired_users: Vec<u64>) -> ChatInfo {
    ChatInfo {
        user_id,
        permanent: false,
        auto_enter: true,
        description: String::new(),
        desired_users,
    }
}

fn named(user_id: u64, description: &str) -> ChatInfo {
    ChatInfo {
        user_id,
        permanent: true,
        auto_enter: true,
        description: description.to_string(),
        desired_users: Vec::new(),
    }
}

#[test]
fn deterministic_user_id() {
    let mut room = Room::new();
    let mut store = Store::new();
    let first = register(&mut room, &mut store, info("Alice", "al"), 1000);
    assert_eq!(
        first,
        RegistrationInfo {
            registration: Some(Registration {
                user_id: 17035412675986692939
            }),
            created: 1000
        }
    );
    let second = register(&mut room, &mut store, info("Alice", "al"), 1001);
    assert_eq!(second, first);
    assert_eq!(store.users.len(), 1);
    assert_eq!(store.users[&17035412675986692939].created, 1000);
    assert!(room.online_users.is_online(17035412675986692939));
}

#[test]
fn first_registration_announces_the_user() {
    let mut room = Room::new();
    let plan = room.register_at(info("Alice", "al"), Ok(None), 77).unwrap();
    let alice = User {
        id: 17035412675986692939,
        name: "Alice".to_string(),
        short_name: "al".to_string(),
        created: 77,
    };
    assert_eq!(plan.store, Some(alice.clone()));
    assert_eq!(plan.notification, UserChanged::Info(alice.clone()));
    let again = room.register_at(info("Alice", "al"), Ok(Some(alice)), 99).unwrap();
    assert_eq!(again.store, None);
    assert_eq!(again.notification, UserChanged::Online(17035412675986692939));
    assert_eq!(again.reply.created, 77);
}

#[test]
fn registration_fails_with_the_store_but_the_user_is_online() {
    let mut room = Room::new();
    let outcome = room.register_at(info("Alice", "al"), Err("disk full".to_string()), 5);
    assert_eq!(
        outcome,
        Err(Status {
            code: Code::Internal,
            message: "disk full".to_string()
        })
    );
    assert!(room.online_users.is_online(17035412675986692939));
}

#[test]
fn registration_now_takes_the_time_of_the_clock() {
    let mut room = Room::new();
    let plan = room.register(info("Alice", "al"), Ok(None)).unwrap();
    assert_eq!(plan.reply.registration, Some(Registration { user_id: 17035412675986692939 }));
    assert!(plan.reply.created > 1_600_000_000);
    assert_eq!(plan.store.unwrap().created, plan.reply.created);
}

#[test]
fn logout_ends_every_subscription() {
    let mut room = Room::new();
    let mut store = Store::new();
    let me = register(&mut room, &mut store, info("Alice", "al"), 1)
        .registration
        .unwrap();
    let other = register(&mut room, &mut store, info("Bob", "bo"), 2)
        .registration
        .unwrap();
    let (users_tx, mut users_rx) = mpsc::channel(4);
    let (chats_tx, _chats_rx) = mpsc::channel(4);
    let (invitations_tx, _invitations_rx) = mpsc::channel(4);
    let (posts_tx, _posts_rx) = mpsc::channel(4);
    let (other_tx, _other_rx) = mpsc::channel(4);
    room.get_users(me, users_tx, closed, store.read_all_users());
    room.get_chats(me, chats_tx, closed, store.read_all_chats());
    room.get_invitations(me, invitations_tx, closed);
    room.get_posts(me, posts_tx, closed, store.read_all_chats());
    room.get_users(other, other_tx, closed, store.read_all_users());

    let (told, reply) = room.logout(me);
    assert_eq!(told, UserChanged::Offline(me.user_id));
    assert_eq!(
        reply,
        RpcResult {
            ok: true,
            description: "logout successful".to_string()
        }
    );
    assert!(!room.users_listeners.contains(me.user_id));
    assert!(!room.chats_listeners.contains(me.user_id));
    assert!(!room.invitations_listeners.contains(me.user_id));
    assert!(!room.posts_listeners.contains(me.user_id));
    assert!(!room.online_users.is_online(me.user_id));
    assert!(room.users_listeners.contains(other.user_id));
    assert!(room.online_users.is_online(other.user_id));
    assert_eq!(
        users_rx.try_recv(),
        Err(mpsc::error::TryRecvError::Disconnected)
    );

    let (told, reply) = room.logout(me);
    assert_eq!(told, UserChanged::Offline(me.user_id));
    assert!(reply.ok);
    assert!(!room.online_users.is_online(me.user_id));
    assert_eq!(room.users_listeners.len(), 1);
}

#[test]
fn stream_of_users_starts_with_the_others() {
    let mut room = Room::new();
    let mut store = Store::new();
    let alice = register(&mut room, &mut store, info("Alice", "al"), 1)
        .registration
        .unwrap();
    let bob = register(&mut room, &mut store, info("Bob", "bo"), 2)
        .registration
        .unwrap();
    let carol = register(&mut room, &mut store, info("Carol", "ca"), 3)
        .registration
        .unwrap();
    room.logout(carol);
    let (tx, _rx) = mpsc::channel(4);
    let first = room.get_users(alice, tx, closed, store.read_all_users());
    let mut expected: Vec<User> = store
        .users
        .values()
        .filter(|user| user.id != alice.user_id)
        .cloned()
        .collect();
    expected.sort_by_key(|user| user.id);
    assert_eq!(first.added.len(), 2);
    assert_eq!(first.added, expected);
    assert_eq!(first.online, vec![bob.user_id]);
    assert_eq!(first.offline, vec![carol.user_id]);
    assert!(room.users_listeners.contains(alice.user_id));
}

#[test]
fn stream_of_users_starts_empty_when_the_store_fails() {
    let mut room = Room::new();
    let (tx, _rx) = mpsc::channel(4);
    let first = room.get_users(
        Registration { user_id: 1 },
        tx,
        closed,
        Err("broken".to_string()),
    );
    assert_eq!(
        first,
        UpdateUsers {
            added: vec![],
            online: vec![],
            offline: vec![]
        }
    );
    assert!(room.users_listeners.contains(1));
}

#[test]
fn dialog_chat_convergence() {
    let mut room = Room::new();
    let mut store = Store::new();
    let u1 = register(&mut room, &mut store, info("U1", "u1"), 1)
        .registration
        .unwrap()
        .user_id;
    let u2 = register(&mut room, &mut store, info("U2", "u2"), 2)
        .registration
        .unwrap()
        .user_id;
    assert_eq!(u1, 8571848563419517077);
    assert_eq!(u2, 17752885117692393320);
    let first = create(&mut store, dialog(u1, vec![u2]), 10);
    assert_eq!(
        first,
        Chat {
            id: 17695526233484234059,
            permanent: false,
            description: String::new(),
            users: vec![u1, u2],
            created: 10
        }
    );
    let second = create(&mut store, dialog(u2, vec![u1]), 20);
    assert_eq!(second.id, first.id);
    assert!(second.users.contains(&u1));
    assert!(second.users.contains(&u2));
    assert_eq!(second, first);
    assert_eq!(store.chats.len(), 1);
}

#[test]
fn members_decide_a_dialog_as_a_set() {
    let one = plan_chat(&dialog(5, vec![9, 7, 7, 5]));
    let other = plan_chat(&dialog(9, vec![5, 7]));
    assert_eq!(one.users, vec![5, 7, 9]);
    assert_eq!(other.users, vec![5, 7, 9]);
    assert_eq!(one.id, other.id);
    assert_eq!(one.id, get_chat_id("", &[5, 7, 9]));
    assert_eq!(one.edit, ChatEdit::Enter(5));
    assert_eq!(other.edit, ChatEdit::Enter(9));
    assert_ne!(one.id, plan_chat(&dialog(5, vec![9])).id);
}

#[test]
fn description_decides_a_chat() {
    let one = plan_chat(&named(1, "general"));
    let mut request = named(2, "general");
    request.desired_users = vec![3, 4];
    request.permanent = false;
    let other = plan_chat(&request);
    assert_eq!(one.id, 6171625894992300034);
    assert_eq!(other.id, one.id);
    assert_eq!(one.users, vec![1]);
    assert_eq!(other.users, vec![2, 3, 4]);
}

#[test]
fn chat_without_members_and_description_gets_a_drawn_id() {
    let request = ChatInfo {
        user_id: 1,
        permanent: true,
        auto_enter: false,
        description: String::new(),
        desired_users: vec![2, 3],
    };
    let plan = plan_chat(&request);
    assert_ne!(plan.id, 0);
    assert_eq!(plan.users, Vec::<u64>::new());
    assert_eq!(plan.edit, ChatEdit::Keep);
}

#[test]
fn same_description_gives_one_chat_with_both_users() {
    let mut store = Store::new();
    let first = create(&mut store, named(1, "general"), 10);
    assert_eq!(first.users, vec![1]);
    let second = create(&mut store, named(2, "general"), 20);
    assert_eq!(second.id, first.id);
    assert_eq!(second.users, vec![1, 2]);
    assert_eq!(second.created, 10);
    assert_eq!(store.chats.len(), 1);
    assert_eq!(store.chats[&first.id], second);
}

#[test]
fn creating_a_chat_again_without_entering_returns_it_unchanged() {
    let mut store = Store::new();
    let first = create(&mut store, named(1, "general"), 10);
    let mut request = named(2, "general");
    request.auto_enter = false;
    let second = create(&mut store, request, 20);
    assert_eq!(second, first);
}

#[test]
fn creating_a_chat_fails_with_the_store() {
    let request = named(1, "general");
    let plan = plan_chat(&request);
    assert_eq!(
        create_chat_at(request, plan, Err("no space".to_string()), 1),
        Err(Status {
            code: Code::Internal,
            message: "failed to access chats, no space".to_string()
        })
    );
    assert_eq!(
        storage_failure("failed to create chat, ", "no space"),
        Status {
            code: Code::Internal,
            message: "failed to create chat, no space".to_string()
        }
    );
}

#[test]
fn creating_a_chat_now_takes_the_time_of_the_clock() {
    let request = named(1, "general");
    let plan = plan_chat(&request);
    let made = create_chat(request, plan, Ok(None)).unwrap();
    assert!(made.store);
    assert!(made.chat.created > 1_600_000_000);
    assert_eq!(made.chat.users, vec![1]);
    assert_eq!(made.chat.description, "general");
    assert!(made.chat.permanent);
}

#[test]
fn post_fan_out() {
    let mut room = Room::new();
    let mut store = Store::new();
    let (u1, u2, u3) = (1, 2, 3);
    let chat = create(&mut store, dialog(u1, vec![u2]), 10);
    let (tx1, mut rx1) = mpsc::channel(4);
    let (tx2, mut rx2) = mpsc::channel(4);
    let (tx3, mut rx3) = mpsc::channel(4);
    room.get_posts(Registration { user_id: u1 }, tx1, closed, store.read_all_chats());
    room.get_posts(Registration { user_id: u2 }, tx2, closed, store.read_all_chats());
    room.get_posts(Registration { user_id: u3 }, tx3, closed, store.read_all_chats());

    let accepted = create_post(post(chat.id, u1, "hi")).unwrap();
    assert_eq!(
        accepted.reply,
        RpcResult {
            ok: true,
            description: "accepted".to_string()
        }
    );
    store.write_post(&accepted.post);
    let found = store.read_chat(chat.id).unwrap();
    let deliveries = room.notify_new_post(&accepted.post, found.as_ref());
    assert_eq!(deliveries.len(), 2);
    assert_eq!(deliveries[0].to, u1);
    assert_eq!(deliveries[1].to, u2);
    let mut sent = Vec::new();
    for delivery in deliveries {
        sent.push(delivery.channel.try_send(delivery.message).is_ok());
    }
    assert!(delivered_to_all(&sent));

    let got1 = rx1.try_recv().unwrap();
    let got2 = rx2.try_recv().unwrap();
    assert_ne!(got1.id, 0);
    assert_eq!(got1.text, "hi");
    assert_eq!(got1, got2);
    assert_eq!(got1, accepted.post);
    assert_eq!(rx1.try_recv(), Err(mpsc::error::TryRecvError::Empty));
    assert_eq!(rx2.try_recv(), Err(mpsc::error::TryRecvError::Empty));
    assert_eq!(rx3.try_recv(), Err(mpsc::error::TryRecvError::Empty));
}

#[test]
fn post_of_an_unknown_chat_goes_to_nobody() {
    let mut room = Room::new();
    let (tx, _rx) = mpsc::channel(4);
    room.get_posts(Registration { user_id: 1 }, tx, closed, Ok(vec![]));
    assert!(room.notify_new_post(&post(5, 1, "hi"), None).is_empty());
}

#[test]
fn post_with_an_id_is_refused() {
    let store = Store::new();
    let mut with_id = post(7, 1, "hi");
    with_id.id = 1;
    let refused = Err(Status {
        code: Code::InvalidArgument,
        message: "id must be 0".to_string(),
    });
    assert_eq!(create_post(with_id.clone()), refused);
    assert_eq!(create_post_at(with_id.clone(), 55, 66), refused);
    with_id.id = u64::MAX;
    assert_eq!(create_post(with_id), refused);
    assert!(store.posts.is_empty());
}

#[test]
fn post_is_stamped_with_id_and_time() {
    let accepted = create_post_at(post(7, 1, "hi"), 55, 66).unwrap();
    assert_eq!(
        accepted.post,
        Post {
            id: 55,
            chat_id: 7,
            user_id: 1,
            text: "hi".to_string(),
            attachments: Vec::new(),
            created: 66
        }
    );
    let mut with_file = post(7, 1, "see");
    with_file.attachments = vec![1, 2, 3];
    let now = create_post(with_file).unwrap();
    assert_ne!(now.post.id, 0);
    assert!(now.post.created > 1_600_000_000);
    assert_eq!(now.post.attachments, vec![1, 2, 3]);
    assert_eq!(now.post.text, "see");
    assert_eq!(now.post.chat_id, 7);
    assert_eq!(now.post.user_id, 1);
}

#[test]
fn auto_close_ephemeral_chat() {
    let mut room = Room::new();
    let mut store = Store::new();
    let u1 = 1;
    let chat = create(&mut store, dialog(u1, vec![]), 10);
    assert!(!chat.permanent);
    assert_eq!(chat.users, vec![u1]);
    store.write_post(&create_post_at(post(chat.id, u1, "alone"), 9, 11).unwrap().post);
    let (tx, mut rx) = mpsc::channel(4);
    room.get_chats(Registration { user_id: 2 }, tx, closed, store.read_all_chats());

    let told = leave(
        &mut store,
        ChatReference {
            user_id: u1,
            chat_id: chat.id,
        },
    )
    .unwrap();
    assert_eq!(told, ChatChanged::Closed(chat.id));
    assert_eq!(store.read_chat(chat.id), Ok(None));
    assert!(store.chat_posts(chat.id).is_empty());
    assert!(read_chat_posts(&store.chat_posts(chat.id), 0, 10).is_empty());

    for delivery in room.notify_chat_changed(&told) {
        delivery.channel.try_send(delivery.message).unwrap();
    }
    let update = chats_update(rx.try_recv().unwrap(), 2).unwrap();
    assert_eq!(
        update,
        UpdateChats {
            updated: vec![],
            gone: vec![chat.id]
        }
    );
}

#[test]
fn permanent_chat_stays_when_the_last_member_leaves() {
    let mut store = Store::new();
    let chat = create(&mut store, named(1, "general"), 10);
    let told = leave(
        &mut store,
        ChatReference {
            user_id: 1,
            chat_id: chat.id,
        },
    )
    .unwrap();
    let mut empty = chat.clone();
    empty.users = vec![];
    assert_eq!(told, ChatChanged::Updated(empty.clone()));
    assert_eq!(store.read_chat(chat.id), Ok(Some(empty)));
}

#[test]
fn chat_stays_while_it_has_members() {
    let mut store = Store::new();
    let chat = create(&mut store, dialog(1, vec![2]), 10);
    let reference = ChatReference {
        user_id: 1,
        chat_id: chat.id,
    };
    let updated = store.update_chat(reference.chat_id, leave_chat_edit(&reference));
    let left = leave_chat(&reference, updated).unwrap();
    assert!(!left.remove);
    assert_eq!(
        left.reply,
        RpcResult {
            ok: true,
            description: "left the chat".to_string()
        }
    );
    let mut rest = chat.clone();
    rest.users = vec![2];
    assert_eq!(left.notification, ChatChanged::Updated(rest));
}

#[test]
fn leaving_an_unknown_chat_is_not_found() {
    let reference = ChatReference {
        user_id: 1,
        chat_id: 5,
    };
    assert_eq!(
        leave_chat(&reference, Ok(None)),
        Err(Status {
            code: Code::NotFound,
            message: "chat does not exist".to_string()
        })
    );
    assert_eq!(
        leave_chat(&reference, Err("io".to_string())),
        Err(Status {
            code: Code::Internal,
            message: "failed access chats, io".to_string()
        })
    );
}

#[test]
fn entering_a_chat_twice_changes_nothing() {
    let mut store = Store::new();
    let chat = create(&mut store, named(1, "general"), 10);
    let reference = ChatReference {
        user_id: 2,
        chat_id: chat.id,
    };
    assert_eq!(enter_chat_edit(&reference), ChatEdit::Enter(2));
    let updated = store.update_chat(chat.id, enter_chat_edit(&reference));
    let (told, reply) = enter_chat(updated).unwrap();
    let mut both = chat.clone();
    both.users = vec![1, 2];
    assert_eq!(told, ChatChanged::Updated(both.clone()));
    assert_eq!(
        reply,
        RpcResult {
            ok: true,
            description: "entered the chat".to_string()
        }
    );
    let stored = store.chats.clone();
    let (again, write) = update_chat(store.chats.get(&chat.id).cloned(), ChatEdit::Enter(2));
    assert!(!write);
    assert_eq!(again, Some(both.clone()));
    let updated = store.update_chat(chat.id, enter_chat_edit(&reference));
    assert_eq!(enter_chat(updated).unwrap().0, ChatChanged::Updated(both));
    assert_eq!(store.chats, stored);
}

#[test]
fn entering_an_unknown_chat_is_not_found() {
    assert_eq!(
        enter_chat(Ok(None)),
        Err(Status {
            code: Code::NotFound,
            message: "chat does not exist".to_string()
        })
    );
    assert_eq!(
        enter_chat(Err("io".to_string())),
        Err(Status {
            code: Code::Internal,
            message: "failed access chats, io".to_string()
        })
    );
}

#[test]
fn replay_on_reconnect() {
    let mut room = Room::new();
    let mut store = Store::new();
    let u = 1;
    let chat = create(&mut store, named(u, "general"), 10);
    let other = create(&mut store, named(2, "other"), 10);
    for (n, text) in ["one", "two", "three"].iter().enumerate() {
        let accepted = create_post_at(post(chat.id, u, text), 100 + n as u64, 20).unwrap();
        store.write_post(&accepted.post);
    }
    store.write_post(&create_post_at(post(other.id, 2, "elsewhere"), 200, 20).unwrap().post);
    let (tx, _rx) = mpsc::channel(4);
    let replay = room.get_posts(Registration { user_id: u }, tx, closed, store.read_all_chats());
    assert_eq!(replay, vec![chat.id]);
    let per_chat: Vec<Vec<Post>> = replay
        .iter()
        .map(|id| read_chat_posts(&store.chat_posts(*id), 0, usize::MAX))
        .collect();
    let posts = replay_posts(per_chat);
    let texts: Vec<&str> = posts.iter().map(|post| post.text.as_str()).collect();
    assert_eq!(texts, vec!["one", "two", "three"]);
    let ids: Vec<u64> = posts.iter().map(|post| post.id).collect();
    assert_eq!(ids, vec![100, 101, 102]);
}

#[test]
fn replay_puts_chat_after_chat() {
    let first = vec![post(1, 1, "a"), post(1, 1, "b")];
    let second = vec![];
    let third = vec![post(3, 1, "c")];
    let all = replay_posts(vec![first, second, third]);
    let texts: Vec<&str> = all.iter().map(|post| post.text.as_str()).collect();
    assert_eq!(texts, vec!["a", "b", "c"]);
    assert!(replay_posts(vec![]).is_empty());
}

#[test]
fn invisible_dialog() {
    let mut room = Room::new();
    let mut store = Store::new();
    let (u1, u2, u3) = (1, 2, 3);
    let hidden = create(&mut store, dialog(u1, vec![u2]), 10);
    let open = create(&mut store, named(u1, "general"), 10);
    let (tx3, _rx3) = mpsc::channel(4);
    let first = room.get_chats(Registration { user_id: u3 }, tx3, closed, store.read_all_chats());
    assert_eq!(first.updated, vec![open.clone()]);
    assert!(first.gone.is_empty());
    let (tx2, _rx2) = mpsc::channel(4);
    let first = room.get_chats(Registration { user_id: u2 }, tx2, closed, store.read_all_chats());
    assert_eq!(first.updated.len(), 2);
    assert!(first.updated.contains(&hidden));
    assert!(first.updated.contains(&open));

    assert_eq!(chats_update(ChatChanged::Updated(hidden.clone()), u3), None);
    assert_eq!(
        chats_update(ChatChanged::Updated(hidden.clone()), u2),
        Some(UpdateChats {
            updated: vec![hidden.clone()],
            gone: vec![]
        })
    );
    assert_eq!(
        chats_update(ChatChanged::Closed(hidden.id), u3),
        Some(UpdateChats {
            updated: vec![],
            gone: vec![hidden.id]
        })
    );
}

#[test]
fn invitation_to_a_user_that_does_not_listen() {
    let mut room = Room::new();
    let mut store = Store::new();
    let u1 = register(&mut room, &mut store, info("U1", "u1"), 1)
        .registration
        .unwrap()
        .user_id;
    let u2 = register(&mut room, &mut store, info("U2", "u2"), 2)
        .registration
        .unwrap()
        .user_id;
    let chat = create(&mut store, named(u1, "general"), 10);
    let invitation = Invitation {
        chat_id: chat.id,
        from_user_id: u1,
        to_user_id: u2,
    };
    let outcome = room.invite_user(
        &invitation,
        store.read_chat(invitation.chat_id),
        store.read_user(invitation.to_user_id),
    );
    let status = outcome.unwrap_err();
    assert_eq!(status.code, Code::NotFound);
    assert_eq!(status.message, "did not subscribe");
}

#[test]
fn invitation_reaches_the_invited_user() {
    let mut room = Room::new();
    let mut store = Store::new();
    let u1 = register(&mut room, &mut store, info("U1", "u1"), 1)
        .registration
        .unwrap()
        .user_id;
    let u2 = register(&mut room, &mut store, info("U2", "u2"), 2)
        .registration
        .unwrap();
    let chat = create(&mut store, named(u1, "general"), 10);
    let (tx, mut rx) = mpsc::channel(4);
    room.get_invitations(u2, tx, closed);
    let invitation = Invitation {
        chat_id: chat.id,
        from_user_id: u1,
        to_user_id: u2.user_id,
    };
    let channel = room
        .invite_user(
            &invitation,
            store.read_chat(invitation.chat_id),
            store.read_user(invitation.to_user_id),
        )
        .unwrap();
    let sent = channel.try_send(invitation).is_ok();
    assert_eq!(
        invitation_sent(sent),
        Ok(RpcResult {
            ok: true,
            description: "invitation has been sent".to_string()
        })
    );
    assert_eq!(rx.try_recv(), Ok(invitation));
    assert_eq!(
        invitation_sent(false),
        Err(Status {
            code: Code::Internal,
            message: "failed to send invitation".to_string()
        })
    );
}

#[test]
fn invitation_to_an_unknown_chat_or_user() {
    let room = Room::new();
    let invitation = Invitation {
        chat_id: 42,
        from_user_id: 1,
        to_user_id: 907,
    };
    let someone = User {
        id: 907,
        name: "n".to_string(),
        short_name: "s".to_string(),
        created: 0,
    };
    let chat = Chat {
        id: 42,
        permanent: true,
        description: "d".to_string(),
        users: vec![],
        created: 0,
    };
    assert_eq!(
        room.invite_user(&invitation, Ok(None), Ok(Some(someone.clone()))).err(),
        Some(Status {
            code: Code::NotFound,
            message: "chat 42 does not exist".to_string()
        })
    );
    assert_eq!(
        room.invite_user(&invitation, Ok(Some(chat.clone())), Ok(None)).err(),
        Some(Status {
            code: Code::NotFound,
            message: "user 907 is not registered".to_string()
        })
    );
    assert_eq!(
        room.invite_user(&invitation, Err("e1".to_string()), Ok(None)).err(),
        Some(Status {
            code: Code::Internal,
            message: "failed read chats, e1".to_string()
        })
    );
    assert_eq!(
        room.invite_user(&invitation, Ok(Some(chat)), Err("e2".to_string())).err(),
        Some(Status {
            code: Code::Internal,
            message: "e2".to_string()
        })
    );
    assert_eq!(
        room.invite_user(&invitation, Ok(None), Err("e2".to_string())).err(),
        Some(Status {
            code: Code::NotFound,
            message: "chat 42 does not exist".to_string()
        })
    );
}

#[test]
fn notification_goes_to_every_listener() {
    let mut room = Room::new();
    let (tx1, mut rx1) = mpsc::channel(4);
    let (tx2, rx2) = mpsc::channel(4);
    room.get_users(Registration { user_id: 1 }, tx1, closed, Ok(vec![]));
    room.get_users(Registration { user_id: 2 }, tx2, closed, Ok(vec![]));
    drop(rx2);
    let deliveries = room.notify_user_changed(&UserChanged::Online(9));
    assert_eq!(deliveries.len(), 2);
    let mut sent = Vec::new();
    for delivery in deliveries {
        assert_eq!(delivery.message, UserChanged::Online(9));
        sent.push(delivery.channel.try_send(delivery.message).is_ok());
    }
    assert!(!delivered_to_all(&sent));
    assert_eq!(rx1.try_recv(), Ok(UserChanged::Online(9)));
    assert_eq!(room.actualize_user_listeners(closed), 1);
    assert!(room.users_listeners.contains(1));
    assert!(!room.users_listeners.contains(2));
    assert_eq!(room.actualize_chat_listeners(closed), 0);
    assert_eq!(room.actualize_post_listeners(closed), 0);
}

#[test]
fn a_failed_write_of_a_new_user_fails_the_registration() {
    let mut room = Room::new();
    let store = Store::new();
    let plan = room.register_at(info("Alice", "al"), Ok(None), 5).unwrap();
    let told = plan.notification.clone();
    let reply = plan.reply;
    assert_eq!(
        registered_after_write(plan, Err("disk full".to_string())),
        Err(Status {
            code: Code::Internal,
            message: "disk full".to_string()
        })
    );
    assert_eq!(store.read_user(17035412675986692939), Ok(None));
    let plan = room.register_at(info("Alice", "al"), Ok(None), 5).unwrap();
    assert_eq!(registered_after_write(plan, Ok(())), Ok((told, reply)));
}

#[test]
fn a_failed_write_of_a_post_fails_the_call() {
    let accepted = create_post_at(post(7, 1, "hi"), 55, 66).unwrap();
    assert_eq!(
        post_after_write(accepted, Err("disk full".to_string())),
        Err(Status {
            code: Code::Internal,
            message: "failed to save post, disk full".to_string()
        })
    );
    let accepted = create_post_at(post(7, 1, "hi"), 55, 66).unwrap();
    let (sent, reply) = post_after_write(accepted, Ok(())).unwrap();
    assert_eq!(sent.id, 55);
    assert_eq!(sent.created, 66);
    assert_eq!(sent.text, "hi");
    assert_eq!(
        reply,
        RpcResult {
            ok: true,
            description: "accepted".to_string()
        }
    );
}

#[test]
fn a_failed_write_of_a_new_chat_fails_the_call() {
    let request = named(1, "general");
    let plan = plan_chat(&request);
    let made = create_chat_at(request, plan, Ok(None), 9).unwrap();
    let chat = made.chat.clone();
    assert_eq!(
        chat_after_write(made, Err("disk full".to_string())),
        Err(Status {
            code: Code::Internal,
            message: "failed to create chat, disk full".to_string()
        })
    );
    let request = named(1, "general");
    let plan = plan_chat(&request);
    let made = create_chat_at(request, plan, Ok(None), 9).unwrap();
    assert_eq!(
        chat_after_write(made, Ok(())),
        Ok((ChatChanged::Updated(chat.clone()), chat))
    );
}

#[test]
fn stream_of_posts_keeps_the_order_of_the_store() {
    let mut room = Room::new();
    let mut store = Store::new();
    let (u, other) = (1, 2);
    let chat = create(&mut store, named(u, "general"), 10);
    let elsewhere = create(&mut store, named(other, "elsewhere"), 10);
    for (n, text) in ["one", "two"].iter().enumerate() {
        let accepted = create_post_at(post(chat.id, u, text), 100 + n as u64, 20).unwrap();
        store.write_post(&accepted.post);
    }
    let (tx, mut rx) = mpsc::channel(16);
    let replay = room.get_posts(Registration { user_id: u }, tx, closed, store.read_all_chats());
    let per_chat: Vec<Vec<Post>> = replay
        .iter()
        .map(|id| read_chat_posts(&store.chat_posts(*id), 0, usize::MAX))
        .collect();
    let mut delivered = replay_posts(per_chat);

    let later = [
        (chat.id, other, "three"),
        (elsewhere.id, other, "not for me"),
        (chat.id, u, "four"),
    ];
    for (n, (chat_id, author, text)) in later.iter().enumerate() {
        let accepted = create_post_at(post(*chat_id, *author, text), 200 + n as u64, 30).unwrap();
        let (sent, _) = post_after_write(accepted, Ok(())).unwrap();
        store.write_post(&sent);
        let found = store.read_chat(sent.chat_id).unwrap();
        for delivery in room.notify_new_post(&sent, found.as_ref()) {
            delivery.channel.try_send(delivery.message).unwrap();
        }
    }
    while let Ok(live) = rx.try_recv() {
        delivered.push(live);
    }
    let of_chat: Vec<Post> = delivered
        .into_iter()
        .filter(|post| post.chat_id == chat.id)
        .collect();
    assert_eq!(of_chat, store.chat_posts(chat.id));
    let texts: Vec<&str> = of_chat.iter().map(|post| post.text.as_str()).collect();
    assert_eq!(texts, vec!["one", "two", "three", "four"]);
}
