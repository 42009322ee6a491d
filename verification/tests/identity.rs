use fxhash::FxHasher64;
use migchat::identity::{
    get_chat_id, get_user_id, id_of_hash, new_chat_id, new_post_id, pick_id, sorted_members,
};
use migchat::proto::UserInfo;
use std::collections::BTreeSet;
use std::hash::Hasher;

fn info(name: &str, short_name: &str) -> UserInfo {
    UserInfo {
        name: name.to_string(),
        short_name: short_name.to_string(),
    }
}

#[test]
fn sorted_users() {
    let mut collection = BTreeSet::new();
    collection.insert(10);
    collection.insert(2);
    collection.insert(30);
    collection.insert(30);
    collection.insert(30);
    collection.insert(30);
    collection.insert(30);
    collection.insert(30);
    collection.insert(4);
    collection.insert(4);
    collection.insert(4);
    collection.insert(4);
    collection.insert(4);
    collection.insert(40);
    collection.insert(4);
    collection.insert(30);
    assert_eq!(collection.len(), 5);
    assert_eq!(
        collection.into_iter().collect::<Vec<u64>>(),
        vec![2, 4, 10, 30, 40]
    );
}

#[test]
fn chat_identification() {
    let user1 = UserInfo {
        name: "user 1".to_string(),
        short_name: "u1".to_string(),
    };
    let user2 = UserInfo {
        name: "user 2".to_string(),
        short_name: "u2".to_string(),
    };
    let user3 = UserInfo {
        name: "user 3".to_string(),
        short_name: "u3".to_string(),
    };
    let id_u1 = get_user_id(&user1);
    let id_u2 = get_user_id(&user2);
    let id_u3 = get_user_id(&user3);

    let id_c12 = get_chat_id("", &vec![id_u1, id_u2]);
    let id_c13 = get_chat_id("", &vec![id_u1, id_u3]);
    let id_c23 = get_chat_id("", &vec![id_u2, id_u3]);
    let id_c123 = get_chat_id("", &vec![id_u1, id_u2, id_u3]);
    assert_ne!(id_c12, id_c13);
    assert_ne!(id_c12, id_c23);
    assert_ne!(id_c12, id_c123);
    assert_ne!(id_c23, id_c13);
    assert_ne!(id_c123, id_c13);
    assert_ne!(id_c123, id_c23);
}

#[test]
fn user_id_is_the_hash_of_both_names() {
    let id = get_user_id(&info("Alice", "al"));
    assert_eq!(id, 17035412675986692939);
    let mut hasher = FxHasher64::default();
    hasher.write("Alice".as_bytes());
    hasher.write("al".as_bytes());
    assert_eq!(id, hasher.finish());
}

#[test]
fn user_id_is_the_same_every_time() {
    assert_eq!(get_user_id(&info("Alice", "al")), get_user_id(&info("Alice", "al")));
    assert_ne!(get_user_id(&info("Alice", "al")), get_user_id(&info("Alice", "ali")));
    assert_eq!(get_user_id(&info("user 1", "u1")), 138053227899822568);
}

#[test]
fn user_id_tells_where_the_name_ends() {
    // three bytes and five bytes are not hashed as eight bytes at once
    let mut hasher = FxHasher64::default();
    hasher.write("abc".as_bytes());
    hasher.write("defgh".as_bytes());
    assert_eq!(get_user_id(&info("abc", "defgh")), hasher.finish());
    let mut whole = FxHasher64::default();
    whole.write("abcdefgh".as_bytes());
    assert_ne!(get_user_id(&info("abc", "defgh")), whole.finish());
}

#[test]
fn sorted_members_sorts_and_drops_repetitions() {
    assert_eq!(sorted_members(&[10, 2, 30, 30, 4, 40, 4]), vec![2, 4, 10, 30, 40]);
    assert_eq!(sorted_members(&[]), Vec::<u64>::new());
    assert_eq!(sorted_members(&[7, 7, 7]), vec![7]);
    assert_eq!(sorted_members(&[u64::MAX, 0]), vec![0, u64::MAX]);
}

#[test]
fn chat_id_of_a_description() {
    let id = get_chat_id("general", &[]);
    assert_eq!(id, 6171625894992300034);
    assert_eq!(id, get_chat_id("general", &[1, 2, 3]));
    assert_ne!(id, get_chat_id("General", &[]));
    let mut hasher = FxHasher64::default();
    hasher.write("general".as_bytes());
    assert_eq!(id, hasher.finish());
}

#[test]
fn chat_id_of_members() {
    let id = get_chat_id("", &[10, 2]);
    assert_eq!(id, 5290151780539952054);
    assert_eq!(id, get_chat_id("", &[2, 10]));
    assert_eq!(id, get_chat_id("", &[2, 10, 10, 2]));
    assert_ne!(id, get_chat_id("", &[2, 11]));
    let mut hasher = FxHasher64::default();
    hasher.write(&2u64.to_le_bytes());
    hasher.write(&10u64.to_le_bytes());
    assert_eq!(id, hasher.finish());
}

#[test]
fn chat_id_without_description_and_members_is_drawn() {
    let first = get_chat_id("", &[]);
    let second = get_chat_id("", &[]);
    assert_ne!(first, 0);
    assert_ne!(second, 0);
}

#[test]
fn fresh_ids_are_not_zero() {
    for _ in 0..1000 {
        assert_ne!(new_post_id(), 0);
        assert_ne!(new_chat_id(), 0);
    }
}

#[test]
fn the_first_draw_that_is_not_zero_is_the_id() {
    assert_eq!(pick_id(&vec![5]), 5);
    assert_eq!(pick_id(&vec![0, 0, 7, 9]), 7);
    assert_eq!(pick_id(&vec![u64::MAX, 0]), u64::MAX);
    assert_eq!(pick_id(&vec![0, 0, 0]), u64::MAX);
    assert_eq!(pick_id(&vec![]), u64::MAX);
}

#[test]
fn a_hash_of_zero_is_no_id() {
    assert_eq!(id_of_hash(0), u64::MAX);
    assert_eq!(id_of_hash(1), 1);
    assert_eq!(id_of_hash(17035412675986692939), 17035412675986692939);
    assert_eq!(id_of_hash(u64::MAX), u64::MAX);
}

#[test]
fn no_names_give_the_reserved_user_id() {
    // nothing is hashed, and the hasher hands back its start value
    let mut hasher = FxHasher64::default();
    hasher.write("".as_bytes());
    hasher.write("".as_bytes());
    assert_eq!(hasher.finish(), 0);
    assert_eq!(get_user_id(&info("", "")), u64::MAX);
    assert_ne!(get_user_id(&info("", "")), 0);
}

#[test]
fn no_members_give_the_reserved_chat_id() {
    // the member 0 alone is hashed to zero
    let mut hasher = FxHasher64::default();
    hasher.write(&0u64.to_le_bytes());
    assert_eq!(hasher.finish(), 0);
    assert_eq!(get_chat_id("", &[0]), u64::MAX);
    assert_eq!(get_chat_id("", &[0, 0]), u64::MAX);
    assert_eq!(get_chat_id("\0", &[]), u64::MAX);
    assert_ne!(get_chat_id("", &[0, 1]), 0);
}
