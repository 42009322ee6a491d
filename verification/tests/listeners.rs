use migchat::listeners::Listeners;
use migchat::presence::Presence;
use migchat::proto::User;
use tokio::sync::mpsc;

fn closed(channel: &mpsc::Sender<u32>) -> bool {
    channel.is_closed()
}

fn user(id: u64) -> User {
    User {
        id,
        name: format!("user {}", id),
        short_name: format!("u{}", id),
        created: 0,
    }
}

#[test]
fn new_registry_is_empty() {
    let listeners: Listeners<u8> = Listeners::new();
    assert_eq!(listeners.len(), 0);
    assert!(!listeners.contains(1));
    assert!(listeners.get(1).is_none());
    assert!(listeners.subscribers().is_empty());
    assert!(listeners.snapshot().is_empty());
}

#[test]
fn attach_replaces_the_channel_of_the_user() {
    let mut listeners: Listeners<u8> = Listeners::new();
    listeners.attach(5, 1, |_| false);
    listeners.attach(6, 2, |_| false);
    listeners.attach(5, 3, |_| false);
    assert_eq!(listeners.len(), 2);
    assert_eq!(listeners.get(5), Some(&3));
    assert_eq!(listeners.get(6), Some(&2));
}

#[test]
fn attach_sweeps_closed_channels_first() {
    let mut listeners: Listeners<mpsc::Sender<u32>> = Listeners::new();
    let (tx1, rx1) = mpsc::channel(4);
    let (tx2, _rx2) = mpsc::channel(4);
    let (tx3, _rx3) = mpsc::channel(4);
    listeners.attach(1, tx1, closed);
    listeners.attach(2, tx2, closed);
    drop(rx1);
    listeners.attach(3, tx3, closed);
    assert_eq!(listeners.len(), 2);
    assert!(!listeners.contains(1));
    assert!(listeners.contains(2));
    assert!(listeners.contains(3));
}

#[test]
fn a_replaced_channel_is_closed_for_its_reader() {
    let mut listeners: Listeners<mpsc::Sender<u32>> = Listeners::new();
    let (tx1, mut rx1) = mpsc::channel(4);
    let (tx2, mut rx2) = mpsc::channel(4);
    listeners.attach(1, tx1, closed);
    listeners.attach(1, tx2, closed);
    assert_eq!(rx1.try_recv(), Err(mpsc::error::TryRecvError::Disconnected));
    assert_eq!(rx2.try_recv(), Err(mpsc::error::TryRecvError::Empty));
}

#[test]
fn actualize_reports_how_many_were_removed() {
    let mut listeners: Listeners<mpsc::Sender<u32>> = Listeners::new();
    let mut readers = Vec::new();
    for id in 0..6u64 {
        let (tx, rx) = mpsc::channel(4);
        listeners.attach(id, tx, closed);
        readers.push(rx);
    }
    assert_eq!(listeners.actualize(closed), 0);
    readers.remove(4);
    readers.remove(1);
    assert_eq!(listeners.actualize(closed), 2);
    assert_eq!(listeners.len(), 4);
    let mut left = listeners.subscribers();
    left.sort();
    assert_eq!(left, vec![0, 2, 3, 5]);
    assert_eq!(listeners.actualize(closed), 0);
    readers.clear();
    assert_eq!(listeners.actualize(closed), 4);
    assert_eq!(listeners.len(), 0);
}

#[test]
fn detach_tells_whether_there_was_a_subscription() {
    let mut listeners: Listeners<u8> = Listeners::new();
    listeners.attach(5, 1, |_| false);
    assert!(listeners.detach(5));
    assert!(!listeners.detach(5));
    assert!(!listeners.detach(6));
    assert_eq!(listeners.len(), 0);
}

#[test]
fn snapshot_holds_a_clone_for_every_subscriber() {
    let mut listeners: Listeners<mpsc::Sender<u32>> = Listeners::new();
    let (tx1, mut rx1) = mpsc::channel(4);
    let (tx2, mut rx2) = mpsc::channel(4);
    listeners.attach(1, tx1, closed);
    listeners.attach(2, tx2, closed);
    let mut copies = listeners.snapshot();
    copies.sort_by_key(|copy| copy.0);
    assert_eq!(copies.len(), 2);
    assert_eq!(copies[0].0, 1);
    assert_eq!(copies[1].0, 2);
    copies[0].1.try_send(10).unwrap();
    copies[1].1.try_send(20).unwrap();
    assert_eq!(rx1.try_recv(), Ok(10));
    assert_eq!(rx2.try_recv(), Ok(20));
}

#[test]
fn recipients_are_the_members_that_subscribe() {
    let mut listeners: Listeners<u8> = Listeners::new();
    listeners.attach(1, 11, |_| false);
    listeners.attach(2, 12, |_| false);
    listeners.attach(4, 14, |_| false);
    assert_eq!(
        listeners.recipients(&vec![4, 3, 1]),
        vec![(4, 14), (1, 11)]
    );
    assert_eq!(listeners.recipients(&vec![]), vec![]);
    assert_eq!(listeners.recipients(&vec![7, 8]), vec![]);
}

#[test]
fn presence_follows_enter_and_leave() {
    let mut presence = Presence::new();
    assert!(!presence.is_online(1));
    assert!(presence.enter(1));
    assert!(!presence.enter(1));
    assert!(presence.is_online(1));
    assert!(presence.leave(1));
    assert!(!presence.leave(1));
    assert!(!presence.is_online(1));
}

#[test]
fn classify_keeps_the_order_of_the_users() {
    let mut presence = Presence::new();
    presence.enter(3);
    presence.enter(1);
    let users = vec![user(1), user(2), user(3), user(4)];
    assert_eq!(presence.classify(&users), (vec![1, 3], vec![2, 4]));
    assert_eq!(presence.classify(&vec![]), (vec![], vec![]));
}
