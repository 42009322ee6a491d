use migchat::ui::app::{InputMode, InputResult};

#[test]
fn test_vec_iter() {
    let mut v = vec![4; 4];
    if !v.iter().any(|&n| n == 7) {
        v.push(7);
    }
    assert_eq!(v.len(), 5);
}

#[test]
fn input_modes_start_empty() {
    let chat = InputMode::new_chat();
    assert_eq!(chat.purpose, InputResult::NewChat);
    assert_eq!(chat.title, "New chat name");
    assert_eq!(chat.text, "");
    let post = InputMode::new_post();
    assert_eq!(post.purpose, InputResult::NewPost);
    assert_eq!(post.title, "Post content");
    assert_eq!(post.text, "");
    let user = InputMode::new_user_info();
    assert_eq!(user.purpose, InputResult::UserInfo);
    assert_eq!(user.title, "Login, Full Name");
    assert_eq!(user.text, "");
}
