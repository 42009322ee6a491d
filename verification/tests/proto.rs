use migchat::proto::UserInfo;

#[test]
fn test_parse_user() {
    let input = "login, User Name";
    assert_eq!(
        input.parse::<UserInfo>().unwrap(),
        UserInfo {
            name: String::from("User Name"),
            short_name: String::from("login")
        }
    );
}

#[test]
fn test_display_user() {
    assert_eq!(
        UserInfo {
            name: String::new(),
            short_name: String::new()
        }
        .to_text(),
        "<not set>"
    );
    assert_eq!(
        UserInfo {
            name: String::from("Only Name"),
            short_name: String::new()
        }
        .to_text(),
        "Only Name"
    );
    assert_eq!(
        UserInfo {
            name: String::new(),
            short_name: String::from("Login")
        }
        .to_text(),
        "Login"
    );
    assert_eq!(
        UserInfo {
            name: String::from("User Name"),
            short_name: String::from("Login")
        }
        .to_text(),
        "Login (User Name)"
    );
}

#[test]
fn parse_takes_any_of_the_separators() {
    let colon = UserInfo::parse("al:Alice").unwrap();
    assert_eq!(colon.short_name, "al");
    assert_eq!(colon.name, "Alice");
    let semicolon = UserInfo::parse("al; \t Alice Cooper \n").unwrap();
    assert_eq!(semicolon.short_name, "al");
    assert_eq!(semicolon.name, "Alice Cooper");
    let spaced = UserInfo::parse(" al ,Alice").unwrap();
    assert_eq!(spaced.short_name, " al ");
    assert_eq!(spaced.name, "Alice");
}

#[test]
fn parse_takes_empty_parts() {
    let bare = UserInfo::parse(",").unwrap();
    assert_eq!(bare.short_name, "");
    assert_eq!(bare.name, "");
    let blank = UserInfo::parse("x,   ").unwrap();
    assert_eq!(blank.short_name, "x");
    assert_eq!(blank.name, "");
    let wide = UserInfo::parse("é,\u{3000}ü\u{a0}").unwrap();
    assert_eq!(wide.short_name, "é");
    assert_eq!(wide.name, "ü");
}

#[test]
fn parse_refuses_no_separator_and_two_separators() {
    assert_eq!(UserInfo::parse("").unwrap_err().text, "");
    assert_eq!(UserInfo::parse("login").unwrap_err().text, "login");
    assert_eq!(UserInfo::parse("a,b,c").unwrap_err().text, "a,b,c");
    assert_eq!(UserInfo::parse("a:b;c").unwrap_err().text, "a:b;c");
    assert!("a,,".parse::<UserInfo>().is_err());
}

#[test]
fn user_info_of_a_user() {
    let user = migchat::proto::User {
        id: 1,
        name: "Name".to_string(),
        short_name: "nm".to_string(),
        created: 9,
    };
    assert_eq!(user.to_text(), "nm (Name)");
    assert_eq!(
        UserInfo::from(user),
        UserInfo {
            name: "Name".to_string(),
            short_name: "nm".to_string()
        }
    );
}
