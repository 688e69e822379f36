use chat_core::model::{Color, User};

fn user(color: Color) -> User {
    User { name: "alice".to_string(), color, id: 7 }
}

#[test]
fn new_user_keeps_name_and_id() {
    let u = User::new("alice".to_string(), 42);
    assert_eq!(u.name, "alice");
    assert_eq!(u.id, 42);
}

#[test]
fn name_prefix_is_painted() {
    assert_eq!(user(Color::Red).get_name_prefix(), "\u{1b}[31m\r[alice]\u{1b}[0m");
}

#[test]
fn each_color_has_its_sgr_digit() {
    assert_eq!(user(Color::Red).get_name_prefix(), "\u{1b}[31m\r[alice]\u{1b}[0m");
    assert_eq!(user(Color::Green).get_name_prefix(), "\u{1b}[32m\r[alice]\u{1b}[0m");
    assert_eq!(user(Color::Yellow).get_name_prefix(), "\u{1b}[33m\r[alice]\u{1b}[0m");
    assert_eq!(user(Color::Blue).get_name_prefix(), "\u{1b}[34m\r[alice]\u{1b}[0m");
    assert_eq!(user(Color::Purple).get_name_prefix(), "\u{1b}[35m\r[alice]\u{1b}[0m");
    assert_eq!(user(Color::Cyan).get_name_prefix(), "\u{1b}[36m\r[alice]\u{1b}[0m");
}

#[test]
fn prompt_appends_colon_space() {
    assert_eq!(user(Color::Cyan).get_prompt(), "\u{1b}[36m\r[alice]\u{1b}[0m: ");
}

#[test]
fn format_message_appends_text() {
    assert_eq!(
        user(Color::Green).format_message("hi".to_string()),
        "\u{1b}[32m\r[alice]\u{1b}[0m: hi"
    );
}
