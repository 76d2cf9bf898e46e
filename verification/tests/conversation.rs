use ai_tuber::model::conversation::{Message, Role};

#[test]
fn role_names_in_logs() {
    assert_eq!(Role::System.as_str(), "system");
    assert_eq!(Role::User.as_str(), "user");
    assert_eq!(Role::Assistant.as_str(), "assistant");
    assert_eq!(Role::Bot.as_str(), "assistant");
}

#[test]
fn role_names_on_the_wire() {
    assert_eq!(Role::System.wire_str(), "system");
    assert_eq!(Role::User.wire_str(), "user");
    assert_eq!(Role::Assistant.wire_str(), "model");
    assert_eq!(Role::Bot.wire_str(), "model");
}

#[test]
fn message_constructors_set_the_role() {
    let m = Message::new(Role::Bot, "x");
    assert_eq!(m.role, Role::Bot);
    assert_eq!(m.text, "x");
    assert_eq!(Message::system("s").role, Role::System);
    assert_eq!(Message::user("こんにちは！").role, Role::User);
    assert_eq!(Message::user("こんにちは！").text, "こんにちは！");
    assert_eq!(Message::assistant("a").role, Role::Assistant);
}

#[test]
fn message_clone_is_equal() {
    let m = Message::user("hello");
    let c = m.clone();
    assert_eq!(c.role, m.role);
    assert_eq!(c.text, m.text);
}

#[test]
fn message_from_a_pair() {
    let m = Message::from((Role::User, "hi"));
    assert_eq!(m.role, Role::User);
    assert_eq!(m.text, "hi");
    let m: Message = (Role::System, "s").into();
    assert_eq!(m.role, Role::System);
    assert_eq!(m.text, "s");
}
