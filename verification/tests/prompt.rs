use ai_tuber::history::History;
use ai_tuber::model::conversation::{Message, Role};
use ai_tuber::service::prompt::{build, build_spontaneous_prompt, EMOTION_GUIDE};

#[test]
fn first_user_message_gives_two_user_entries() {
    let mut history = History::new(10);
    history.append(Message::user("hello"));
    let window = history.window(10);
    let contents = build("You are kind.", &window, EMOTION_GUIDE);
    assert_eq!(contents.len(), 2);
    let roles: Vec<&str> = contents.iter().map(|c| c.role.as_str()).collect();
    assert_eq!(roles, vec!["user", "user"]);
    assert_eq!(contents[0].parts.len(), 1);
    assert_eq!(contents[0].parts[0].text, format!("You are kind.\n{}", EMOTION_GUIDE));
    assert_eq!(contents[1].parts.len(), 1);
    assert_eq!(contents[1].parts[0].text, "hello");
}

#[test]
fn idle_tick_gives_one_entry_with_the_spontaneous_prompt() {
    let contents = build_spontaneous_prompt("Say something.");
    assert_eq!(contents.len(), 1);
    assert_eq!(contents[0].role, "user");
    assert_eq!(contents[0].parts.len(), 1);
    assert_eq!(contents[0].parts[0].text, format!("Say something.\n{}", EMOTION_GUIDE));
}

#[test]
fn assistant_turns_travel_as_model() {
    let window = vec![
        Message::user("a"),
        Message::assistant("b"),
        Message::new(Role::Bot, "c"),
        Message::system("d"),
    ];
    let contents = build("p", &window, "i");
    let roles: Vec<&str> = contents.iter().map(|c| c.role.as_str()).collect();
    assert_eq!(roles, vec!["user", "user", "model", "model", "system"]);
    assert_eq!(contents[0].parts[0].text, "p\ni");
    assert_eq!(contents[3].parts[0].text, "c");
}
