use ai_tuber::history::History;
use ai_tuber::model::conversation::{Message, Role};

fn texts(turns: &[Message]) -> Vec<String> {
    turns.iter().map(|m| m.text.clone()).collect()
}

#[test]
fn new_history_is_empty() {
    let history = History::new(3);
    assert_eq!(history.len(), 0);
    assert!(history.is_empty());
    assert_eq!(history.max_turns_retained(), 3);
    assert!(history.window(3).is_empty());
}

#[test]
fn append_keeps_at_most_twice_the_limit() {
    let mut history = History::new(2);
    for i in 0..10 {
        history.append(Message::user(&format!("m{}", i)));
        assert!(history.len() <= 4);
        assert_eq!(history.len(), std::cmp::min(i + 1, 4));
    }
    assert_eq!(texts(history.turns()), vec!["m6", "m7", "m8", "m9"]);
}

#[test]
fn eviction_drops_the_oldest_first() {
    let mut history = History::new(1);
    history.append(Message::user("a"));
    history.append(Message::assistant("b"));
    assert_eq!(texts(history.turns()), vec!["a", "b"]);
    history.append(Message::user("c"));
    assert_eq!(texts(history.turns()), vec!["b", "c"]);
    assert_eq!(history.turns()[0].role, Role::Assistant);
    assert_eq!(history.turns()[1].role, Role::User);
}

#[test]
fn history_that_retains_nothing_stays_empty() {
    let mut history = History::new(0);
    history.append(Message::user("a"));
    assert_eq!(history.len(), 0);
    assert!(history.window(5).is_empty());
}

#[test]
fn window_is_the_newest_suffix() {
    let mut history = History::new(5);
    for i in 0..7 {
        history.append(Message::user(&format!("m{}", i)));
    }
    assert_eq!(texts(&history.window(0)), Vec::<String>::new());
    assert_eq!(texts(&history.window(1)), vec!["m5", "m6"]);
    assert_eq!(texts(&history.window(2)), vec!["m3", "m4", "m5", "m6"]);
    assert_eq!(texts(&history.window(4)).len(), 7);
    assert_eq!(texts(&history.window(usize::MAX)).len(), 7);
    assert_eq!(history.len(), 7);
}

#[test]
fn window_never_exceeds_twice_the_turns_asked_for() {
    let mut history = History::new(50);
    for i in 0..40 {
        history.append(Message::assistant(&format!("m{}", i)));
    }
    for n in 0..30usize {
        let window = history.window(n);
        assert!(window.len() <= 2 * n);
        assert_eq!(window.len(), std::cmp::min(40, 2 * n));
        let all = texts(history.turns());
        assert_eq!(texts(&window), all[all.len() - window.len()..].to_vec());
    }
}

#[test]
fn huge_limit_does_not_overflow() {
    let mut history = History::new(usize::MAX);
    history.append(Message::user("a"));
    history.append(Message::user("b"));
    assert_eq!(history.len(), 2);
}
