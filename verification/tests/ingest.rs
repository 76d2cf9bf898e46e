use ai_tuber::service::ingest::{
    forwards, plain_text, starts_command, take_in, ChatPiece, Intake, PendingInputQueue,
    QUEUE_CAPACITY,
};

#[test]
fn overflow_drops_the_newest_message() {
    for capacity in 0..6usize {
        let mut queue = PendingInputQueue::new(capacity);
        for i in 0..capacity {
            assert!(queue.offer(format!("m{}", i)));
        }
        assert!(!queue.offer("overflow".to_string()));
        assert_eq!(queue.len(), capacity);
        for i in 0..capacity {
            assert_eq!(queue.take(), Some(format!("m{}", i)));
        }
        assert_eq!(queue.take(), None);
    }
}

#[test]
fn default_capacity_is_thirty_two() {
    let mut queue = PendingInputQueue::new(QUEUE_CAPACITY);
    assert_eq!(queue.capacity(), 32);
    for i in 0..33 {
        assert_eq!(queue.offer(format!("m{}", i)), i < 32);
    }
    assert_eq!(queue.len(), 32);
    assert_eq!(queue.take(), Some("m0".to_string()));
}

#[test]
fn the_queue_itself_takes_any_text() {
    let mut queue = PendingInputQueue::new(2);
    assert!(queue.offer("!raw".to_string()));
    assert_eq!(queue.take(), Some("!raw".to_string()));
}

#[test]
fn commands_never_enter_the_queue() {
    let mut queue = PendingInputQueue::new(2);
    assert_eq!(take_in(&mut queue, "!skip".to_string()), Intake::Filtered);
    assert_eq!(take_in(&mut queue, "!".to_string()), Intake::Filtered);
    assert!(queue.is_empty());
    assert_eq!(take_in(&mut queue, "hi!".to_string()), Intake::Queued);
    assert_eq!(take_in(&mut queue, " !x".to_string()), Intake::Queued);
    assert_eq!(take_in(&mut queue, "!late".to_string()), Intake::Filtered);
    assert_eq!(take_in(&mut queue, "more".to_string()), Intake::Dropped);
    assert_eq!(queue.take(), Some("hi!".to_string()));
    assert_eq!(queue.take(), Some(" !x".to_string()));
}

#[test]
fn taking_makes_room_again() {
    let mut queue = PendingInputQueue::new(1);
    assert!(queue.offer("a".to_string()));
    assert!(!queue.offer("b".to_string()));
    assert_eq!(queue.take(), Some("a".to_string()));
    assert!(queue.offer("c".to_string()));
    assert_eq!(queue.take(), Some("c".to_string()));
    assert_eq!(queue.take(), None);
}

#[test]
fn empty_text_is_no_command() {
    assert!(!starts_command(""));
    assert!(starts_command("!a"));
    assert!(!starts_command("a!"));
    assert!(!starts_command("！a"));
}

#[test]
fn plain_text_joins_the_text_pieces() {
    let pieces = vec![
        ChatPiece::Text("Hello ".to_string()),
        ChatPiece::Other,
        ChatPiece::Text("world".to_string()),
        ChatPiece::Other,
    ];
    assert_eq!(plain_text(&pieces), "Hello world");
    assert_eq!(plain_text(&vec![]), "");
    assert_eq!(plain_text(&vec![ChatPiece::Other]), "");
}

#[test]
fn items_without_author_or_text_are_not_forwarded() {
    assert!(forwards("ann", "hi"));
    assert!(!forwards("", "hi"));
    assert!(!forwards("ann", ""));
    assert!(!forwards("", ""));
}
