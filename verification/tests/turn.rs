use ai_tuber::model::conversation::Role;
use ai_tuber::model::emotion::Emotion;
use ai_tuber::service::avatar::BlendCommand;
use ai_tuber::service::prompt::EMOTION_GUIDE;
use ai_tuber::service::segment::TagScanner;
use ai_tuber::service::turn::{Action, Event, Trigger, TurnError, TurnExecutor, TurnSettings};

fn executor(max_history: usize) -> TurnExecutor {
    let settings = TurnSettings {
        system_prompt: "SYS".to_string(),
        spontaneous_prompt: "SPON".to_string(),
        max_history,
        speaker: 3,
    };
    TurnExecutor::new(settings, TagScanner::new().expect("the tag pattern compiles"))
}

fn history_of(executor: &TurnExecutor) -> Vec<(Role, String)> {
    executor.history().turns().iter().map(|m| (m.role, m.text.clone())).collect()
}

fn user(text: &str) -> Event {
    Event::Start(Trigger::UserMessage(text.to_string()))
}

fn expect_ask(action: Action) -> Vec<(String, String)> {
    match action {
        Action::Ask(contents) => contents
            .iter()
            .map(|c| {
                assert_eq!(c.parts.len(), 1);
                (c.role.clone(), c.parts[0].text.clone())
            })
            .collect(),
        other => panic!("unexpected: {:?}", other),
    }
}

fn expect_express(action: Action) -> Vec<BlendCommand> {
    match action {
        Action::Express(commands) => commands,
        other => panic!("unexpected: {:?}", other),
    }
}

fn expect_synthesize(action: Action) -> (String, u16) {
    match action {
        Action::Synthesize { text, speaker } => (text, speaker),
        other => panic!("unexpected: {:?}", other),
    }
}

fn expect_play(action: Action) -> Vec<u8> {
    match action {
        Action::Play(audio) => audio,
        other => panic!("unexpected: {:?}", other),
    }
}

#[test]
fn user_message_on_empty_history_asks_with_two_user_entries() {
    let mut ex = executor(10);
    let entries = expect_ask(ex.step(user("hello")));
    assert_eq!(
        entries,
        vec![
            ("user".to_string(), format!("SYS\n{}", EMOTION_GUIDE)),
            ("user".to_string(), "hello".to_string()),
        ]
    );
    assert_eq!(history_of(&ex), vec![(Role::User, "hello".to_string())]);
    assert!(!ex.is_idle());
}

#[test]
fn idle_tick_asks_with_the_spontaneous_prompt_only() {
    let mut ex = executor(10);
    let entries = expect_ask(ex.step(Event::Start(Trigger::Spontaneous)));
    assert_eq!(entries, vec![("user".to_string(), format!("SPON\n{}", EMOTION_GUIDE))]);
    assert!(history_of(&ex).is_empty());
}

#[test]
fn model_failure_appends_no_assistant_turn() {
    let mut ex = executor(10);
    ex.step(user("hello"));
    match ex.step(Event::ModelFailed("timeout".to_string())) {
        Action::Finished(Err(TurnError::Model(text))) => assert_eq!(text, "timeout"),
        other => panic!("unexpected: {:?}", other),
    }
    assert_eq!(history_of(&ex), vec![(Role::User, "hello".to_string())]);
    assert!(ex.is_idle());
    assert_eq!(ex.emotion(), None);

    ex.step(Event::Start(Trigger::Spontaneous));
    match ex.step(Event::ModelFailed("again".to_string())) {
        Action::Finished(Err(TurnError::Model(text))) => assert_eq!(text, "again"),
        other => panic!("unexpected: {:?}", other),
    }
    assert_eq!(history_of(&ex), vec![(Role::User, "hello".to_string())]);
}

#[test]
fn reply_is_spoken_segment_by_segment() {
    let mut ex = executor(10);
    ex.step(user("hello"));
    let commands = expect_express(ex.step(Event::Replied("[happy]Hi there[sad]Bye".to_string())));
    assert_eq!(
        commands,
        vec![BlendCommand::Value { emotion: Emotion::Happy, level: 1 }, BlendCommand::Apply]
    );
    assert_eq!(
        history_of(&ex),
        vec![
            (Role::User, "hello".to_string()),
            (Role::Assistant, "[happy]Hi there[sad]Bye".to_string()),
        ]
    );
    assert_eq!(ex.segments_left(), 1);
    assert_eq!(ex.emotion(), None);

    assert_eq!(expect_synthesize(ex.step(Event::Expressed)), ("Hi there".to_string(), 3));
    assert_eq!(ex.emotion(), Some(Emotion::Happy));
    assert_eq!(expect_play(ex.step(Event::Synthesized(vec![1, 2, 3]))), vec![1, 2, 3]);

    let commands = expect_express(ex.step(Event::Played));
    assert_eq!(
        commands,
        vec![
            BlendCommand::Value { emotion: Emotion::Happy, level: 0 },
            BlendCommand::Value { emotion: Emotion::Sad, level: 1 },
            BlendCommand::Apply,
        ]
    );
    assert_eq!(ex.segments_left(), 0);
    assert_eq!(expect_synthesize(ex.step(Event::Expressed)), ("Bye".to_string(), 3));
    assert_eq!(expect_play(ex.step(Event::Synthesized(vec![9]))), vec![9]);
    match ex.step(Event::Played) {
        Action::Finished(Ok(())) => {}
        other => panic!("unexpected: {:?}", other),
    }
    assert!(ex.is_idle());
    assert_eq!(ex.emotion(), Some(Emotion::Sad));
}

#[test]
fn reply_of_tags_only_is_a_successful_silent_turn() {
    let mut ex = executor(10);
    ex.step(Event::Start(Trigger::Spontaneous));
    match ex.step(Event::Replied("[happy] [sad]".to_string())) {
        Action::Finished(Ok(())) => {}
        other => panic!("unexpected: {:?}", other),
    }
    assert!(ex.is_idle());
    assert_eq!(ex.emotion(), None);
    assert_eq!(history_of(&ex), vec![(Role::Assistant, "[happy] [sad]".to_string())]);
}

#[test]
fn expression_failure_does_not_stop_the_segment() {
    let mut ex = executor(10);
    ex.step(Event::Start(Trigger::Spontaneous));
    expect_express(ex.step(Event::Replied("[angry]Grr".to_string())));
    assert_eq!(
        expect_synthesize(ex.step(Event::ExpressionFailed("no socket".to_string()))),
        ("Grr".to_string(), 3)
    );
    assert_eq!(ex.emotion(), None);
    expect_play(ex.step(Event::Synthesized(vec![0])));
    match ex.step(Event::Played) {
        Action::Finished(Ok(())) => {}
        other => panic!("unexpected: {:?}", other),
    }
}

#[test]
fn synthesis_failure_aborts_the_remaining_segments() {
    let mut ex = executor(10);
    ex.step(Event::Start(Trigger::Spontaneous));
    expect_express(ex.step(Event::Replied("[happy]one[sad]two".to_string())));
    expect_synthesize(ex.step(Event::Expressed));
    match ex.step(Event::SynthesisFailed("503".to_string())) {
        Action::Finished(Err(TurnError::Synthesis(text))) => assert_eq!(text, "503"),
        other => panic!("unexpected: {:?}", other),
    }
    assert!(ex.is_idle());
    assert_eq!(ex.segments_left(), 0);
    assert_eq!(ex.emotion(), Some(Emotion::Happy));
    expect_ask(ex.step(user("next")));
}

#[test]
fn playback_failure_aborts_the_remaining_segments() {
    let mut ex = executor(10);
    ex.step(Event::Start(Trigger::Spontaneous));
    expect_express(ex.step(Event::Replied("[happy]one[sad]two".to_string())));
    expect_synthesize(ex.step(Event::Expressed));
    expect_play(ex.step(Event::Synthesized(vec![1])));
    match ex.step(Event::PlaybackFailed("no device".to_string())) {
        Action::Finished(Err(TurnError::Playback(text))) => assert_eq!(text, "no device"),
        other => panic!("unexpected: {:?}", other),
    }
    assert!(ex.is_idle());
    assert_eq!(ex.segments_left(), 0);
}

#[test]
fn events_that_do_not_fit_are_ignored() {
    let mut ex = executor(10);
    assert!(matches!(ex.step(Event::Played), Action::Ignored));
    assert!(matches!(ex.step(Event::Replied("x".to_string())), Action::Ignored));
    assert!(ex.is_idle());
    assert!(history_of(&ex).is_empty());
    ex.step(user("a"));
    assert!(matches!(ex.step(user("b")), Action::Ignored));
    assert!(matches!(ex.step(Event::Start(Trigger::Spontaneous)), Action::Ignored));
    assert!(matches!(ex.step(Event::Expressed), Action::Ignored));
    assert_eq!(history_of(&ex), vec![(Role::User, "a".to_string())]);
    expect_express(ex.step(Event::Replied("hi".to_string())));
    assert!(matches!(ex.step(Event::Synthesized(vec![])), Action::Ignored));
    assert!(matches!(ex.step(Event::ModelFailed("x".to_string())), Action::Ignored));
    assert_eq!(expect_synthesize(ex.step(Event::Expressed)), ("hi".to_string(), 3));
}

#[test]
fn history_is_evicted_and_windowed_across_turns() {
    let mut ex = executor(1);
    ex.step(user("u1"));
    ex.step(Event::Replied("".to_string()));
    assert_eq!(
        history_of(&ex),
        vec![(Role::User, "u1".to_string()), (Role::Assistant, "".to_string())]
    );
    let entries = expect_ask(ex.step(user("u2")));
    assert_eq!(
        entries,
        vec![
            ("user".to_string(), format!("SYS\n{}", EMOTION_GUIDE)),
            ("model".to_string(), "".to_string()),
            ("user".to_string(), "u2".to_string()),
        ]
    );
    ex.step(Event::Replied("r2".to_string()));
    assert_eq!(
        history_of(&ex),
        vec![(Role::User, "u2".to_string()), (Role::Assistant, "r2".to_string())]
    );
}

#[test]
fn neutral_segment_after_an_expression_resets_it() {
    let mut ex = executor(10);
    ex.step(Event::Start(Trigger::Spontaneous));
    expect_express(ex.step(Event::Replied("[happy]a[neutral]b".to_string())));
    expect_synthesize(ex.step(Event::Expressed));
    expect_play(ex.step(Event::Synthesized(vec![])));
    let commands = expect_express(ex.step(Event::Played));
    assert_eq!(
        commands,
        vec![BlendCommand::Value { emotion: Emotion::Happy, level: 0 }, BlendCommand::Apply]
    );
}

#[test]
fn expression_already_shown_is_not_sent_again() {
    let mut ex = executor(10);
    ex.step(Event::Start(Trigger::Spontaneous));
    expect_express(ex.step(Event::Replied("[happy]one[happy]two[neutral]three".to_string())));
    assert_eq!(expect_synthesize(ex.step(Event::Expressed)), ("one".to_string(), 3));
    expect_play(ex.step(Event::Synthesized(vec![1])));
    assert_eq!(expect_synthesize(ex.step(Event::Played)), ("two".to_string(), 3));
    assert_eq!(ex.emotion(), Some(Emotion::Happy));
    assert_eq!(ex.segments_left(), 1);
    assert!(matches!(ex.step(Event::Expressed), Action::Ignored));
    expect_play(ex.step(Event::Synthesized(vec![2])));
    let commands = expect_express(ex.step(Event::Played));
    assert_eq!(
        commands,
        vec![BlendCommand::Value { emotion: Emotion::Happy, level: 0 }, BlendCommand::Apply]
    );
    assert_eq!(expect_synthesize(ex.step(Event::Expressed)), ("three".to_string(), 3));
    expect_play(ex.step(Event::Synthesized(vec![3])));
    assert!(matches!(ex.step(Event::Played), Action::Finished(Ok(()))));
}

#[test]
fn expression_shown_in_an_earlier_turn_is_not_sent_again() {
    let mut ex = executor(10);
    ex.step(Event::Start(Trigger::Spontaneous));
    expect_express(ex.step(Event::Replied("[sad]a".to_string())));
    expect_synthesize(ex.step(Event::Expressed));
    expect_play(ex.step(Event::Synthesized(vec![])));
    assert!(matches!(ex.step(Event::Played), Action::Finished(Ok(()))));
    ex.step(Event::Start(Trigger::Spontaneous));
    assert_eq!(
        expect_synthesize(ex.step(Event::Replied("[sad]b".to_string()))),
        ("b".to_string(), 3)
    );
}

#[test]
fn expression_that_was_not_sent_is_sent_again() {
    let mut ex = executor(10);
    ex.step(Event::Start(Trigger::Spontaneous));
    expect_express(ex.step(Event::Replied("[sad]a[sad]b".to_string())));
    expect_synthesize(ex.step(Event::ExpressionFailed("down".to_string())));
    expect_play(ex.step(Event::Synthesized(vec![])));
    let commands = expect_express(ex.step(Event::Played));
    assert_eq!(
        commands,
        vec![BlendCommand::Value { emotion: Emotion::Sad, level: 1 }, BlendCommand::Apply]
    );
}
