use ai_tuber::model::emotion::Emotion;
use ai_tuber::service::segment::{assemble, emotion_of_mark, Segment, TagScanner, TAG_PATTERN};

fn pairs(segments: &[Segment]) -> Vec<(Emotion, String)> {
    segments.iter().map(|s| (s.emotion, s.text.clone())).collect()
}

fn parse(reply: &str) -> Vec<(Emotion, String)> {
    let scanner = TagScanner::new().expect("the tag pattern compiles");
    pairs(&scanner.parse(reply))
}

#[test]
fn scanner_keeps_the_tag_pattern() {
    let scanner = TagScanner::new().expect("the tag pattern compiles");
    assert_eq!(scanner.pattern_text(), TAG_PATTERN);
}

#[test]
fn two_tags_give_two_segments_in_order() {
    assert_eq!(
        parse("[happy]Hi there[sad]Bye"),
        vec![(Emotion::Happy, "Hi there".to_string()), (Emotion::Sad, "Bye".to_string())]
    );
}

#[test]
fn unknown_bracket_word_is_text() {
    assert_eq!(parse("[bogus]Hello"), vec![(Emotion::Neutral, "[bogus]Hello".to_string())]);
}

#[test]
fn reply_without_tags_is_one_neutral_segment() {
    assert_eq!(parse("  Hello there \n"), vec![(Emotion::Neutral, "Hello there".to_string())]);
}

#[test]
fn blank_reply_gives_no_segment() {
    assert_eq!(parse(""), vec![]);
    assert_eq!(parse(" \t\n "), vec![]);
}

#[test]
fn reply_of_tags_only_gives_no_segment() {
    assert_eq!(parse("[happy][sad] [angry]\n"), vec![]);
}

#[test]
fn text_before_the_first_tag_is_neutral() {
    assert_eq!(
        parse("Well. [surprised]Oh!"),
        vec![(Emotion::Neutral, "Well.".to_string()), (Emotion::Surprised, "Oh!".to_string())]
    );
}

#[test]
fn tags_match_in_any_case_and_swallow_white_space() {
    assert_eq!(
        parse("[HAPPY]  Yay  [Relaxed]\n fine [aNgRy]grr"),
        vec![
            (Emotion::Happy, "Yay".to_string()),
            (Emotion::Relaxed, "fine".to_string()),
            (Emotion::Angry, "grr".to_string()),
        ]
    );
}

#[test]
fn blank_span_between_tags_is_dropped() {
    assert_eq!(
        parse("[sad][neutral]ok"),
        vec![(Emotion::Neutral, "ok".to_string())]
    );
}

#[test]
fn every_tag_name_maps_to_its_emotion() {
    assert_eq!(emotion_of_mark("[neutral]"), Emotion::Neutral);
    assert_eq!(emotion_of_mark("[happy]"), Emotion::Happy);
    assert_eq!(emotion_of_mark("[sad] "), Emotion::Sad);
    assert_eq!(emotion_of_mark("[angry]\n"), Emotion::Angry);
    assert_eq!(emotion_of_mark("[relaxed]"), Emotion::Relaxed);
    assert_eq!(emotion_of_mark("[Surprised]"), Emotion::Surprised);
    assert_eq!(emotion_of_mark("[bogus]"), Emotion::Neutral);
    assert_eq!(emotion_of_mark(""), Emotion::Neutral);
    assert_eq!(emotion_of_mark("[happy"), Emotion::Happy);
}

#[test]
fn assemble_pairs_each_span_with_the_tag_before_it() {
    let marks = vec!["[happy]".to_string(), "[sad] ".to_string()];
    let gaps = vec![" intro ".to_string(), "one".to_string(), "two ".to_string()];
    assert_eq!(
        pairs(&assemble(&marks, &gaps)),
        vec![
            (Emotion::Neutral, "intro".to_string()),
            (Emotion::Happy, "one".to_string()),
            (Emotion::Sad, "two".to_string()),
        ]
    );
}

#[test]
fn assemble_ignores_spans_without_a_tag() {
    let marks = vec!["[happy]".to_string()];
    let gaps = vec!["a".to_string(), "b".to_string(), "c".to_string()];
    assert_eq!(
        pairs(&assemble(&marks, &gaps)),
        vec![(Emotion::Neutral, "a".to_string()), (Emotion::Happy, "b".to_string())]
    );
    assert_eq!(pairs(&assemble(&marks, &vec![])), vec![]);
}

#[test]
fn non_ascii_text_is_kept_whole() {
    assert_eq!(
        parse("[happy]こんにちは！\u{3000}[sad]さようなら"),
        vec![(Emotion::Happy, "こんにちは！".to_string()), (Emotion::Sad, "さようなら".to_string())]
    );
}
