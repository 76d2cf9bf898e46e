use ai_tuber::error::Error;
use ai_tuber::service::audio::{contains, pick_device};

#[test]
fn contains_finds_a_word_anywhere() {
    assert!(contains("BlackHole 2ch", "BlackHole"));
    assert!(contains("My BlackHole", "BlackHole"));
    assert!(contains("xBlackHolex", "BlackHole"));
    assert!(contains("BlackHole", "BlackHole"));
    assert!(!contains("Blackhole", "BlackHole"));
    assert!(!contains("BlackHol", "BlackHole"));
    assert!(!contains("", "BlackHole"));
    assert!(contains("", ""));
    assert!(contains("abc", ""));
    assert!(contains("ブラックBlackHoleホール", "BlackHole"));
}

#[test]
fn first_loopback_device_is_picked() {
    let names = vec![
        Some("Speakers".to_string()),
        None,
        Some("BlackHole 16ch".to_string()),
        Some("BlackHole 2ch".to_string()),
    ];
    assert_eq!(pick_device(&names).expect("a device"), 2);
}

#[test]
fn no_loopback_device_is_an_error() {
    let names = vec![Some("Speakers".to_string()), None];
    assert!(matches!(pick_device(&names), Err(Error::AudioDeviceNotFound)));
    assert!(matches!(pick_device(&vec![]), Err(Error::AudioDeviceNotFound)));
}
