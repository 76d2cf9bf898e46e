use ai_tuber::error::Error;

#[test]
fn messages_of_all_errors() {
    assert_eq!(Error::AudioDeviceNotFound.message(), "audio device \"BlackHole\" not found");
    assert_eq!(Error::InvalidConfig("x".to_string()).message(), "invalid configuration: x");
    assert_eq!(
        Error::MissingEnvVar("KEY".to_string()).message(),
        "missing environment variable: KEY"
    );
    assert_eq!(
        Error::InvalidGeminiResponse("no json".to_string()).message(),
        "invalid gemini response: no json"
    );
    assert_eq!(Error::External("boom".to_string()).message(), "boom");
}
