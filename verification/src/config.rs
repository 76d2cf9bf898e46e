//! Turns what the environment holds into the settings of a run.
//!
//! Reading the environment and the files it names is the caller's part. What
//! was found comes in as a [`RawConfig`]; which value wins, which default
//! applies and which error is reported is decided here.
//!
//! The values are resolved in a fixed order, and the first that fails gives
//! the error: the system prompt, the spontaneous prompt, the API key, the
//! speaker, the live URL, the history size, the idle interval.

use crate::error::{Error, ErrorView};
use crate::text::text_view;
use vstd::prelude::*;
use vstd::string::StringExecFns;

verus! {

/// The variable that holds the API key of the model backend. Required.
pub const GEMINI_API_KEY: &'static str = "GEMINI_API_KEY";

/// The variable that names the model.
pub const GEMINI_MODEL: &'static str = "GEMINI_MODEL";

/// The variable that holds the number of the voice.
pub const VOICEVOX_SPEAKER: &'static str = "VOICEVOX_SPEAKER";

/// The variable that holds the address of the live stream. Required.
pub const YOUTUBE_LIVE_URL: &'static str = "YOUTUBE_LIVE_URL";

/// The variable that names a file with the system prompt.
pub const BOT_SYSTEM_PROMPT_FILE: &'static str = "BOT_SYSTEM_PROMPT_FILE";

/// The variable that holds the system prompt itself.
pub const BOT_SYSTEM_PROMPT: &'static str = "BOT_SYSTEM_PROMPT";

/// The variable that names a file with the prompt for unprompted speech.
pub const SPONTANEOUS_PROMPT_FILE: &'static str = "SPONTANEOUS_PROMPT_FILE";

/// The variable that holds the prompt for unprompted speech itself.
pub const SPONTANEOUS_PROMPT: &'static str = "SPONTANEOUS_PROMPT";

/// The variable that holds the number of turn pairs to retain.
pub const MAX_HISTORY: &'static str = "MAX_HISTORY";

/// The variable that holds the idle interval in seconds.
pub const SPONTANEOUS_INTERVAL_SEC: &'static str = "SPONTANEOUS_INTERVAL_SEC";

/// The model asked where none is named.
pub const DEFAULT_GEMINI_MODEL: &'static str = "gemini-2.0-flash";

/// The voice that speaks where none is set.
pub const DEFAULT_VOICEVOX_SPEAKER: u16 = 3;

/// The number of turn pairs retained where none is set.
pub const DEFAULT_MAX_HISTORY: usize = 10;

/// The idle interval where none is set: three minutes.
pub const DEFAULT_SPONTANEOUS_INTERVAL_SEC: u64 = 180;

/// The system prompt where none is given.
pub const DEFAULT_BOT_SYSTEM_PROMPT: &'static str = "あなたは優しい VTuber AI です。";

/// The prompt for unprompted speech where none is given.
pub const DEFAULT_SPONTANEOUS_PROMPT: &'static str = "コメントが途切れたら自由に話してね。";

/// The settings of a run.
#[derive(Debug)]
pub struct Config {
    pub gemini_api_key: String,
    pub gemini_model: String,
    pub voicevox_speaker: u16,
    pub youtube_live_url: String,
    pub bot_system_prompt: String,
    pub max_history: usize,
    /// The time without a message after which the avatar speaks unprompted.
    pub spontaneous_interval: std::time::Duration,
    pub spontaneous_prompt: String,
}

/// The whole seconds of a duration, as `Duration::as_secs` returns them.
pub uninterp spec fn duration_secs(duration: std::time::Duration) -> u64;

/// Calls `Duration::from_secs`: the duration made holds as many whole
/// seconds as it was given.
#[verifier::external_body]
fn duration_from_secs(secs: u64) -> (duration: std::time::Duration)
    ensures
        duration_secs(duration) == secs,
{
    std::time::Duration::from_secs(secs)
}

/// The mathematical content of a [`Config`].
pub struct ConfigView {
    pub gemini_api_key: Seq<char>,
    pub gemini_model: Seq<char>,
    pub voicevox_speaker: u16,
    pub youtube_live_url: Seq<char>,
    pub bot_system_prompt: Seq<char>,
    pub max_history: usize,
    /// The idle interval in whole seconds.
    pub spontaneous_interval_secs: u64,
    pub spontaneous_prompt: Seq<char>,
}

impl View for Config {
    type V = ConfigView;

    open spec fn view(&self) -> ConfigView {
        ConfigView {
            gemini_api_key: self.gemini_api_key@,
            gemini_model: self.gemini_model@,
            voicevox_speaker: self.voicevox_speaker,
            youtube_live_url: self.youtube_live_url@,
            bot_system_prompt: self.bot_system_prompt@,
            max_history: self.max_history,
            spontaneous_interval_secs: duration_secs(self.spontaneous_interval),
            spontaneous_prompt: self.spontaneous_prompt@,
        }
    }
}

impl Clone for Config {
    fn clone(&self) -> (copy: Self)
        ensures
            copy == *self,
    {
        Config {
            gemini_api_key: self.gemini_api_key.clone(),
            gemini_model: self.gemini_model.clone(),
            voicevox_speaker: self.voicevox_speaker,
            youtube_live_url: self.youtube_live_url.clone(),
            bot_system_prompt: self.bot_system_prompt.clone(),
            max_history: self.max_history,
            spontaneous_interval: self.spontaneous_interval,
            spontaneous_prompt: self.spontaneous_prompt.clone(),
        }
    }
}

/// A file that a variable names: its path, and its text where it could be
/// read.
#[derive(Debug)]
pub struct FileText {
    pub path: String,
    pub content: Option<String>,
}

/// The mathematical content of a [`FileText`].
pub struct FileTextView {
    pub path: Seq<char>,
    pub content: Option<Seq<char>>,
}

/// The mathematical content of an optional file.
pub open spec fn file_view(file: Option<FileText>) -> Option<FileTextView> {
    match file {
        Some(file) => Some(FileTextView { path: file.path@, content: text_view(file.content) }),
        None => None,
    }
}

/// What the environment holds of each variable: `None` where it is not set.
#[derive(Debug)]
pub struct RawConfig {
    pub gemini_api_key: Option<String>,
    pub gemini_model: Option<String>,
    pub voicevox_speaker: Option<String>,
    pub youtube_live_url: Option<String>,
    pub bot_system_prompt_file: Option<FileText>,
    pub bot_system_prompt: Option<String>,
    pub spontaneous_prompt_file: Option<FileText>,
    pub spontaneous_prompt: Option<String>,
    pub max_history: Option<String>,
    pub spontaneous_interval_sec: Option<String>,
}

/// The mathematical content of a [`RawConfig`].
pub struct RawConfigView {
    pub gemini_api_key: Option<Seq<char>>,
    pub gemini_model: Option<Seq<char>>,
    pub voicevox_speaker: Option<Seq<char>>,
    pub youtube_live_url: Option<Seq<char>>,
    pub bot_system_prompt_file: Option<FileTextView>,
    pub bot_system_prompt: Option<Seq<char>>,
    pub spontaneous_prompt_file: Option<FileTextView>,
    pub spontaneous_prompt: Option<Seq<char>>,
    pub max_history: Option<Seq<char>>,
    pub spontaneous_interval_sec: Option<Seq<char>>,
}

impl View for RawConfig {
    type V = RawConfigView;

    open spec fn view(&self) -> RawConfigView {
        RawConfigView {
            gemini_api_key: text_view(self.gemini_api_key),
            gemini_model: text_view(self.gemini_model),
            voicevox_speaker: text_view(self.voicevox_speaker),
            youtube_live_url: text_view(self.youtube_live_url),
            bot_system_prompt_file: file_view(self.bot_system_prompt_file),
            bot_system_prompt: text_view(self.bot_system_prompt),
            spontaneous_prompt_file: file_view(self.spontaneous_prompt_file),
            spontaneous_prompt: text_view(self.spontaneous_prompt),
            max_history: text_view(self.max_history),
            spontaneous_interval_sec: text_view(self.spontaneous_interval_sec),
        }
    }
}

/// Whether `c` is one of the ten decimal digits.
pub open spec fn is_digit(c: char) -> bool {
    '0' <= c && c <= '9'
}

/// The number that the decimal digits `digits` spell, the first digit
/// weighing most; `None` where `digits` is empty or holds anything but
/// decimal digits.
pub open spec fn digits_value(digits: Seq<char>) -> Option<nat>
    decreases digits.len(),
{
    if digits.len() == 0 || !is_digit(digits.last()) {
        None
    } else if digits.len() == 1 {
        Some((digits.last() as nat - '0' as nat) as nat)
    } else {
        match digits_value(digits.drop_last()) {
            Some(high) => Some((10 * high + (digits.last() as nat - '0' as nat)) as nat),
            None => None,
        }
    }
}

/// The number that `text` spells as an unsigned decimal: an optional `+`,
/// then one decimal digit or more and nothing else, the whole no larger than
/// a `u64` holds. `None` for every other text.
pub open spec fn parsed_u64(text: Seq<char>) -> Option<u64> {
    let digits = if text.len() > 0 && text[0] == '+' {
        text.drop_first()
    } else {
        text
    };
    match digits_value(digits) {
        Some(number) if number <= u64::MAX => Some(number as u64),
        _ => None,
    }
}

/// Calls `str::parse::<u64>` and drops the reason of a failure. The contract
/// claims what the standard library documents of it: it reads an optional
/// `+` followed by decimal digits only, and fails on an empty text, on any
/// other character and on a number that does not fit.
#[verifier::external_body]
fn parse_u64(text: &str) -> (number: Option<u64>)
    ensures
        number == parsed_u64(text@),
{
    text.parse::<u64>().ok()
}

/// The required value of `key`, or the error that reports it missing.
pub open spec fn required(key: Seq<char>, value: Option<Seq<char>>) -> Result<
    Seq<char>,
    ErrorView,
> {
    match value {
        Some(text) => Ok(text),
        None => Err(ErrorView::MissingEnvVar(key)),
    }
}

/// The text of the error for a value of `key` that is no number in range.
pub open spec fn parse_failure(key: Seq<char>, text: Seq<char>) -> Seq<char> {
    "failed to parse "@ + key + "=\""@ + text + "\""@
}

/// The text of the error for a file that could not be read.
pub open spec fn read_failure(path: Seq<char>) -> Seq<char> {
    "failed to read "@ + path
}

/// The number that a value of `key` stands for, given what was read from it:
/// the default where the variable is not set, the number where one was read
/// that does not exceed `max`, else an error that quotes the variable.
pub open spec fn number_of(
    key: Seq<char>,
    value: Option<Seq<char>>,
    read: Option<u64>,
    default: u64,
    max: u64,
) -> Result<u64, ErrorView> {
    match value {
        None => Ok(default),
        Some(text) => match read {
            Some(number) if number <= max => Ok(number),
            _ => Err(ErrorView::External(parse_failure(key, text))),
        },
    }
}

/// The number that a value of `key` stands for.
pub open spec fn number(key: Seq<char>, value: Option<Seq<char>>, default: u64, max: u64) -> Result<
    u64,
    ErrorView,
> {
    number_of(
        key,
        value,
        match value {
            Some(text) => parsed_u64(text),
            None => None,
        },
        default,
        max,
    )
}

/// The text of a prompt: that of the file where one is named, which must
/// have been read; else the value given directly; else the fallback.
pub open spec fn text_or(
    file: Option<FileTextView>,
    direct: Option<Seq<char>>,
    fallback: Seq<char>,
) -> Result<Seq<char>, ErrorView> {
    match file {
        Some(file) => match file.content {
            Some(text) => Ok(text),
            None => Err(ErrorView::External(read_failure(file.path))),
        },
        None => match direct {
            Some(text) => Ok(text),
            None => Ok(fallback),
        },
    }
}

/// The settings that `raw` resolves to, or the first error met.
pub open spec fn resolved(raw: RawConfigView) -> Result<ConfigView, ErrorView> {
    let bot_system_prompt = text_or(
        raw.bot_system_prompt_file,
        raw.bot_system_prompt,
        DEFAULT_BOT_SYSTEM_PROMPT@,
    );
    let spontaneous_prompt = text_or(
        raw.spontaneous_prompt_file,
        raw.spontaneous_prompt,
        DEFAULT_SPONTANEOUS_PROMPT@,
    );
    let gemini_api_key = required(GEMINI_API_KEY@, raw.gemini_api_key);
    let voicevox_speaker = number(
        VOICEVOX_SPEAKER@,
        raw.voicevox_speaker,
        DEFAULT_VOICEVOX_SPEAKER as u64,
        u16::MAX as u64,
    );
    let youtube_live_url = required(YOUTUBE_LIVE_URL@, raw.youtube_live_url);
    let max_history = number(
        MAX_HISTORY@,
        raw.max_history,
        DEFAULT_MAX_HISTORY as u64,
        usize::MAX as u64,
    );
    let spontaneous_interval = number(
        SPONTANEOUS_INTERVAL_SEC@,
        raw.spontaneous_interval_sec,
        DEFAULT_SPONTANEOUS_INTERVAL_SEC,
        u64::MAX,
    );
    if bot_system_prompt is Err {
        Err(bot_system_prompt->Err_0)
    } else if spontaneous_prompt is Err {
        Err(spontaneous_prompt->Err_0)
    } else if gemini_api_key is Err {
        Err(gemini_api_key->Err_0)
    } else if voicevox_speaker is Err {
        Err(voicevox_speaker->Err_0)
    } else if youtube_live_url is Err {
        Err(youtube_live_url->Err_0)
    } else if max_history is Err {
        Err(max_history->Err_0)
    } else if spontaneous_interval is Err {
        Err(spontaneous_interval->Err_0)
    } else {
        Ok(
            ConfigView {
                gemini_api_key: gemini_api_key->Ok_0,
                gemini_model: match raw.gemini_model {
                    Some(model) => model,
                    None => DEFAULT_GEMINI_MODEL@,
                },
                voicevox_speaker: voicevox_speaker->Ok_0 as u16,
                youtube_live_url: youtube_live_url->Ok_0,
                bot_system_prompt: bot_system_prompt->Ok_0,
                max_history: max_history->Ok_0 as usize,
                spontaneous_interval_secs: spontaneous_interval->Ok_0,
                spontaneous_prompt: spontaneous_prompt->Ok_0,
            },
        )
    }
}

/// Whether `r` is the exec form of `v`.
pub open spec fn text_result_is(r: Result<String, Error>, v: Result<Seq<char>, ErrorView>) -> bool {
    match r {
        Ok(text) => v == Ok::<Seq<char>, ErrorView>(text@),
        Err(e) => v == Err::<Seq<char>, ErrorView>(e@),
    }
}

/// Whether `r` is the exec form of `v`.
pub open spec fn number_result_is(r: Result<u64, Error>, v: Result<u64, ErrorView>) -> bool {
    match r {
        Ok(number) => v == Ok::<u64, ErrorView>(number),
        Err(e) => v == Err::<u64, ErrorView>(e@),
    }
}

/// The value of a variable that must be set.
pub fn env_must(key: &str, value: Option<String>) -> (r: Result<String, Error>)
    ensures
        text_result_is(r, required(key@, text_view(value))),
{
    match value {
        Some(text) => Ok(text),
        None => Err(Error::MissingEnvVar(key.to_owned())),
    }
}

/// The number that a value of `key` stands for, given what was read from it.
pub fn number_from(
    key: &str,
    value: Option<String>,
    read: Option<u64>,
    default: u64,
    max: u64,
) -> (r: Result<u64, Error>)
    ensures
        number_result_is(r, number_of(key@, text_view(value), read, default, max)),
{
    match value {
        None => Ok(default),
        Some(text) => {
            match read {
                Some(number) => {
                    if number <= max {
                        return Ok(number);
                    }
                },
                None => {},
            }
            let mut message = String::from_str("failed to parse ");
            message.append(key);
            message.append("=\"");
            message.append(text.as_str());
            message.append("\"");
            Err(Error::External(message))
        },
    }
}

/// The number that a value of `key` stands for: the default where the
/// variable is not set, else the number it spells, which must not exceed
/// `max`.
pub fn parse_env(key: &str, value: Option<String>, default: u64, max: u64) -> (r: Result<
    u64,
    Error,
>)
    ensures
        number_result_is(r, number(key@, text_view(value), default, max)),
{
    let read = match &value {
        Some(text) => parse_u64(text.as_str()),
        None => None,
    };
    number_from(key, value, read, default, max)
}

/// The text of a prompt: that of the file where one is named, else the value
/// given directly, else the fallback.
pub fn read_text_or_env(file: Option<FileText>, direct: Option<String>, fallback: &str) -> (r:
    Result<String, Error>)
    ensures
        text_result_is(r, text_or(file_view(file), text_view(direct), fallback@)),
{
    match file {
        Some(file) => match file.content {
            Some(text) => Ok(text),
            None => Err(
                Error::External(String::from_str("failed to read ").concat(file.path.as_str())),
            ),
        },
        None => match direct {
            Some(text) => Ok(text),
            None => Ok(fallback.to_owned()),
        },
    }
}

impl Config {
    /// The settings that `raw` resolves to, or the first error met.
    pub fn from_raw(raw: RawConfig) -> (r: Result<Config, Error>)
        ensures
            match r {
                Ok(config) => resolved(raw@) == Ok::<ConfigView, ErrorView>(config@),
                Err(e) => resolved(raw@) == Err::<ConfigView, ErrorView>(e@),
            },
    {
        let bot_system_prompt = match read_text_or_env(
            raw.bot_system_prompt_file,
            raw.bot_system_prompt,
            DEFAULT_BOT_SYSTEM_PROMPT,
        ) {
            Ok(text) => text,
            Err(e) => {
                return Err(e);
            },
        };
        let spontaneous_prompt = match read_text_or_env(
            raw.spontaneous_prompt_file,
            raw.spontaneous_prompt,
            DEFAULT_SPONTANEOUS_PROMPT,
        ) {
            Ok(text) => text,
            Err(e) => {
                return Err(e);
            },
        };
        let gemini_api_key = match env_must(GEMINI_API_KEY, raw.gemini_api_key) {
            Ok(text) => text,
            Err(e) => {
                return Err(e);
            },
        };
        let voicevox_speaker = match parse_env(
            VOICEVOX_SPEAKER,
            raw.voicevox_speaker,
            DEFAULT_VOICEVOX_SPEAKER as u64,
            u16::MAX as u64,
        ) {
            Ok(number) => number as u16,
            Err(e) => {
                return Err(e);
            },
        };
        let youtube_live_url = match env_must(YOUTUBE_LIVE_URL, raw.youtube_live_url) {
            Ok(text) => text,
            Err(e) => {
                return Err(e);
            },
        };
        let max_history = match parse_env(
            MAX_HISTORY,
            raw.max_history,
            DEFAULT_MAX_HISTORY as u64,
            usize::MAX as u64,
        ) {
            Ok(number) => number as usize,
            Err(e) => {
                return Err(e);
            },
        };
        let spontaneous_interval = match parse_env(
            SPONTANEOUS_INTERVAL_SEC,
            raw.spontaneous_interval_sec,
            DEFAULT_SPONTANEOUS_INTERVAL_SEC,
            u64::MAX,
        ) {
            Ok(number) => duration_from_secs(number),
            Err(e) => {
                return Err(e);
            },
        };
        let gemini_model = match raw.gemini_model {
            Some(model) => model,
            None => DEFAULT_GEMINI_MODEL.to_owned(),
        };
        Ok(
            Config {
                gemini_api_key,
                gemini_model,
                voicevox_speaker,
                youtube_live_url,
                bot_system_prompt,
                max_history,
                spontaneous_interval,
                spontaneous_prompt,
            },
        )
    }
}

} // verus!
