//! What is asked of the speech synthesis server for one text.
//!
//! Speech is made in two requests. The first asks for an audio query, a JSON
//! object that describes how the text is to be spoken. The second sends that
//! object back, with the output format set, and is answered with the audio.
//! The requests themselves are the caller's part; which address each goes to,
//! which parameters it carries and how the query is changed is said here.

use crate::error::{Error, ErrorView};
use vstd::prelude::*;
use vstd::string::StringExecFns;

verus! {

/// A JSON value of the `serde_json` crate. Nothing inside it is visible to
/// the proofs.
#[verifier::external_type_specification]
#[verifier::external_body]
pub struct ExJsonValue(serde_json::Value);

/// Where the synthesis server listens.
pub const HOST: &'static str = "http://127.0.0.1:50021";

/// The path that answers with an audio query.
pub const AUDIO_QUERY: &'static str = "/audio_query";

/// The path that answers with audio.
pub const SYNTHESIS: &'static str = "/synthesis";

/// The name of the parameter that carries the text.
pub const TEXT_PARAM: &'static str = "text";

/// The name of the parameter that carries the speaker.
pub const SPEAKER_PARAM: &'static str = "speaker";

/// The field of an audio query that holds the sampling rate.
pub const SAMPLING_RATE_FIELD: &'static str = "output_sampling_rate";

/// The field of an audio query that says whether the audio is stereo.
pub const STEREO_FIELD: &'static str = "output_stereo";

/// The sampling rate of the audio asked for, in hertz.
pub const OUTPUT_SAMPLING_RATE: u64 = 48_000;

/// The audio asked for has two channels.
pub const OUTPUT_STEREO: bool = true;

/// The time after which a request is given up, in seconds.
pub const REQUEST_TIMEOUT_SECS: u64 = 20;

/// The decimal digit that stands for `d`.
pub open spec fn digit(d: nat) -> Seq<char> {
    if d == 0 {
        "0"@
    } else if d == 1 {
        "1"@
    } else if d == 2 {
        "2"@
    } else if d == 3 {
        "3"@
    } else if d == 4 {
        "4"@
    } else if d == 5 {
        "5"@
    } else if d == 6 {
        "6"@
    } else if d == 7 {
        "7"@
    } else if d == 8 {
        "8"@
    } else {
        "9"@
    }
}

/// `n` written in decimal digits, without leading zeros.
pub open spec fn decimal(n: nat) -> Seq<char>
    decreases n,
{
    if n < 10 {
        digit(n)
    } else {
        decimal(n / 10) + digit(n % 10)
    }
}

/// The decimal digit that stands for `d`.
fn digit_str(d: u16) -> (s: &'static str)
    requires
        d < 10,
    ensures
        s@ == digit(d as nat),
{
    if d == 0 {
        "0"
    } else if d == 1 {
        "1"
    } else if d == 2 {
        "2"
    } else if d == 3 {
        "3"
    } else if d == 4 {
        "4"
    } else if d == 5 {
        "5"
    } else if d == 6 {
        "6"
    } else if d == 7 {
        "7"
    } else if d == 8 {
        "8"
    } else {
        "9"
    }
}

/// Writes a speaker's number in decimal digits.
pub fn speaker_text(speaker: u16) -> (text: String)
    ensures
        text@ == decimal(speaker as nat),
    decreases speaker,
{
    if speaker < 10 {
        String::from_str(digit_str(speaker))
    } else {
        speaker_text(speaker / 10).concat(digit_str(speaker % 10))
    }
}

/// The address that answers with an audio query.
pub fn audio_query_url() -> (url: String)
    ensures
        url@ == HOST@ + AUDIO_QUERY@,
{
    String::from_str(HOST).concat(AUDIO_QUERY)
}

/// The address that answers with audio.
pub fn synthesis_url() -> (url: String)
    ensures
        url@ == HOST@ + SYNTHESIS@,
{
    String::from_str(HOST).concat(SYNTHESIS)
}

/// The mathematical content of a list of query parameters.
pub open spec fn params_view(params: Seq<(String, String)>) -> Seq<(Seq<char>, Seq<char>)> {
    params.map_values(|p: (String, String)| (p.0@, p.1@))
}

/// The parameters of the request for an audio query: the text, then the
/// speaker.
pub fn audio_query_params(text: &str, speaker: u16) -> (params: Vec<(String, String)>)
    ensures
        params_view(params@) == seq![
            (TEXT_PARAM@, text@),
            (SPEAKER_PARAM@, decimal(speaker as nat)),
        ],
{
    let mut params: Vec<(String, String)> = Vec::new();
    params.push((String::from_str(TEXT_PARAM), String::from_str(text)));
    params.push((String::from_str(SPEAKER_PARAM), speaker_text(speaker)));
    assert(params_view(params@) =~= seq![
        (TEXT_PARAM@, text@),
        (SPEAKER_PARAM@, decimal(speaker as nat)),
    ]);
    params
}

/// The parameters of the request for audio: the speaker.
pub fn synthesis_params(speaker: u16) -> (params: Vec<(String, String)>)
    ensures
        params_view(params@) == seq![(SPEAKER_PARAM@, decimal(speaker as nat))],
{
    let mut params: Vec<(String, String)> = Vec::new();
    params.push((String::from_str(SPEAKER_PARAM), speaker_text(speaker)));
    assert(params_view(params@) =~= seq![(SPEAKER_PARAM@, decimal(speaker as nat))]);
    params
}

/// Whether a JSON value is an object, as `Value::is_object` reports it.
pub uninterp spec fn json_is_object(value: serde_json::Value) -> bool;

/// Whether a JSON value is null, as `Value::is_null` reports it.
pub uninterp spec fn json_is_null(value: serde_json::Value) -> bool;

/// The JSON number that `Value::from` makes of an unsigned integer.
pub uninterp spec fn json_number(number: u64) -> serde_json::Value;

/// The JSON boolean that `Value::from` makes of a `bool`.
pub uninterp spec fn json_flag(flag: bool) -> serde_json::Value;

/// The JSON value that `value` becomes when `field` is assigned to it under
/// the string index `key`.
pub uninterp spec fn json_with(
    value: serde_json::Value,
    key: Seq<char>,
    field: serde_json::Value,
) -> serde_json::Value;

/// Calls `Value::is_object`.
#[verifier::external_body]
fn is_object(value: &serde_json::Value) -> (b: bool)
    ensures
        b == json_is_object(*value),
{
    value.is_object()
}

/// Calls `Value::is_null`.
#[verifier::external_body]
fn is_null(value: &serde_json::Value) -> (b: bool)
    ensures
        b == json_is_null(*value),
{
    value.is_null()
}

/// Calls `Value::from` on an unsigned integer.
#[verifier::external_body]
fn number_value(number: u64) -> (value: serde_json::Value)
    ensures
        value == json_number(number),
{
    serde_json::Value::from(number)
}

/// Calls `Value::from` on a `bool`.
#[verifier::external_body]
fn flag_value(flag: bool) -> (value: serde_json::Value)
    ensures
        value == json_flag(flag),
{
    serde_json::Value::from(flag)
}

/// Assigns `field` to `value` under the string index `key`, through the
/// crate's `IndexMut`. That index panics on a value that is neither an
/// object nor null, so such a value is not admitted. A null is first made an
/// empty object, so that what is left is an object in either case; beyond
/// that the contract only names the outcome.
#[verifier::external_body]
fn put(value: &mut serde_json::Value, key: &str, field: serde_json::Value)
    requires
        json_is_object(*old(value)) || json_is_null(*old(value)),
    ensures
        *final(value) == json_with(*old(value), key@, field),
        json_is_object(*final(value)),
{
    value[key] = field;
}

/// Whether fields can be set on a JSON value: on an object, and on null,
/// which counts as the empty object.
pub open spec fn takes_fields(value: serde_json::Value) -> bool {
    json_is_object(value) || json_is_null(value)
}

/// An audio query with the output format set: the sampling rate first, then
/// the stereo flag.
pub open spec fn output_format_of(query: serde_json::Value) -> serde_json::Value {
    json_with(
        json_with(query, SAMPLING_RATE_FIELD@, json_number(OUTPUT_SAMPLING_RATE)),
        STEREO_FIELD@,
        json_flag(OUTPUT_STEREO),
    )
}

/// The text of the error for an audio query on which no field can be set.
pub open spec fn bad_query() -> Seq<char> {
    "audio query is not a JSON object"@
}

/// Sets the output format on an audio query: 48 kHz, stereo. Fails with
/// [`Error::External`] on a value on which no field can be set.
pub fn with_output_format(query: serde_json::Value) -> (r: Result<serde_json::Value, Error>)
    ensures
        match r {
            Ok(changed) => takes_fields(query) && changed == output_format_of(query),
            Err(e) => !takes_fields(query) && e@ == ErrorView::External(bad_query()),
        },
{
    if !(is_object(&query) || is_null(&query)) {
        return Err(Error::External(String::from_str("audio query is not a JSON object")));
    }
    let mut changed = query;
    put(&mut changed, SAMPLING_RATE_FIELD, number_value(OUTPUT_SAMPLING_RATE));
    put(&mut changed, STEREO_FIELD, flag_value(OUTPUT_STEREO));
    Ok(changed)
}

} // verus!
