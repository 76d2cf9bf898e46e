//! Where the model backend is reached, and what is read from its answer.

use crate::error::{Error, ErrorView};
use crate::model::gemini_dto::{first_text_of, GenerateRes};
use vstd::prelude::*;
use vstd::string::StringExecFns;

verus! {

/// The address under which the models are found.
pub const API_ROOT: &'static str = "https://generativelanguage.googleapis.com/v1beta/models/";

/// The method called on a model.
pub const GENERATE_METHOD: &'static str = ":generateContent";

/// The name of the query parameter that carries the API key.
pub const KEY_PARAM: &'static str = "key";

/// The time after which a request is given up, in seconds.
pub const REQUEST_TIMEOUT_SECS: u64 = 20;

/// The name under which requests are sent.
pub const USER_AGENT: &'static str = "ai_tuber/0.1.0";

/// The address of the generate method of `model`, without a query.
pub open spec fn endpoint_base_of(model: Seq<char>) -> Seq<char> {
    API_ROOT@ + model + GENERATE_METHOD@
}

/// The address of the generate method of `model`, without a query.
pub fn endpoint_base(model: &str) -> (base: String)
    ensures
        base@ == endpoint_base_of(model@),
{
    let mut base = String::from_str(API_ROOT);
    base.append(model);
    base.append(GENERATE_METHOD);
    base
}

/// The address of the generate method of `model` with the key written
/// behind it as it stands.
pub fn endpoint_with_key(model: &str, api_key: &str) -> (url: String)
    ensures
        url@ == endpoint_base_of(model@) + "?key="@ + api_key@,
{
    let mut url = endpoint_base(model);
    url.append("?key=");
    url.append(api_key);
    url
}

/// The text of the URL that `Url::parse_with_params` makes of `base` and the
/// one query pair `name`, `value`; `None` where `base` is no absolute URL.
pub uninterp spec fn url_with_param(base: Seq<char>, name: Seq<char>, value: Seq<char>) -> Option<
    Seq<char>,
>;

/// Calls `Url::parse_with_params` with one query pair and hands the URL back
/// as text. The reason of a failure is dropped. The contract names the
/// answer and claims nothing about how the URL is written.
#[verifier::external_body]
fn parse_with_param(base: &str, name: &str, value: &str) -> (url: Option<String>)
    ensures
        match url {
            Some(text) => url_with_param(base@, name@, value@) == Some(text@),
            None => url_with_param(base@, name@, value@) is None,
        },
{
    reqwest::Url::parse_with_params(base, &[(name, value)]).ok().map(String::from)
}

/// The endpoint, given what came of parsing it: the URL, or the error that
/// reports that none could be made.
pub fn endpoint_from(parsed: Option<String>) -> (r: Result<String, Error>)
    ensures
        match parsed {
            Some(url) => r == Ok::<String, Error>(url),
            None => r matches Err(e) && e@ == ErrorView::External("construct endpoint url"@),
        },
{
    match parsed {
        Some(url) => Ok(url),
        None => Err(Error::External("construct endpoint url".to_owned())),
    }
}

/// The address requests for `model` are sent to, with the API key as its
/// query.
pub fn endpoint(api_key: &str, model: &str) -> (r: Result<String, Error>)
    ensures
        match url_with_param(endpoint_base_of(model@), KEY_PARAM@, api_key@) {
            Some(url) => r matches Ok(text) && text@ == url,
            None => r matches Err(e) && e@ == ErrorView::External("construct endpoint url"@),
        },
{
    let base = endpoint_base(model);
    endpoint_from(parse_with_param(base.as_str(), KEY_PARAM, api_key))
}

/// The reply read from the backend's answer: its first text part, or the
/// empty string where it has none.
pub fn reply_of(answer: GenerateRes) -> (reply: String)
    ensures
        reply@ == first_text_of(answer@),
{
    answer.first_text()
}

} // verus!
