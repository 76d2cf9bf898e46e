//! The model backend's request shape for a single prompt without roles, and
//! the response shape it shares with a conversation.

use vstd::prelude::*;

pub use crate::model::gemini_dto::{Candidate, GenerateRes, RespContent, RespPart};

verus! {

/// The text part of the request entry.
#[derive(Debug)]
pub struct Part {
    pub text: String,
}

/// The single entry of the request.
#[derive(Debug)]
pub struct Content {
    pub parts: [Part; 1],
}

/// The body of a request that carries one prompt.
#[derive(Debug)]
pub struct GenerateReq {
    pub contents: [Content; 1],
}

impl View for GenerateReq {
    /// The prompt the request carries.
    type V = Seq<char>;

    open spec fn view(&self) -> Seq<char> {
        self.contents[0].parts[0].text@
    }
}

impl<'a> From<&'a str> for GenerateReq {
    /// A request that carries `p`.
    fn from(p: &'a str) -> (req: Self)
        ensures
            req@ == p@,
    {
        GenerateReq { contents: [Content { parts: [Part { text: p.to_owned() }] }] }
    }
}

impl<'a> vstd::std_specs::convert::FromSpecImpl<&'a str> for GenerateReq {
    /// A request owns its text, so no specification value stands for the one
    /// that `from` returns: its contract is stated on the view.
    open spec fn obeys_from_spec() -> bool {
        false
    }

    open spec fn from_spec(p: &'a str) -> Self {
        arbitrary()
    }
}

} // verus!
