//! The model backend's request and response shapes for a conversation in
//! which every entry carries a role.

use vstd::prelude::*;

verus! {

/// One text part of a request entry.
#[derive(Debug)]
pub struct Part {
    pub text: String,
}

/// One entry of a request: a role and its parts.
#[derive(Debug)]
pub struct Content {
    pub role: String,
    pub parts: Vec<Part>,
}

/// The body of a request to the model backend.
#[derive(Debug)]
pub struct GenerateReq {
    pub contents: Vec<Content>,
}

/// The mathematical content of a [`Part`].
pub struct PartView {
    pub text: Seq<char>,
}

/// The mathematical content of a [`Content`].
pub struct ContentView {
    pub role: Seq<char>,
    pub parts: Seq<PartView>,
}

impl View for Part {
    type V = PartView;

    open spec fn view(&self) -> PartView {
        PartView { text: self.text@ }
    }
}

impl DeepView for Part {
    type V = PartView;

    open spec fn deep_view(&self) -> PartView {
        self@
    }
}

impl View for Content {
    type V = ContentView;

    open spec fn view(&self) -> ContentView {
        ContentView { role: self.role@, parts: self.parts.deep_view() }
    }
}

impl DeepView for Content {
    type V = ContentView;

    open spec fn deep_view(&self) -> ContentView {
        self@
    }
}

impl View for GenerateReq {
    type V = Seq<ContentView>;

    open spec fn view(&self) -> Seq<ContentView> {
        self.contents.deep_view()
    }
}

impl Clone for Part {
    fn clone(&self) -> (copy: Self)
        ensures
            copy == *self,
    {
        Part { text: self.text.clone() }
    }
}

impl Clone for Content {
    fn clone(&self) -> (copy: Self)
        ensures
            copy@ == self@,
    {
        let mut parts: Vec<Part> = Vec::new();
        let n = self.parts.len();
        let mut i: usize = 0;
        while i < n
            invariant
                i <= n,
                n == self.parts@.len(),
                parts@ == self.parts@.take(i as int),
            decreases n - i,
        {
            parts.push(self.parts[i].clone());
            assert(parts@ =~= self.parts@.take(i + 1));
            i += 1;
        }
        assert(parts@ =~= self.parts@);
        Content { role: self.role.clone(), parts }
    }
}

/// An entry that holds `text` as its single part.
pub open spec fn single_part(role: Seq<char>, text: Seq<char>) -> ContentView {
    ContentView { role, parts: seq![PartView { text }] }
}

impl Content {
    /// An entry with the given role and `text` as its single part.
    pub fn single(role: &str, text: String) -> (c: Self)
        ensures
            c@ == single_part(role@, text@),
    {
        let mut parts: Vec<Part> = Vec::new();
        parts.push(Part { text });
        let c = Content { role: role.to_owned(), parts };
        assert(c@.parts =~= seq![PartView { text: text@ }]);
        c
    }
}

impl<'a> From<&'a str> for GenerateReq {
    /// A request of one entry that carries `p` under the role `system`.
    fn from(p: &'a str) -> (req: Self)
        ensures
            req@ == seq![single_part("system"@, p@)],
    {
        let mut contents: Vec<Content> = Vec::new();
        contents.push(Content::single("system", p.to_owned()));
        let req = GenerateReq { contents };
        assert(req@ =~= seq![single_part("system"@, p@)]);
        req
    }
}

impl<'a> vstd::std_specs::convert::FromSpecImpl<&'a str> for GenerateReq {
    /// A request owns growable storage, so no specification value stands for
    /// the one that `from` returns: its contract is stated on the view.
    open spec fn obeys_from_spec() -> bool {
        false
    }

    open spec fn from_spec(p: &'a str) -> Self {
        arbitrary()
    }
}

/// One text part of a candidate.
#[derive(Debug)]
pub struct RespPart {
    pub text: String,
}

/// The content of a candidate.
#[derive(Debug)]
pub struct RespContent {
    pub parts: Vec<RespPart>,
}

/// One candidate answer.
#[derive(Debug)]
pub struct Candidate {
    pub content: RespContent,
}

/// The body of the model backend's response.
#[derive(Debug)]
pub struct GenerateRes {
    pub candidates: Vec<Candidate>,
}

impl View for RespPart {
    type V = Seq<char>;

    open spec fn view(&self) -> Seq<char> {
        self.text@
    }
}

impl DeepView for RespPart {
    type V = Seq<char>;

    open spec fn deep_view(&self) -> Seq<char> {
        self@
    }
}

impl View for RespContent {
    type V = Seq<Seq<char>>;

    open spec fn view(&self) -> Seq<Seq<char>> {
        self.parts.deep_view()
    }
}

impl View for Candidate {
    type V = Seq<Seq<char>>;

    open spec fn view(&self) -> Seq<Seq<char>> {
        self.content@
    }
}

impl DeepView for Candidate {
    type V = Seq<Seq<char>>;

    open spec fn deep_view(&self) -> Seq<Seq<char>> {
        self@
    }
}

impl View for GenerateRes {
    /// The texts of the parts of each candidate, in order.
    type V = Seq<Seq<Seq<char>>>;

    open spec fn view(&self) -> Seq<Seq<Seq<char>>> {
        self.candidates.deep_view()
    }
}

/// The first text part found when the candidates are read in order, each
/// with its parts in order; the empty text where no candidate has a part.
pub open spec fn first_text_of(candidates: Seq<Seq<Seq<char>>>) -> Seq<char>
    decreases candidates.len(),
{
    if candidates.len() == 0 {
        Seq::empty()
    } else if candidates[0].len() > 0 {
        candidates[0][0]
    } else {
        first_text_of(candidates.drop_first())
    }
}

/// The first text part of the first candidate; the empty text where there is
/// no candidate or the first has no part.
pub open spec fn first_candidate_text_of(candidates: Seq<Seq<Seq<char>>>) -> Seq<char> {
    if candidates.len() > 0 && candidates[0].len() > 0 {
        candidates[0][0]
    } else {
        Seq::empty()
    }
}

impl GenerateRes {
    /// The text of the first part of the first candidate, or the empty string
    /// where there is no candidate or the first has no part. Later
    /// candidates are not looked at.
    pub fn first_candidate_text(&self) -> (text: String)
        ensures
            text@ == first_candidate_text_of(self@),
    {
        if self.candidates.len() > 0 {
            let parts = &self.candidates[0].content.parts;
            assert(self@[0] == self.candidates[0]@);
            if parts.len() > 0 {
                return parts[0].text.clone();
            }
        }
        String::new()
    }

    /// The text of the first part of the first candidate that has a part, or
    /// the empty string where there is none.
    pub fn first_text(self) -> (text: String)
        ensures
            text@ == first_text_of(self@),
    {
        let n = self.candidates.len();
        let mut i: usize = 0;
        assert(self@.skip(0) =~= self@);
        while i < n
            invariant
                i <= n,
                n == self.candidates@.len(),
                first_text_of(self@) == first_text_of(self@.skip(i as int)),
            decreases n - i,
        {
            let parts = &self.candidates[i].content.parts;
            proof {
                let rest = self@.skip(i as int);
                assert(rest[0] == self.candidates[i as int]@);
                assert(rest.drop_first() =~= self@.skip(i + 1));
            }
            if parts.len() > 0 {
                return parts[0].text.clone();
            }
            i += 1;
        }
        String::new()
    }
}

} // verus!
