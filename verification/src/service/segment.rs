//! Splits a model reply into emotion-tagged segments.
//!
//! A reply is searched for tags of the shape `[name]`, where `name` is one of
//! the six emotion names in any case; white space behind a tag belongs to the
//! tag. The tags cut the reply into spans. The span before the first tag is
//! spoken with `Neutral`, every later span with the emotion of the tag in
//! front of it. A span is stripped of the white space around it, and a span
//! of which nothing is left gives no segment. Brackets around any other word
//! are ordinary text.
//!
//! The search is done by the `regex` crate. What it finds is not restated
//! here: the contracts name it, and say exactly what is made of it.

use crate::error::{Error, ErrorView};
use crate::model::emotion::Emotion;
use crate::text::{before, chars_of, is_blank, len_before, trim, trimmed};
use vstd::prelude::*;
use vstd::slice::slice_subrange;

verus! {

/// A compiled regular expression of the `regex` crate. Nothing inside it is
/// visible to the proofs.
#[verifier::external_type_specification]
#[verifier::external_body]
pub struct ExRegex(regex::Regex);

/// The regular expression that finds a tag: a bracketed emotion name in any
/// case, with the white space that follows it.
pub const TAG_PATTERN: &'static str =
    "(?i)\\[(neutral|happy|sad|angry|relaxed|surprised)\\]\\s*";

/// Whether `Regex::new` accepts `pattern`. It compiles with the crate's
/// default options, so the answer rests on the pattern alone.
pub uninterp spec fn regex_compiles(pattern: Seq<char>) -> bool;

/// The pattern text that a compiled expression was made from, as
/// `Regex::as_str` returns it.
pub uninterp spec fn regex_pattern(re: regex::Regex) -> Seq<char>;

/// The texts of the successive non-overlapping matches of `re` in `haystack`,
/// first to last, as `Regex::find_iter` yields them. The name takes the
/// compiled expression and not its pattern text: an expression can be built
/// with options that the text does not show.
pub uninterp spec fn regex_matches(re: regex::Regex, haystack: Seq<char>) -> Seq<Seq<char>>;

/// The parts of `haystack` that no match of `re` covers, first to last, as
/// `Regex::split` yields them.
pub uninterp spec fn regex_split(re: regex::Regex, haystack: Seq<char>) -> Seq<Seq<char>>;

/// The text read off by taking a gap, a mark, a gap, a mark and so on, ending
/// with the gap that follows the last mark.
pub open spec fn woven(gaps: Seq<Seq<char>>, marks: Seq<Seq<char>>) -> Seq<char>
    decreases marks.len(),
{
    if gaps.len() == 0 {
        Seq::empty()
    } else if marks.len() == 0 {
        gaps[0]
    } else {
        gaps[0] + marks[0] + woven(gaps.drop_first(), marks.drop_first())
    }
}

/// Calls `Regex::new`. A failure is handed on as the text the crate prints
/// for it. The contract names whether the pattern is accepted, and records
/// of a success only that the expression keeps the pattern text it was
/// given.
#[verifier::external_body]
fn compile(pattern: &str) -> (r: Result<regex::Regex, String>)
    ensures
        r is Ok <==> regex_compiles(pattern@),
        r matches Ok(re) ==> regex_pattern(re) == pattern@,
{
    regex::Regex::new(pattern).map_err(|e| e.to_string())
}

/// Calls `Regex::as_str`, which returns the pattern text the expression was
/// made from.
#[verifier::external_body]
fn pattern_of(re: &regex::Regex) -> (pattern: String)
    ensures
        pattern@ == regex_pattern(*re),
{
    re.as_str().to_string()
}

/// Calls `Regex::find_iter` and copies out the text of every match. The
/// contract names the result; it claims nothing about what matches.
#[verifier::external_body]
fn find_all(re: &regex::Regex, haystack: &str) -> (marks: Vec<String>)
    ensures
        marks.deep_view() == regex_matches(*re, haystack@),
{
    re.find_iter(haystack).map(|m| m.as_str().to_string()).collect()
}

/// Calls `Regex::split` and copies out every part. Beside the name of the
/// result the contract claims what the iterator's source shows: it walks the
/// matches of `find_iter`, yields the text between one match and the next,
/// and ends with the text behind the last match, so that there is one part
/// more than there are matches and parts and matches in turn spell the
/// haystack.
#[verifier::external_body]
fn split_all(re: &regex::Regex, haystack: &str) -> (gaps: Vec<String>)
    ensures
        gaps.deep_view() == regex_split(*re, haystack@),
        gaps@.len() == regex_matches(*re, haystack@).len() + 1,
        woven(gaps.deep_view(), regex_matches(*re, haystack@)) == haystack@,
{
    re.split(haystack).map(|part| part.to_string()).collect()
}

/// One spoken unit of a reply: a text and the expression shown with it.
#[derive(Debug)]
pub struct Segment {
    pub emotion: Emotion,
    pub text: String,
}

/// The mathematical content of a [`Segment`].
pub struct SegmentView {
    pub emotion: Emotion,
    pub text: Seq<char>,
}

impl View for Segment {
    type V = SegmentView;

    open spec fn view(&self) -> SegmentView {
        SegmentView { emotion: self.emotion, text: self.text@ }
    }
}

impl DeepView for Segment {
    type V = SegmentView;

    open spec fn deep_view(&self) -> SegmentView {
        self@
    }
}

impl Clone for Segment {
    fn clone(&self) -> (copy: Self)
        ensures
            copy == *self,
    {
        Segment { emotion: self.emotion, text: self.text.clone() }
    }
}

/// The name inside a tag: what stands behind the first character of `mark`
/// and before the first `]`.
pub open spec fn tag_name(mark: Seq<char>) -> Seq<char> {
    if mark.len() == 0 {
        Seq::empty()
    } else {
        before(mark.drop_first(), ']')
    }
}

/// The expression a tag asks for: the one its name stands for, `Neutral`
/// where the name is not an emotion name in ASCII letters.
pub open spec fn mark_emotion(mark: Seq<char>) -> Emotion {
    match Emotion::named(tag_name(mark)) {
        Some(emotion) => emotion,
        None => Emotion::Neutral,
    }
}

/// The expression of the span at index `i`: `Neutral` for the span in front
/// of the first tag, else that of the tag in front of the span.
pub open spec fn span_emotion(marks: Seq<Seq<char>>, i: int) -> Emotion {
    if i == 0 {
        Emotion::Neutral
    } else {
        mark_emotion(marks[i - 1])
    }
}

/// The number of spans that have an expression: every span but those that
/// have no tag in front of them, the first excepted.
pub open spec fn paired(marks: Seq<Seq<char>>, gaps: Seq<Seq<char>>) -> nat {
    if gaps.len() <= marks.len() + 1 {
        gaps.len()
    } else {
        marks.len() + 1
    }
}

/// The segments made of the first `n` spans.
pub open spec fn segments_upto(marks: Seq<Seq<char>>, gaps: Seq<Seq<char>>, n: nat) -> Seq<
    SegmentView,
>
    decreases n,
{
    if n == 0 {
        Seq::empty()
    } else {
        let earlier = segments_upto(marks, gaps, (n - 1) as nat);
        let text = trimmed(gaps[n - 1]);
        if text.len() == 0 {
            earlier
        } else {
            earlier.push(SegmentView { emotion: span_emotion(marks, n - 1), text })
        }
    }
}

/// The segments of a reply whose tags are `marks` and whose spans are `gaps`:
/// in the order of the spans, each span that is not blank, stripped of the
/// white space around it, with its expression.
pub open spec fn segments_of(marks: Seq<Seq<char>>, gaps: Seq<Seq<char>>) -> Seq<SegmentView> {
    segments_upto(marks, gaps, paired(marks, gaps))
}

/// The segments of a reply that holds no tag: the whole reply, stripped, as
/// one `Neutral` segment, or nothing where the reply is blank.
pub open spec fn untagged(reply: Seq<char>) -> Seq<SegmentView> {
    if is_blank(reply) {
        Seq::empty()
    } else {
        seq![SegmentView { emotion: Emotion::Neutral, text: trimmed(reply) }]
    }
}

/// The expression a tag asks for.
pub fn emotion_of_mark(mark: &str) -> (emotion: Emotion)
    ensures
        emotion == mark_emotion(mark@),
{
    let chars = chars_of(mark);
    if chars.len() == 0 {
        assert(chars@ =~= tag_name(mark@));
        return match Emotion::from_chars(chars.as_slice()) {
            Some(emotion) => emotion,
            None => Emotion::Neutral,
        };
    }
    let rest = slice_subrange(chars.as_slice(), 1, chars.len());
    assert(rest@ =~= mark@.drop_first());
    let n = len_before(rest, ']');
    let name = slice_subrange(rest, 0, n);
    assert(name@ =~= tag_name(mark@));
    match Emotion::from_chars(name) {
        Some(emotion) => emotion,
        None => Emotion::Neutral,
    }
}

/// Makes the segments of a reply from its tags and its spans.
pub fn assemble(marks: &Vec<String>, gaps: &Vec<String>) -> (segs: Vec<Segment>)
    ensures
        segs.deep_view() == segments_of(marks.deep_view(), gaps.deep_view()),
{
    let count: usize = if gaps.len() <= marks.len() {
        gaps.len()
    } else {
        marks.len() + 1
    };
    let ghost m = marks.deep_view();
    let ghost g = gaps.deep_view();
    assert(count == paired(m, g));
    let mut segs: Vec<Segment> = Vec::new();
    assert(segs.deep_view() =~= segments_upto(m, g, 0));
    let mut i: usize = 0;
    while i < count
        invariant
            i <= count,
            count <= gaps@.len(),
            count <= marks@.len() + 1,
            m == marks.deep_view(),
            g == gaps.deep_view(),
            segs.deep_view() == segments_upto(m, g, i as nat),
        decreases count - i,
    {
        let text = trim(gaps[i].as_str());
        assert(g[i as int] == gaps[i as int]@);
        if !text.is_empty() {
            let emotion = if i == 0 {
                Emotion::Neutral
            } else {
                assert(m[i - 1] == marks[i - 1]@);
                emotion_of_mark(marks[i - 1].as_str())
            };
            let ghost earlier = segs.deep_view();
            segs.push(Segment { emotion, text: text.to_owned() });
            assert(segs.deep_view() =~= earlier.push(
                SegmentView { emotion: span_emotion(m, i as int), text: trimmed(g[i as int]) },
            ));
        }
        i += 1;
    }
    segs
}

/// A reply without tags is one span, the reply itself.
pub proof fn lemma_untagged_is_one_span(gaps: Seq<Seq<char>>, reply: Seq<char>)
    requires
        gaps.len() == 1,
        woven(gaps, Seq::empty()) == reply,
    ensures
        gaps == seq![reply],
{
    assert(gaps =~= seq![reply]);
}

/// Parsing a reply that holds no tag gives exactly one segment, `Neutral`
/// with the stripped reply as its text, or no segment where the reply is
/// blank.
pub proof fn lemma_untagged_reply(reply: Seq<char>)
    ensures
        segments_of(Seq::empty(), seq![reply]) == untagged(reply),
        untagged(reply).len() <= 1,
        !is_blank(reply) ==> untagged(reply).len() == 1 && untagged(reply)[0].emotion
            == Emotion::Neutral && untagged(reply)[0].text == trimmed(reply),
        is_blank(reply) ==> untagged(reply).len() == 0,
{
    let marks = Seq::<Seq<char>>::empty();
    let gaps = seq![reply];
    assert(paired(marks, gaps) == 1);
    assert(segments_upto(marks, gaps, 0) =~= Seq::<SegmentView>::empty());
    assert(segments_upto(marks, gaps, 1) =~= untagged(reply)) by {
        reveal_with_fuel(segments_upto, 2);
    }
}

/// No segment made of the first `n` spans has an empty text, and there are
/// no more segments than spans.
pub proof fn lemma_segments_upto_are_spoken(marks: Seq<Seq<char>>, gaps: Seq<Seq<char>>, n: nat)
    ensures
        segments_upto(marks, gaps, n).len() <= n,
        forall|k: int|
            0 <= k < segments_upto(marks, gaps, n).len() ==> (#[trigger] segments_upto(
                marks,
                gaps,
                n,
            )[k]).text.len() > 0,
    decreases n,
{
    if n > 0 {
        lemma_segments_upto_are_spoken(marks, gaps, (n - 1) as nat);
    }
}

/// A blank span gives no segment: every segment of a reply has a text that
/// is not empty, and there are no more segments than spans.
pub proof fn lemma_segments_are_spoken(marks: Seq<Seq<char>>, gaps: Seq<Seq<char>>)
    ensures
        segments_of(marks, gaps).len() <= gaps.len(),
        forall|k: int|
            0 <= k < segments_of(marks, gaps).len() ==> (#[trigger] segments_of(
                marks,
                gaps,
            )[k]).text.len() > 0,
{
    lemma_segments_upto_are_spoken(marks, gaps, paired(marks, gaps));
}

/// Finds the tags of a reply.
pub struct TagScanner {
    re: regex::Regex,
}

impl TagScanner {
    /// The pattern the scanner searches for.
    pub open spec fn pattern(&self) -> Seq<char> {
        regex_pattern(self.regex())
    }

    /// The compiled expression the scanner searches with.
    pub closed spec fn regex(&self) -> regex::Regex {
        self.re
    }

    /// The tags the scanner finds in `reply`, first to last.
    pub open spec fn marks(&self, reply: Seq<char>) -> Seq<Seq<char>> {
        regex_matches(self.regex(), reply)
    }

    /// The spans the tags cut `reply` into, first to last.
    pub open spec fn gaps(&self, reply: Seq<char>) -> Seq<Seq<char>> {
        regex_split(self.regex(), reply)
    }

    /// The segments of `reply`.
    pub open spec fn segments(&self, reply: Seq<char>) -> Seq<SegmentView> {
        segments_of(self.marks(reply), self.gaps(reply))
    }

    /// A scanner for [`TAG_PATTERN`]. Succeeds exactly where the `regex`
    /// crate accepts the pattern, and fails with [`Error::External`] where it
    /// does not.
    pub fn new() -> (r: Result<TagScanner, Error>)
        ensures
            r is Ok <==> regex_compiles(TAG_PATTERN@),
            r matches Ok(scanner) ==> scanner.pattern() == TAG_PATTERN@,
            r matches Err(e) ==> e@ is External,
    {
        Self::from_compiled(compile(TAG_PATTERN))
    }

    /// A scanner around a compiled expression, or the failure to compile one
    /// as [`Error::External`] with the same text.
    pub fn from_compiled(compiled: Result<regex::Regex, String>) -> (r: Result<TagScanner, Error>)
        ensures
            match compiled {
                Ok(re) => r matches Ok(scanner) && scanner.regex() == re,
                Err(text) => r matches Err(e) && e@ == ErrorView::External(text@),
            },
    {
        match compiled {
            Ok(re) => Ok(TagScanner { re }),
            Err(text) => Err(Error::External(text)),
        }
    }

    /// The pattern the scanner searches for.
    pub fn pattern_text(&self) -> (pattern: String)
        ensures
            pattern@ == self.pattern(),
    {
        pattern_of(&self.re)
    }

    /// Splits `reply` into its segments, in the order in which they are
    /// spoken.
    pub fn parse(&self, reply: &str) -> (segs: Vec<Segment>)
        ensures
            segs.deep_view() == self.segments(reply@),
            self.marks(reply@).len() == 0 ==> segs.deep_view() == untagged(reply@),
    {
        let marks = find_all(&self.re, reply);
        let gaps = split_all(&self.re, reply);
        proof {
            if self.marks(reply@).len() == 0 {
                assert(marks.deep_view() =~= Seq::<Seq<char>>::empty());
                lemma_untagged_is_one_span(gaps.deep_view(), reply@);
                lemma_untagged_reply(reply@);
            }
        }
        assemble(&marks, &gaps)
    }
}

} // verus!
