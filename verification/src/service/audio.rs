//! Picks the audio device that playback goes to.

use crate::error::{Error, ErrorView};
use crate::text::{chars_of, text_view};
use vstd::prelude::*;

verus! {

/// The name, or part of the name, of the loopback device that carries the
/// avatar's voice.
pub const LOOPBACK_DEVICE: &'static str = "BlackHole";

/// Whether `needle` stands in `hay` at position `at`.
pub open spec fn occurs_at(hay: Seq<char>, needle: Seq<char>, at: int) -> bool {
    0 <= at && at + needle.len() <= hay.len() && hay.subrange(at, at + needle.len()) == needle
}

/// Whether `needle` stands somewhere in `hay`.
pub open spec fn contains_text(hay: Seq<char>, needle: Seq<char>) -> bool {
    exists|at: int| occurs_at(hay, needle, at)
}

/// Whether a device of this name is the loopback device. A device whose name
/// could not be read is not.
pub open spec fn is_loopback(name: Option<Seq<char>>) -> bool {
    name matches Some(text) && contains_text(text, LOOPBACK_DEVICE@)
}

/// Whether `needle` stands in `hay` at position `at`.
fn matches_at(hay: &Vec<char>, needle: &Vec<char>, at: usize) -> (b: bool)
    requires
        at + needle@.len() <= hay@.len(),
    ensures
        b == occurs_at(hay@, needle@, at as int),
{
    let n = needle.len();
    let m = hay.len();
    let mut k: usize = 0;
    while k < n
        invariant
            k <= n,
            n == needle@.len(),
            m == hay@.len(),
            at + n <= m,
            forall|j: int| 0 <= j < k ==> hay@[at + j] == needle@[j],
        decreases n - k,
    {
        if hay[at + k] != needle[k] {
            assert(hay@.subrange(at as int, at + n)[k as int] != needle@[k as int]);
            return false;
        }
        k += 1;
    }
    assert(hay@.subrange(at as int, at + n) =~= needle@);
    true
}

/// Whether `needle` stands somewhere in `hay`.
pub fn contains(hay: &str, needle: &str) -> (b: bool)
    ensures
        b == contains_text(hay@, needle@),
{
    let text = chars_of(hay);
    let word = chars_of(needle);
    if word.len() > text.len() {
        return false;
    }
    let last = text.len() - word.len();
    let mut at: usize = 0;
    loop
        invariant
            at <= last,
            last + word@.len() == text@.len(),
            text@ == hay@,
            word@ == needle@,
            forall|i: int| 0 <= i < at ==> !occurs_at(text@, word@, i),
        decreases last - at,
    {
        if matches_at(&text, &word, at) {
            assert(occurs_at(hay@, needle@, at as int));
            return true;
        }
        if at == last {
            return false;
        }
        at += 1;
    }
}

/// The position of the first loopback device among `names`, where each entry
/// is a device's name or `None` where the name could not be read. Fails with
/// [`Error::AudioDeviceNotFound`] where there is none.
pub fn pick_device(names: &Vec<Option<String>>) -> (r: Result<usize, Error>)
    ensures
        match r {
            Ok(at) => at < names@.len() && is_loopback(text_view(names@[at as int]))
                && forall|i: int|
                0 <= i < at ==> !is_loopback(text_view(#[trigger] names@[i])),
            Err(e) => e@ == ErrorView::AudioDeviceNotFound && forall|i: int|
                0 <= i < names@.len() ==> !is_loopback(
                    text_view(#[trigger] names@[i]),
                ),
        },
{
    let n = names.len();
    let mut at: usize = 0;
    while at < n
        invariant
            at <= n,
            n == names@.len(),
            forall|i: int|
                0 <= i < at ==> !is_loopback(text_view(#[trigger] names@[i])),
        decreases n - at,
    {
        let found = match &names[at] {
            Some(name) => contains(name.as_str(), LOOPBACK_DEVICE),
            None => false,
        };
        if found {
            return Ok(at);
        }
        at += 1;
    }
    Err(Error::AudioDeviceNotFound)
}

} // verus!
