//! Operations on text that the rest of the crate states its contracts with.

use vstd::prelude::*;
use vstd::string::StrSliceExecFns;

verus! {

/// Whether `c` is white space in the sense of Unicode's `White_Space`: the
/// controls from tab to carriage return, the space, the next-line control,
/// the no-break space, the Ogham space mark, the spaces from en quad to hair
/// space, the line and the paragraph separator, the narrow no-break space,
/// the medium mathematical space and the ideographic space.
pub open spec fn is_whitespace(c: char) -> bool {
    ||| '\u{9}' <= c && c <= '\u{d}'
    ||| c == ' '
    ||| c == '\u{85}'
    ||| c == '\u{a0}'
    ||| c == '\u{1680}'
    ||| '\u{2000}' <= c && c <= '\u{200a}'
    ||| c == '\u{2028}'
    ||| c == '\u{2029}'
    ||| c == '\u{202f}'
    ||| c == '\u{205f}'
    ||| c == '\u{3000}'
}

/// Calls `char::is_whitespace`, which tells whether a character has the
/// `White_Space` of Unicode. The contract claims that these are the
/// characters listed in [`is_whitespace`].
#[verifier::external_body]
fn char_is_whitespace(c: char) -> (b: bool)
    ensures
        b == is_whitespace(c),
{
    c.is_whitespace()
}

/// The mathematical content of an optional string.
pub open spec fn text_view(value: Option<String>) -> Option<Seq<char>> {
    match value {
        Some(text) => Some(text@),
        None => None,
    }
}

/// The number of white-space characters that `s` opens with.
pub open spec fn leading_space(s: Seq<char>) -> nat
    decreases s.len(),
{
    if s.len() > 0 && is_whitespace(s[0]) {
        1 + leading_space(s.drop_first())
    } else {
        0
    }
}

/// The number of white-space characters that `s` ends with.
pub open spec fn trailing_space(s: Seq<char>) -> nat
    decreases s.len(),
{
    if s.len() > 0 && is_whitespace(s.last()) {
        1 + trailing_space(s.drop_last())
    } else {
        0
    }
}

/// `s` without the white space it opens with and, of what is left, without
/// the white space it ends with.
pub open spec fn trimmed(s: Seq<char>) -> Seq<char> {
    let rest = s.skip(leading_space(s) as int);
    rest.take(rest.len() - trailing_space(rest))
}

/// Whether `s` holds nothing but white space.
pub open spec fn is_blank(s: Seq<char>) -> bool {
    trimmed(s).len() == 0
}

/// `c` with an ASCII capital letter replaced by its small letter.
pub open spec fn ascii_lower(c: char) -> char {
    if 'A' <= c && c <= 'Z' {
        ((c as u8) + 32) as char
    } else {
        c
    }
}

/// `s` with every ASCII capital letter replaced by its small letter.
pub open spec fn lowered(s: Seq<char>) -> Seq<char> {
    s.map_values(|c: char| ascii_lower(c))
}

/// The characters of `s` that come before the first `stop`; all of `s` where
/// it holds no `stop`.
pub open spec fn before(s: Seq<char>, stop: char) -> Seq<char>
    decreases s.len(),
{
    if s.len() == 0 || s[0] == stop {
        Seq::empty()
    } else {
        seq![s[0]] + before(s.drop_first(), stop)
    }
}

/// What `before` returns is a prefix of its argument that holds no `stop`.
pub proof fn lemma_before_is_prefix(s: Seq<char>, stop: char)
    ensures
        before(s, stop).len() <= s.len(),
        before(s, stop) == s.take(before(s, stop).len() as int),
        before(s, stop).len() < s.len() ==> s[before(s, stop).len() as int] == stop,
        forall|i: int| 0 <= i < before(s, stop).len() ==> s[i] != stop,
    decreases s.len(),
{
    if s.len() == 0 || s[0] == stop {
        assert(before(s, stop) =~= s.take(0));
    } else {
        let rest = s.drop_first();
        lemma_before_is_prefix(rest, stop);
        let n = before(rest, stop).len() as int;
        assert(before(s, stop) =~= s.take(n + 1)) by {
            assert(before(rest, stop) == rest.take(n));
            assert(s.take(n + 1) =~= seq![s[0]] + rest.take(n));
        }
        assert forall|i: int| 0 <= i < before(s, stop).len() implies s[i] != stop by {
            if i > 0 {
                assert(s[i] == rest[i - 1]);
            }
        }
        if before(s, stop).len() < s.len() {
            assert(s[n + 1] == rest[n]);
        }
    }
}

/// The characters of `s`, in order.
pub fn chars_of(s: &str) -> (chars: Vec<char>)
    ensures
        chars@ == s@,
{
    let mut chars: Vec<char> = Vec::new();
    for c in it: s.chars()
        invariant
            chars@ == it.seq().take(it.index() as int),
    {
        chars.push(c);
    }
    chars
}

/// `c` with an ASCII capital letter replaced by its small letter.
pub fn to_ascii_lower(c: char) -> (l: char)
    ensures
        l == ascii_lower(c),
{
    if c >= 'A' && c <= 'Z' {
        ((c as u8) + 32) as char
    } else {
        c
    }
}

/// Whether `a` and `b` are the same text once ASCII capital letters are read
/// as small letters.
pub fn eq_ignore_ascii_case(a: &[char], b: &[char]) -> (same: bool)
    ensures
        same == (lowered(a@) == lowered(b@)),
{
    let n = a.len();
    if b.len() != n {
        assert(lowered(a@).len() != lowered(b@).len());
        return false;
    }
    let mut i: usize = 0;
    while i < n
        invariant
            i <= n,
            n == a@.len(),
            n == b@.len(),
            forall|j: int| 0 <= j < i ==> ascii_lower(a@[j]) == ascii_lower(b@[j]),
        decreases n - i,
    {
        if to_ascii_lower(a[i]) != to_ascii_lower(b[i]) {
            assert(lowered(a@)[i as int] != lowered(b@)[i as int]);
            return false;
        }
        i += 1;
    }
    assert(lowered(a@) =~= lowered(b@));
    true
}

/// The number of characters of `s` that come before the first `stop`.
pub fn len_before(s: &[char], stop: char) -> (n: usize)
    ensures
        n == before(s@, stop).len(),
        n <= s@.len(),
        before(s@, stop) == s@.take(n as int),
{
    let len = s.len();
    let mut i: usize = 0;
    assert(s@.skip(0) =~= s@);
    while i < len && s[i] != stop
        invariant
            i <= len,
            len == s@.len(),
            before(s@, stop).len() == i + before(s@.skip(i as int), stop).len(),
        decreases len - i,
    {
        assert(s@.skip(i as int).drop_first() =~= s@.skip(i + 1));
        i += 1;
    }
    proof {
        lemma_before_is_prefix(s@, stop);
    }
    i
}

/// Whether `s` opens with the character `c`.
pub fn starts_with_char(s: &str, c: char) -> (b: bool)
    ensures
        b == (s@.len() > 0 && s@[0] == c),
{
    !s.is_empty() && s.get_char(0) == c
}

/// The bounds of `chars` without the white space around it: the content is
/// `chars[lo..hi]`.
fn trim_bounds(chars: &Vec<char>) -> (bounds: (usize, usize))
    ensures
        bounds.0 <= bounds.1 <= chars@.len(),
        trimmed(chars@) == chars@.subrange(bounds.0 as int, bounds.1 as int),
{
    let n = chars.len();
    let ghost s = chars@;
    let mut lo: usize = 0;
    assert(s.skip(0) =~= s);
    while lo < n && char_is_whitespace(chars[lo])
        invariant
            lo <= n,
            n == s.len(),
            s == chars@,
            leading_space(s) == lo + leading_space(s.skip(lo as int)),
        decreases n - lo,
    {
        assert(s.skip(lo as int).drop_first() =~= s.skip(lo + 1));
        lo += 1;
    }
    let ghost rest = s.skip(lo as int);
    assert(leading_space(s) == lo);
    let mut hi: usize = n;
    assert(s.subrange(lo as int, n as int) =~= rest);
    while hi > lo && char_is_whitespace(chars[hi - 1])
        invariant
            lo <= hi <= n,
            n == s.len(),
            s == chars@,
            rest == s.skip(lo as int),
            trailing_space(rest) == (n - hi) + trailing_space(s.subrange(lo as int, hi as int)),
        decreases hi,
    {
        assert(s.subrange(lo as int, hi as int).drop_last() =~= s.subrange(lo as int, hi - 1));
        hi -= 1;
    }
    assert(trailing_space(rest) == n - hi);
    assert(rest.take(rest.len() - trailing_space(rest)) =~= s.subrange(lo as int, hi as int));
    (lo, hi)
}

/// `s` without the white space around it.
pub fn trim(s: &str) -> (t: &str)
    ensures
        t@ == trimmed(s@),
{
    let chars = chars_of(s);
    let (lo, hi) = trim_bounds(&chars);
    s.substring_char(lo, hi)
}

} // verus!
