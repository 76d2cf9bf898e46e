//! The closed set of avatar expressions.

use crate::text::{chars_of, eq_ignore_ascii_case, lowered};
use vstd::prelude::*;

verus! {

/// An expression the avatar can show.
#[derive(Debug, Clone, Copy, PartialEq, Eq, Structural)]
pub enum Emotion {
    Neutral,
    Happy,
    Sad,
    Angry,
    Relaxed,
    Surprised,
}

impl Emotion {
    /// The name of the blend shape that shows this expression.
    pub open spec fn clip_name(self) -> Seq<char> {
        match self {
            Emotion::Neutral => "Neutral"@,
            Emotion::Happy => "Joy"@,
            Emotion::Sad => "Sorrow"@,
            Emotion::Angry => "Angry"@,
            Emotion::Relaxed => "Relaxed"@,
            Emotion::Surprised => "Fun"@,
        }
    }

    /// The level the blend shape is raised to: 0 for the baseline expression
    /// `Neutral`, 1 for every other.
    pub open spec fn clip_level(self) -> u8 {
        if self == Emotion::Neutral {
            0
        } else {
            1
        }
    }

    /// The expression whose tag name is `name`, read without regard to the
    /// case of ASCII letters; `None` where `name` is no tag name.
    pub open spec fn named(name: Seq<char>) -> Option<Emotion> {
        let low = lowered(name);
        if low == "neutral"@ {
            Some(Emotion::Neutral)
        } else if low == "happy"@ {
            Some(Emotion::Happy)
        } else if low == "sad"@ {
            Some(Emotion::Sad)
        } else if low == "angry"@ {
            Some(Emotion::Angry)
        } else if low == "relaxed"@ {
            Some(Emotion::Relaxed)
        } else if low == "surprised"@ {
            Some(Emotion::Surprised)
        } else {
            None
        }
    }

    /// The blend shape's name and the level it is raised to.
    pub fn clip(self) -> (c: (&'static str, u8))
        ensures
            c.0@ == self.clip_name(),
            c.1 == self.clip_level(),
    {
        match self {
            Emotion::Neutral => ("Neutral", 0),
            Emotion::Happy => ("Joy", 1),
            Emotion::Sad => ("Sorrow", 1),
            Emotion::Angry => ("Angry", 1),
            Emotion::Relaxed => ("Relaxed", 1),
            Emotion::Surprised => ("Fun", 1),
        }
    }

    /// Reads a tag name such as `happy` or `HAPPY`.
    pub fn from_name(name: &str) -> (e: Option<Emotion>)
        ensures
            e == Emotion::named(name@),
    {
        let chars = chars_of(name);
        Self::from_chars(chars.as_slice())
    }

    /// Reads a tag name given as characters.
    pub fn from_chars(name: &[char]) -> (e: Option<Emotion>)
        ensures
            e == Emotion::named(name@),
    {
        proof {
            reveal_strlit("neutral");
            reveal_strlit("happy");
            reveal_strlit("sad");
            reveal_strlit("angry");
            reveal_strlit("relaxed");
            reveal_strlit("surprised");
            assert(lowered("neutral"@) =~= "neutral"@);
            assert(lowered("happy"@) =~= "happy"@);
            assert(lowered("sad"@) =~= "sad"@);
            assert(lowered("angry"@) =~= "angry"@);
            assert(lowered("relaxed"@) =~= "relaxed"@);
            assert(lowered("surprised"@) =~= "surprised"@);
        }
        if eq_ignore_ascii_case(name, chars_of("neutral").as_slice()) {
            Some(Emotion::Neutral)
        } else if eq_ignore_ascii_case(name, chars_of("happy").as_slice()) {
            Some(Emotion::Happy)
        } else if eq_ignore_ascii_case(name, chars_of("sad").as_slice()) {
            Some(Emotion::Sad)
        } else if eq_ignore_ascii_case(name, chars_of("angry").as_slice()) {
            Some(Emotion::Angry)
        } else if eq_ignore_ascii_case(name, chars_of("relaxed").as_slice()) {
            Some(Emotion::Relaxed)
        } else if eq_ignore_ascii_case(name, chars_of("surprised").as_slice()) {
            Some(Emotion::Surprised)
        } else {
            None
        }
    }
}

impl std::str::FromStr for Emotion {
    type Err = ();

    /// Reads a tag name; fails on any other text.
    fn from_str(s: &str) -> (r: Result<Self, ()>)
        ensures
            r == (match Emotion::named(s@) {
                Some(e) => Ok::<Emotion, ()>(e),
                None => Err::<Emotion, ()>(()),
            }),
    {
        match Emotion::from_name(s) {
            Some(e) => Ok(e),
            None => Err(()),
        }
    }
}

} // verus!
