//! The vendor prefixes and their codes.

use crate::error::DecodeError;
use crate::text::same_text;
use vstd::prelude::*;

verus! {

/// A vendor prefix.
#[derive(Debug, Clone, Copy, PartialEq, Eq, Structural, Hash)]
pub enum Prefix {
    /// `"ms"`: `-ms-`.
    Ms,
    /// `"moz"`: `-moz-`.
    Moz,
    /// `"webkit"`: `-webkit-`.
    Webkit,
    /// `"o"`: `-o-`.
    Opera,
}

impl Prefix {
    /// The code that the dataset writes for this prefix.
    pub open spec fn code(self) -> Seq<char> {
        match self {
            Prefix::Ms => "ms"@,
            Prefix::Moz => "moz"@,
            Prefix::Webkit => "webkit"@,
            Prefix::Opera => "o"@,
        }
    }

    /// The prefix whose code is `c`, if there is one.
    pub open spec fn of_code(c: Seq<char>) -> Option<Prefix> {
        if exists|v: Prefix| v.code() == c {
            Some(choose|v: Prefix| v.code() == c)
        } else {
            None
        }
    }

    /// The name under which this prefix is shown: that of its variant.
    pub open spec fn shown_as(self) -> Seq<char> {
        match self {
            Prefix::Ms => "Ms"@,
            Prefix::Moz => "Moz"@,
            Prefix::Webkit => "Webkit"@,
            Prefix::Opera => "Opera"@,
        }
    }

    /// Encodes this prefix: its code in the dataset.
    pub fn as_str(&self) -> (r: &'static str)
        ensures
            r@ == self.code(),
    {
        match *self {
            Prefix::Ms => "ms",
            Prefix::Moz => "moz",
            Prefix::Webkit => "webkit",
            Prefix::Opera => "o",
        }
    }

    /// The name under which this prefix is shown.
    pub fn name(&self) -> (r: &'static str)
        ensures
            r@ == self.shown_as(),
    {
        match *self {
            Prefix::Ms => "Ms",
            Prefix::Moz => "Moz",
            Prefix::Webkit => "Webkit",
            Prefix::Opera => "Opera",
        }
    }

    /// No two variants share a code.
    pub proof fn lemma_codes_distinct(a: Prefix, b: Prefix)
        ensures
            a.code() == b.code() ==> a == b,
    {
        reveal_strlit("ms");
        reveal_strlit("moz");
        reveal_strlit("webkit");
        reveal_strlit("o");
        if a.code() == b.code() {
            // The codes differ in length.
            assert(a.code().len() == b.code().len());
        }
    }

    /// Decoding the code of a prefix gives that prefix back.
    pub proof fn lemma_code_round_trip(v: Prefix)
        ensures
            Prefix::of_code(v.code()) == Some(v),
    {
        let w = choose|w: Prefix| w.code() == v.code();
        Prefix::lemma_codes_distinct(w, v);
    }

    /// Encoding what a code decodes to gives that code back, so no two codes
    /// decode to the same prefix.
    pub proof fn lemma_decode_round_trip(c: Seq<char>)
        ensures
            Prefix::of_code(c) matches Some(v) ==> v.code() == c,
    {
    }

    /// A text decodes to nothing exactly when it is the code of no prefix.
    pub proof fn lemma_unknown_code(c: Seq<char>)
        ensures
            Prefix::of_code(c) is None <==> forall|v: Prefix| v.code() != c,
    {
    }
}

impl std::str::FromStr for Prefix {
    type Err = DecodeError;

    /// Decodes a code of the dataset: the prefix that has it, or
    /// `UnknownCode` with the text where none has.
    fn from_str(s: &str) -> (r: Result<Prefix, DecodeError>)
        ensures
            match r {
                Ok(v) => Prefix::of_code(s@) == Some(v),
                Err(e) => Prefix::of_code(s@) is None && e.code() == s@,
            },
    {
        if same_text(s, "ms") {
            proof {
                Prefix::lemma_code_round_trip(Prefix::Ms);
            }
            Ok(Prefix::Ms)
        } else if same_text(s, "moz") {
            proof {
                Prefix::lemma_code_round_trip(Prefix::Moz);
            }
            Ok(Prefix::Moz)
        } else if same_text(s, "webkit") {
            proof {
                Prefix::lemma_code_round_trip(Prefix::Webkit);
            }
            Ok(Prefix::Webkit)
        } else if same_text(s, "o") {
            proof {
                Prefix::lemma_code_round_trip(Prefix::Opera);
            }
            Ok(Prefix::Opera)
        } else {
            Err(DecodeError::UnknownCode(s.to_owned()))
        }
    }
}

} // verus!
