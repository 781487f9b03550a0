//! The support level of one browser version, and the reader of raw cells.

use crate::scan::{lemma_run_reads_marks, lemma_settled_stays, run, Scan};
use vstd::prelude::*;
use vstd::utf8::{is_ascii_chars, is_ascii_chars_encode_utf8};

verus! {

/// How well a browser version supports a feature.
#[derive(Debug, Clone, Copy, PartialEq, Eq, Structural, Hash)]
pub enum Support {
    /// `y`: supported by default.
    Supported,
    /// `a`: almost (partially) supported.
    Partial,
    /// `n`: not supported, or off by default.
    No,
    /// `p`: not supported, but a polyfill exists.
    Polyfill,
    /// `u`: support unknown.
    Unknown,
    /// `x`: works only with a vendor prefix.
    PrefixRequired,
    /// `d`: disabled by default; a flag has to be set.
    Disabled,
    /// `a` together with `x`: partial support behind a vendor prefix.
    PrefixedPartial,
}

impl Default for Support {
    /// A cell that is absent counts as no support.
    fn default() -> (r: Self)
        ensures
            r == Support::No,
    {
        Support::No
    }
}

/// Why a cell could not be read.
#[derive(Debug, Clone, Copy, PartialEq, Eq, Structural, Hash)]
pub enum SupportParseError {
    /// The cell holds no character at all.
    Empty,
    /// The cell holds a character outside ASCII.
    NonAscii,
    /// The character at this index cannot stand where it stands; index 0 also
    /// reports a cell without any code letter.
    Invalid(usize),
}

/// Footnote references and spacing: digits, `#` and the blank say nothing
/// about the support level.
pub open spec fn is_skipped(c: char) -> bool {
    c == '#' || c == ' ' || ('0' <= c && c <= '9')
}

/// The level that a single code letter stands for.
pub open spec fn level_of(c: char) -> Option<Support> {
    if c == 'y' {
        Some(Support::Supported)
    } else if c == 'a' {
        Some(Support::Partial)
    } else if c == 'n' {
        Some(Support::No)
    } else if c == 'p' {
        Some(Support::Polyfill)
    } else if c == 'u' {
        Some(Support::Unknown)
    } else if c == 'x' {
        Some(Support::PrefixRequired)
    } else if c == 'd' {
        Some(Support::Disabled)
    } else {
        None
    }
}

/// True of the two levels that end the reading wherever they occur.
pub open spec fn is_final(v: Support) -> bool {
    v == Support::No || v == Support::Disabled
}

/// The index of the first character at or after `from` that is not skipped,
/// or the length of `s` where there is none.
pub open spec fn next_mark(s: Seq<char>, from: int) -> int
    decreases s.len() - from,
{
    if from < 0 || from >= s.len() {
        s.len() as int
    } else if !is_skipped(s[from]) {
        from
    } else {
        next_mark(s, from + 1)
    }
}

/// What a second code letter `c`, found at index `at`, makes of the level
/// `first` that is already pending.
pub open spec fn merge(first: Support, c: char, at: int) -> Result<Support, SupportParseError> {
    match level_of(c) {
        Some(v) => if is_final(v) {
            Ok(v)
        } else if first == Support::Supported && v == Support::PrefixRequired {
            Ok(Support::PrefixRequired)
        } else if first == Support::Partial && v == Support::PrefixRequired {
            Ok(Support::PrefixedPartial)
        } else {
            Err(SupportParseError::Invalid(at as usize))
        },
        None => Err(SupportParseError::Invalid(at as usize)),
    }
}

/// The level that the marks of an ASCII cell spell. Only the first two
/// characters that are not skipped count: the first names a level, and a
/// second one either ends the reading, adds a prefix to `y` or `a`, or is an
/// error at its index.
pub open spec fn level_of_marks(s: Seq<char>) -> Result<Support, SupportParseError> {
    let i = next_mark(s, 0);
    if i >= s.len() {
        Err(SupportParseError::Invalid(0))
    } else {
        match level_of(s[i]) {
            None => Err(SupportParseError::Invalid(i as usize)),
            Some(first) => {
                let j = next_mark(s, i + 1);
                if is_final(first) || j >= s.len() {
                    Ok(first)
                } else {
                    merge(first, s[j], j)
                }
            },
        }
    }
}

/// The meaning of a raw cell.
pub open spec fn support_of(s: Seq<char>) -> Result<Support, SupportParseError> {
    if s.len() == 0 {
        Err(SupportParseError::Empty)
    } else if !is_ascii_chars(s) {
        Err(SupportParseError::NonAscii)
    } else {
        level_of_marks(s)
    }
}

/// True of the characters that the dataset writes into a cell: the seven
/// code letters and the skipped characters.
pub open spec fn in_alphabet(c: char) -> bool {
    is_skipped(c) || level_of(c) is Some
}

/// `next_mark` lands on the first character at or after `from` that is not
/// skipped: everything before its result is skipped, and its result is either
/// the end of `s` or the index of a character that is not.
pub proof fn lemma_next_mark(s: Seq<char>, from: int)
    requires
        0 <= from <= s.len(),
    ensures
        from <= next_mark(s, from) <= s.len(),
        forall|k: int| from <= k < next_mark(s, from) ==> is_skipped(#[trigger] s[k]),
        next_mark(s, from) < s.len() ==> !is_skipped(s[next_mark(s, from)]),
    decreases s.len() - from,
{
    if from < s.len() && is_skipped(s[from]) {
        lemma_next_mark(s, from + 1);
    }
}

/// Where everything from `from` up to `at` is skipped and the character at
/// `at` is not, `next_mark` from `from` is `at`.
pub proof fn lemma_next_mark_is(s: Seq<char>, from: int, at: int)
    requires
        0 <= from <= at < s.len(),
        forall|k: int| from <= k < at ==> is_skipped(#[trigger] s[k]),
        !is_skipped(s[at]),
    ensures
        next_mark(s, from) == at,
    decreases at - from,
{
    if from < at {
        lemma_next_mark_is(s, from + 1, at);
    }
}

/// Reading is a function of the characters: two cells with the same text have
/// the same result.
pub proof fn lemma_same_text_same_result(
    a: Seq<char>,
    b: Seq<char>,
    ra: Result<Support, SupportParseError>,
    rb: Result<Support, SupportParseError>,
)
    requires
        a == b,
        ra == support_of(a),
        rb == support_of(b),
    ensures
        ra == rb,
{
}

/// An ASCII cell whose first character that is not skipped is `n` or `d`
/// reads as `No` or `Disabled`, whatever follows that character.
pub proof fn lemma_short_circuit(s: Seq<char>, at: int)
    requires
        is_ascii_chars(s),
        0 <= at < s.len(),
        forall|k: int| 0 <= k < at ==> is_skipped(#[trigger] s[k]),
        s[at] == 'n' || s[at] == 'd',
    ensures
        s[at] == 'n' ==> support_of(s) == Ok::<Support, SupportParseError>(Support::No),
        s[at] == 'd' ==> support_of(s) == Ok::<Support, SupportParseError>(Support::Disabled),
{
    lemma_next_mark_is(s, 0, at);
}

/// A cell that is not empty and holds only code letters and skipped
/// characters is read either as a level or as an error `Invalid` whose index
/// lies inside the cell: index 0 where the cell holds no code letter, else the
/// index of its second code letter.
pub proof fn lemma_alphabet_cell(s: Seq<char>)
    requires
        0 < s.len() <= usize::MAX,
        forall|k: int| 0 <= k < s.len() ==> in_alphabet(#[trigger] s[k]),
    ensures
        is_ascii_chars(s),
        support_of(s) matches Err(e) ==> {
            &&& e matches SupportParseError::Invalid(at)
            &&& at < s.len()
            &&& at == 0 ==> forall|k: int| 0 <= k < s.len() ==> is_skipped(#[trigger] s[k])
            &&& at > 0 ==> level_of(s[at as int]) is Some && next_mark(s, 0) < at
        },
{
    assert forall|k: int| 0 <= k < s.len() implies '\0' <= #[trigger] s[k] <= '\u{7f}' by {
        assert(in_alphabet(s[k]));
    }
    lemma_next_mark(s, 0);
    let i = next_mark(s, 0);
    if i < s.len() {
        assert(in_alphabet(s[i]));
        lemma_next_mark(s, i + 1);
        let j = next_mark(s, i + 1);
        if j < s.len() {
            assert(in_alphabet(s[j]));
        }
    }
}

impl std::str::FromStr for Support {
    type Err = SupportParseError;

    /// Reads one raw cell of the dataset, such as `"y"`, `"a x #2"` or `"n #1"`,
    /// in one pass from left to right that stops as soon as the level is
    /// settled.
    fn from_str(s: &str) -> (r: Result<Support, SupportParseError>)
        ensures
            r == support_of(s@),
    {
        if s.is_empty() {
            return Err(SupportParseError::Empty);
        }
        if !s.is_ascii() {
            return Err(SupportParseError::NonAscii);
        }
        let bytes = s.as_bytes();
        let n = bytes.len();
        proof {
            is_ascii_chars_encode_utf8(s@);
        }
        let mut state = Scan::Start;
        let mut i: usize = 0;
        while i < n && !state.settled()
            invariant
                i <= n,
                n == s@.len(),
                n == bytes@.len(),
                is_ascii_chars(s@),
                forall|k: int| 0 <= k < n ==> s@[k] as u8 == #[trigger] bytes@[k],
                state == run(s@, i as int),
            decreases n - i,
        {
            let c = bytes[i] as char;
            assert(c == s@[i as int]);
            state = state.step(c, i);
            i += 1;
        }
        proof {
            if state.is_settled() {
                lemma_settled_stays(s@, i as int, n as int);
            }
            lemma_run_reads_marks(s@);
        }
        state.finish()
    }
}

} // verus!
