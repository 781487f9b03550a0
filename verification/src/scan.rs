//! The reader of cells as a finite automaton that takes one character at a
//! time, and the proof that it reads what `support::support_of` says.

use crate::support::{is_final, is_skipped, level_of, level_of_marks, merge, next_mark};
use crate::support::{Support, SupportParseError};
use vstd::prelude::*;

verus! {

/// The state of the reader after some characters of a cell.
#[derive(Debug, Clone, Copy, PartialEq, Eq, Structural, Hash)]
pub enum Scan {
    /// No code letter so far.
    Start,
    /// One code letter so far: this level, which a later `x` may still change.
    Pending(Support),
    /// The level is settled; what follows is not read.
    Done(Support),
    /// The character at this index is out of place; what follows is not read.
    Failed(usize),
}

impl Scan {
    /// Whether no further character changes this state.
    pub open spec fn is_settled(self) -> bool {
        self is Done || self is Failed
    }

    /// The state that follows this one on the character `c` at index `at`.
    pub open spec fn after(self, c: char, at: usize) -> Scan {
        if self.is_settled() || is_skipped(c) {
            self
        } else {
            match level_of(c) {
                None => Scan::Failed(at),
                Some(v) => if is_final(v) {
                    Scan::Done(v)
                } else {
                    match self {
                        Scan::Pending(first) => match merge(first, c, at as int) {
                            Ok(merged) => Scan::Done(merged),
                            Err(_) => Scan::Failed(at),
                        },
                        _ => Scan::Pending(v),
                    }
                },
            }
        }
    }

    /// What the cell reads as when it ends in this state.
    pub open spec fn outcome(self) -> Result<Support, SupportParseError> {
        match self {
            Scan::Start => Err(SupportParseError::Invalid(0)),
            Scan::Pending(v) => Ok(v),
            Scan::Done(v) => Ok(v),
            Scan::Failed(at) => Err(SupportParseError::Invalid(at)),
        }
    }

    /// Whether no further character changes this state.
    pub fn settled(self) -> (r: bool)
        ensures
            r == self.is_settled(),
    {
        match self {
            Scan::Done(_) | Scan::Failed(_) => true,
            _ => false,
        }
    }

    /// Takes the character `c`, which stands at index `at` of the cell.
    pub fn step(self, c: char, at: usize) -> (r: Scan)
        ensures
            r == self.after(c, at),
    {
        if self.settled() || c == '#' || c == ' ' || ('0' <= c && c <= '9') {
            return self;
        }
        let v = if c == 'y' {
            Support::Supported
        } else if c == 'a' {
            Support::Partial
        } else if c == 'n' {
            return Scan::Done(Support::No);
        } else if c == 'p' {
            Support::Polyfill
        } else if c == 'u' {
            Support::Unknown
        } else if c == 'x' {
            Support::PrefixRequired
        } else if c == 'd' {
            return Scan::Done(Support::Disabled);
        } else {
            return Scan::Failed(at);
        };
        match self {
            Scan::Pending(first) => {
                if first == Support::Supported && v == Support::PrefixRequired {
                    Scan::Done(Support::PrefixRequired)
                } else if first == Support::Partial && v == Support::PrefixRequired {
                    Scan::Done(Support::PrefixedPartial)
                } else {
                    Scan::Failed(at)
                }
            },
            _ => Scan::Pending(v),
        }
    }

    /// Ends the cell in this state.
    pub fn finish(self) -> (r: Result<Support, SupportParseError>)
        ensures
            r == self.outcome(),
    {
        match self {
            Scan::Start => Err(SupportParseError::Invalid(0)),
            Scan::Pending(v) => Ok(v),
            Scan::Done(v) => Ok(v),
            Scan::Failed(at) => Err(SupportParseError::Invalid(at)),
        }
    }
}

/// The state after the first `upto` characters of `s`, taken from left to
/// right.
pub open spec fn run(s: Seq<char>, upto: int) -> Scan
    decreases upto,
{
    if upto <= 0 {
        Scan::Start
    } else {
        run(s, upto - 1).after(s[upto - 1], (upto - 1) as usize)
    }
}

/// A settled state stays: once the run is settled, reading on changes nothing.
pub proof fn lemma_settled_stays(s: Seq<char>, at: int, upto: int)
    requires
        0 <= at <= upto,
        run(s, at).is_settled(),
    ensures
        run(s, upto) == run(s, at),
    decreases upto - at,
{
    if at < upto {
        lemma_settled_stays(s, at, upto - 1);
    }
}

/// What the state after `upto` characters knows of the marks of `s`.
pub open spec fn tracks(s: Seq<char>, upto: int, state: Scan) -> bool {
    match state {
        Scan::Start => next_mark(s, 0) == next_mark(s, upto),
        Scan::Pending(first) => {
            let i = next_mark(s, 0);
            &&& 0 <= i < upto
            &&& level_of(s[i]) == Some(first)
            &&& !is_final(first)
            &&& next_mark(s, i + 1) == next_mark(s, upto)
        },
        _ => next_mark(s, 0) < upto && state.outcome() == level_of_marks(s),
    }
}

/// The run keeps track of the first two marks.
pub proof fn lemma_run_tracks(s: Seq<char>, upto: int)
    requires
        0 <= upto <= s.len() <= usize::MAX,
    ensures
        tracks(s, upto, run(s, upto)),
    decreases upto,
{
    if upto > 0 {
        lemma_run_tracks(s, upto - 1);
        let before = run(s, upto - 1);
        let c = s[upto - 1];
        if !before.is_settled() && !is_skipped(c) {
            assert(next_mark(s, upto - 1) == upto - 1);
        }
    }
}

/// The automaton and the reading by marks agree: taking the characters of a
/// cell one by one and ending it gives the level that its marks spell.
pub proof fn lemma_run_reads_marks(s: Seq<char>)
    requires
        s.len() <= usize::MAX,
    ensures
        run(s, s.len() as int).outcome() == level_of_marks(s),
{
    lemma_run_tracks(s, s.len() as int);
}

} // verus!
