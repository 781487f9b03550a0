//! How far the specification of a feature has come, and the codes for it.

use crate::error::DecodeError;
use crate::text::same_text;
use vstd::prelude::*;

verus! {

/// The status of the specification that describes a feature.
#[derive(Debug, Clone, Copy, PartialEq, Eq, Structural, Hash)]
pub enum Status {
    /// `"rec"`: W3C Recommendation.
    Recommendation,
    /// `"cr"`: W3C Candidate Recommendation.
    CandidateRecommendation,
    /// `"ls"`: WHATWG Living Standard.
    LivingStandard,
    /// `"pr"`: W3C Proposed Recommendation.
    ProposedRecommendation,
    /// `"wd"`: W3C Working Draft.
    WorkingDraft,
    /// `"other"`: some other kind of specification.
    Other,
    /// `"unoff"`: unofficial, or a note.
    Unofficial,
}

impl Status {
    /// The code that the dataset writes for this status.
    pub open spec fn code(self) -> Seq<char> {
        match self {
            Status::Recommendation => "rec"@,
            Status::CandidateRecommendation => "cr"@,
            Status::LivingStandard => "ls"@,
            Status::ProposedRecommendation => "pr"@,
            Status::WorkingDraft => "wd"@,
            Status::Other => "other"@,
            Status::Unofficial => "unoff"@,
        }
    }

    /// The status whose code is `c`, if there is one.
    pub open spec fn of_code(c: Seq<char>) -> Option<Status> {
        if exists|v: Status| v.code() == c {
            Some(choose|v: Status| v.code() == c)
        } else {
            None
        }
    }

    /// The name under which this status is shown: that of its variant.
    pub open spec fn shown_as(self) -> Seq<char> {
        match self {
            Status::Recommendation => "Recommendation"@,
            Status::CandidateRecommendation => "CandidateRecommendation"@,
            Status::LivingStandard => "LivingStandard"@,
            Status::ProposedRecommendation => "ProposedRecommendation"@,
            Status::WorkingDraft => "WorkingDraft"@,
            Status::Other => "Other"@,
            Status::Unofficial => "Unofficial"@,
        }
    }

    /// Encodes this status: its code in the dataset.
    pub fn as_str(&self) -> (r: &'static str)
        ensures
            r@ == self.code(),
    {
        match *self {
            Status::Recommendation => "rec",
            Status::CandidateRecommendation => "cr",
            Status::LivingStandard => "ls",
            Status::ProposedRecommendation => "pr",
            Status::WorkingDraft => "wd",
            Status::Other => "other",
            Status::Unofficial => "unoff",
        }
    }

    /// The name under which this status is shown.
    pub fn name(&self) -> (r: &'static str)
        ensures
            r@ == self.shown_as(),
    {
        match *self {
            Status::Recommendation => "Recommendation",
            Status::CandidateRecommendation => "CandidateRecommendation",
            Status::LivingStandard => "LivingStandard",
            Status::ProposedRecommendation => "ProposedRecommendation",
            Status::WorkingDraft => "WorkingDraft",
            Status::Other => "Other",
            Status::Unofficial => "Unofficial",
        }
    }

    /// No two variants share a code.
    pub proof fn lemma_codes_distinct(a: Status, b: Status)
        ensures
            a.code() == b.code() ==> a == b,
    {
        reveal_strlit("rec");
        reveal_strlit("cr");
        reveal_strlit("ls");
        reveal_strlit("pr");
        reveal_strlit("wd");
        reveal_strlit("other");
        reveal_strlit("unoff");
        if a.code() == b.code() {
            // Length and the first character tell all codes apart.
            assert(a.code().len() == b.code().len());
            assert(a.code()[0] == b.code()[0]);
        }
    }

    /// Decoding the code of a status gives that status back.
    pub proof fn lemma_code_round_trip(v: Status)
        ensures
            Status::of_code(v.code()) == Some(v),
    {
        let w = choose|w: Status| w.code() == v.code();
        Status::lemma_codes_distinct(w, v);
    }

    /// Encoding what a code decodes to gives that code back, so no two codes
    /// decode to the same status.
    pub proof fn lemma_decode_round_trip(c: Seq<char>)
        ensures
            Status::of_code(c) matches Some(v) ==> v.code() == c,
    {
    }

    /// A text decodes to nothing exactly when it is the code of no status.
    pub proof fn lemma_unknown_code(c: Seq<char>)
        ensures
            Status::of_code(c) is None <==> forall|v: Status| v.code() != c,
    {
    }
}

impl std::str::FromStr for Status {
    type Err = DecodeError;

    /// Decodes a code of the dataset: the status that has it, or
    /// `UnknownCode` with the text where none has.
    fn from_str(s: &str) -> (r: Result<Status, DecodeError>)
        ensures
            match r {
                Ok(v) => Status::of_code(s@) == Some(v),
                Err(e) => Status::of_code(s@) is None && e.code() == s@,
            },
    {
        if same_text(s, "rec") {
            proof {
                Status::lemma_code_round_trip(Status::Recommendation);
            }
            Ok(Status::Recommendation)
        } else if same_text(s, "cr") {
            proof {
                Status::lemma_code_round_trip(Status::CandidateRecommendation);
            }
            Ok(Status::CandidateRecommendation)
        } else if same_text(s, "ls") {
            proof {
                Status::lemma_code_round_trip(Status::LivingStandard);
            }
            Ok(Status::LivingStandard)
        } else if same_text(s, "pr") {
            proof {
                Status::lemma_code_round_trip(Status::ProposedRecommendation);
            }
            Ok(Status::ProposedRecommendation)
        } else if same_text(s, "wd") {
            proof {
                Status::lemma_code_round_trip(Status::WorkingDraft);
            }
            Ok(Status::WorkingDraft)
        } else if same_text(s, "other") {
            proof {
                Status::lemma_code_round_trip(Status::Other);
            }
            Ok(Status::Other)
        } else if same_text(s, "unoff") {
            proof {
                Status::lemma_code_round_trip(Status::Unofficial);
            }
            Ok(Status::Unofficial)
        } else {
            Err(DecodeError::UnknownCode(s.to_owned()))
        }
    }
}

} // verus!
