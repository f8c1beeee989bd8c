//! Expected and observed outcomes of a test case, and the table that compares them.

use vstd::prelude::*;
use vstd::string::*;

use crate::text::same_text;

verus! {

/// What a manifest expects of a document.
#[derive(Clone, Copy, Debug, PartialEq, Eq, Structural)]
pub enum ExpectedOutcome {
    /// Well-formed and valid.
    Valid,
    /// Well-formed, but violating a validity constraint.
    Invalid,
    /// Not well-formed: the reader must fail before the end of the input.
    NotWellFormed,
    /// A recoverable error is expected; judged like `NotWellFormed`.
    Error,
}

/// What the reader did with a document.
#[derive(Debug)]
pub enum ObservedResult {
    /// The end of the document was reached and no pull failed.
    ReachedEndWithoutError,
    /// A pull failed; the text describes the failure.
    FailedWithError(String),
}

/// Whether an observation agrees with the expectation.
#[derive(Clone, Copy, Debug, PartialEq, Eq, Structural)]
pub enum Verdict {
    Match,
    Mismatch,
}

impl View for ObservedResult {
    /// `None` for a clean end, `Some(detail)` for a failure.
    type V = Option<Seq<char>>;

    open spec fn view(&self) -> Option<Seq<char>> {
        match self {
            ObservedResult::ReachedEndWithoutError => None,
            ObservedResult::FailedWithError(detail) => Some(detail@),
        }
    }
}

/// The decision table: rows are expectations, columns are "reached the end"
/// and "failed".
pub open spec fn verdict_of(expected: ExpectedOutcome, observed: Option<Seq<char>>) -> Verdict {
    match (expected, observed) {
        (ExpectedOutcome::Valid, None) => Verdict::Match,
        (ExpectedOutcome::Valid, Some(_)) => Verdict::Mismatch,
        (ExpectedOutcome::Invalid, None) => Verdict::Match,
        (ExpectedOutcome::Invalid, Some(_)) => Verdict::Mismatch,
        (ExpectedOutcome::NotWellFormed, None) => Verdict::Mismatch,
        (ExpectedOutcome::NotWellFormed, Some(_)) => Verdict::Match,
        (ExpectedOutcome::Error, None) => Verdict::Mismatch,
        (ExpectedOutcome::Error, Some(_)) => Verdict::Match,
    }
}

/// The expectation that a manifest writes as `label`, if it is one of the
/// four lexical values.
pub open spec fn outcome_named(label: Seq<char>) -> Option<ExpectedOutcome> {
    if label == "valid"@ {
        Some(ExpectedOutcome::Valid)
    } else if label == "invalid"@ {
        Some(ExpectedOutcome::Invalid)
    } else if label == "not-wf"@ {
        Some(ExpectedOutcome::NotWellFormed)
    } else if label == "error"@ {
        Some(ExpectedOutcome::Error)
    } else {
        None
    }
}

impl ExpectedOutcome {
    /// The lexical value that a manifest writes for this expectation.
    pub open spec fn label_text(self) -> Seq<char> {
        match self {
            ExpectedOutcome::Valid => "valid"@,
            ExpectedOutcome::Invalid => "invalid"@,
            ExpectedOutcome::NotWellFormed => "not-wf"@,
            ExpectedOutcome::Error => "error"@,
        }
    }

    /// The lexical value that a manifest writes for this expectation.
    pub fn label(self) -> (text: &'static str)
        ensures
            text@ == self.label_text(),
    {
        match self {
            ExpectedOutcome::Valid => "valid",
            ExpectedOutcome::Invalid => "invalid",
            ExpectedOutcome::NotWellFormed => "not-wf",
            ExpectedOutcome::Error => "error",
        }
    }

    /// Reads an expectation from its lexical value; `None` for any other text.
    pub fn from_label(label: &str) -> (outcome: Option<ExpectedOutcome>)
        ensures
            outcome == outcome_named(label@),
    {
        if same_text(label, "valid") {
            Some(ExpectedOutcome::Valid)
        } else if same_text(label, "invalid") {
            Some(ExpectedOutcome::Invalid)
        } else if same_text(label, "not-wf") {
            Some(ExpectedOutcome::NotWellFormed)
        } else if same_text(label, "error") {
            Some(ExpectedOutcome::Error)
        } else {
            None
        }
    }

    /// True for the expectations that are met by a clean end of the document.
    pub open spec fn wants_clean_end(self) -> bool {
        self is Valid || self is Invalid
    }

    /// Executable form of [`ExpectedOutcome::wants_clean_end`].
    pub fn expects_clean_end(self) -> (r: bool)
        ensures
            r == self.wants_clean_end(),
    {
        match self {
            ExpectedOutcome::Valid => true,
            ExpectedOutcome::Invalid => true,
            ExpectedOutcome::NotWellFormed => false,
            ExpectedOutcome::Error => false,
        }
    }
}

impl ObservedResult {
    /// True when the reader reached the end of the document.
    pub fn reached_end(&self) -> (r: bool)
        ensures
            r == (self@ is None),
    {
        match self {
            ObservedResult::ReachedEndWithoutError => true,
            ObservedResult::FailedWithError(_) => false,
        }
    }
}

/// Compares an observation with the expectation.
pub fn classify(expected: ExpectedOutcome, observed: &ObservedResult) -> (v: Verdict)
    ensures
        v == verdict_of(expected, observed@),
{
    if expected.expects_clean_end() == observed.reached_end() {
        Verdict::Match
    } else {
        Verdict::Mismatch
    }
}

/// The verdict depends on the expectation and on whether the reader failed,
/// and on nothing else: not on the failure's text, and `Error` is judged as
/// `NotWellFormed`, `Invalid` as `Valid`.
pub proof fn verdict_depends_on_failure_only(
    expected: ExpectedOutcome,
    first: Option<Seq<char>>,
    second: Option<Seq<char>>,
)
    requires
        (first is None) == (second is None),
    ensures
        verdict_of(expected, first) == verdict_of(expected, second),
        verdict_of(expected, first) == Verdict::Match <==> (expected.wants_clean_end() == (first is None)),
        verdict_of(ExpectedOutcome::Error, first) == verdict_of(ExpectedOutcome::NotWellFormed, first),
        verdict_of(ExpectedOutcome::Invalid, first) == verdict_of(ExpectedOutcome::Valid, first),
{
}

/// Every expectation is read back from its own lexical value.
pub proof fn label_names_its_outcome(expected: ExpectedOutcome)
    ensures
        outcome_named(expected.label_text()) == Some(expected),
{
    reveal_strlit("valid");
    reveal_strlit("invalid");
    reveal_strlit("not-wf");
    reveal_strlit("error");
    assert("valid"@.len() == 5);
    assert("invalid"@.len() == 7);
    assert("not-wf"@.len() == 6);
    assert("error"@[0] == 'e');
    assert("valid"@[0] == 'v');
}

} // verus!
