//! Running resolved test cases over their documents and reporting what
//! disagrees with the manifest.

use vstd::prelude::*;
use vstd::string::*;

use crate::outcome::{classify, verdict_of, ExpectedOutcome, ObservedResult, Verdict};
use crate::paths::joined;
use crate::reader::{document_pulls, observation_of, observe_document};
use crate::resolver::{ResolvedCase, ResolvedView};

verus! {

/// What is known of a test case whose outcome disagrees with the manifest.
#[derive(Debug)]
pub struct Diagnostic {
    /// The identifier of the test case.
    pub test_id: String,
    /// What the manifest expects.
    pub expected: ExpectedOutcome,
    /// What the reader did.
    pub observed: ObservedResult,
    /// The document that was read.
    pub document_path: String,
}

/// A diagnostic as plain values.
pub struct DiagnosticView {
    pub test_id: Seq<char>,
    pub expected: ExpectedOutcome,
    pub observed: Option<Seq<char>>,
    pub document_path: Seq<char>,
}

impl View for Diagnostic {
    type V = DiagnosticView;

    open spec fn view(&self) -> DiagnosticView {
        DiagnosticView {
            test_id: self.test_id@,
            expected: self.expected,
            observed: self.observed@,
            document_path: self.document_path@,
        }
    }
}

/// A document that could not be handed to the reader at all.
#[derive(Debug)]
pub struct Problem {
    /// The identifier of the test case.
    pub test_id: String,
    /// The document that could not be opened.
    pub document_path: String,
    /// Why it could not be opened.
    pub reason: String,
}

/// A problem as plain values.
pub struct ProblemView {
    pub test_id: Seq<char>,
    pub document_path: Seq<char>,
    pub reason: Seq<char>,
}

impl View for Problem {
    type V = ProblemView;

    open spec fn view(&self) -> ProblemView {
        ProblemView {
            test_id: self.test_id@,
            document_path: self.document_path@,
            reason: self.reason@,
        }
    }
}

/// A document as the caller found it.
#[derive(Debug)]
pub enum Document {
    /// The document was opened and read to its end: its bytes.
    Readable(Vec<u8>),
    /// The document was opened, but reading it failed on the way: the
    /// bytes that were read, and why no more could be.
    Interrupted(Vec<u8>, String),
    /// The document could not be opened: why.
    Unreadable(String),
}

/// A document as plain values.
pub enum DocumentView {
    Readable(Seq<u8>),
    Interrupted(Seq<u8>, Seq<char>),
    Unreadable(Seq<char>),
}

impl View for Document {
    type V = DocumentView;

    open spec fn view(&self) -> DocumentView {
        match self {
            Document::Readable(bytes) => DocumentView::Readable(bytes@),
            Document::Interrupted(bytes, reason) => DocumentView::Interrupted(bytes@, reason@),
            Document::Unreadable(reason) => DocumentView::Unreadable(reason@),
        }
    }
}

/// The result of one test case.
#[derive(Debug)]
pub enum CaseReport {
    /// The outcome is the expected one; nothing is to be said.
    Agreed,
    /// The outcome disagrees with the manifest.
    Mismatched(Diagnostic),
    /// The document could not be opened; the test case was not judged.
    Unreadable(Problem),
}

/// A report as plain values.
pub enum ReportView {
    Agreed,
    Mismatched(DiagnosticView),
    Unreadable(ProblemView),
}

impl View for CaseReport {
    type V = ReportView;

    open spec fn view(&self) -> ReportView {
        match self {
            CaseReport::Agreed => ReportView::Agreed,
            CaseReport::Mismatched(diagnostic) => ReportView::Mismatched(diagnostic@),
            CaseReport::Unreadable(problem) => ReportView::Unreadable(problem@),
        }
    }
}

/// The report on a test case of which the reader's outcome is known:
/// nothing on a match; on a mismatch the identifier, the expectation, the
/// observation and the document.
pub open spec fn judged(case: ResolvedView, observed: Option<Seq<char>>) -> ReportView {
    match verdict_of(case.case.expected_outcome, observed) {
        Verdict::Match => ReportView::Agreed,
        Verdict::Mismatch => ReportView::Mismatched(
            DiagnosticView {
                test_id: case.case.id,
                expected: case.case.expected_outcome,
                observed,
                document_path: case.document_path(),
            },
        ),
    }
}

/// What is observed of a document whose reading was interrupted: always a
/// failure, the reader's own where it fails on what was read, else the
/// reason of the interruption.
pub open spec fn interrupted(observed: Option<Seq<char>>, reason: Seq<char>) -> Option<
    Seq<char>,
> {
    match observed {
        Some(detail) => Some(detail),
        None => Some(reason),
    }
}

/// The report on a test case and its document: a problem where the
/// document could not be opened, else the judgement of what the reader
/// does with the bytes; an interruption after the opening counts as a
/// failure of the reader.
pub open spec fn reported(case: ResolvedView, document: DocumentView) -> ReportView {
    match document {
        DocumentView::Readable(bytes) => judged(case, observation_of(document_pulls(bytes))),
        DocumentView::Interrupted(bytes, reason) => judged(
            case,
            interrupted(observation_of(document_pulls(bytes)), reason),
        ),
        DocumentView::Unreadable(reason) => ReportView::Unreadable(
            ProblemView { test_id: case.case.id, document_path: case.document_path(), reason },
        ),
    }
}

/// What is observed where the reading of a document was interrupted, given
/// what the reader made of the bytes that were read.
pub fn after_interruption(observed: ObservedResult, reason: &str) -> (failed: ObservedResult)
    ensures
        failed@ == interrupted(observed@, reason@),
{
    match observed {
        ObservedResult::FailedWithError(detail) => ObservedResult::FailedWithError(detail),
        ObservedResult::ReachedEndWithoutError => ObservedResult::FailedWithError(
            String::from_str(reason),
        ),
    }
}

/// Reports on a test case of which the reader's outcome is known.
pub fn judge(case: &ResolvedCase, observed: ObservedResult) -> (report: CaseReport)
    ensures
        report@ == judged(case@, observed@),
{
    match classify(case.case.expected_outcome, &observed) {
        Verdict::Match => CaseReport::Agreed,
        Verdict::Mismatch => CaseReport::Mismatched(
            Diagnostic {
                test_id: case.case.id.clone(),
                expected: case.case.expected_outcome,
                observed,
                document_path: case.document_path(),
            },
        ),
    }
}

/// Runs one test case: drives the reader over the document and judges the
/// outcome. A document that could not be opened is reported as a problem,
/// never as a mismatch; one that was opened is always judged.
pub fn run_case(case: &ResolvedCase, document: &Document) -> (report: CaseReport)
    ensures
        report@ == reported(case@, document@),
{
    match document {
        Document::Readable(bytes) => judge(case, observe_document(bytes.as_slice())),
        Document::Interrupted(bytes, reason) => judge(
            case,
            after_interruption(observe_document(bytes.as_slice()), reason.as_str()),
        ),
        Document::Unreadable(reason) => CaseReport::Unreadable(
            Problem {
                test_id: case.case.id.clone(),
                document_path: case.document_path(),
                reason: reason.clone(),
            },
        ),
    }
}

/// A resolved test case together with its document.
#[derive(Debug)]
pub struct LoadedCase {
    pub case: ResolvedCase,
    pub document: Document,
}

/// The reports of a list as plain values.
pub open spec fn report_views(reports: Seq<CaseReport>) -> Seq<ReportView> {
    Seq::new(reports.len(), |i: int| reports[i]@)
}

/// The reports on a list of loaded test cases: one for each, in order,
/// each decided by its own test case and document.
pub open spec fn reports_for(loaded: Seq<LoadedCase>) -> Seq<ReportView> {
    Seq::new(loaded.len(), |i: int| reported(loaded[i].case@, loaded[i].document@))
}

/// Runs test cases one after the other, in order. Every test case gets
/// its report: a document that could not be opened does not end the run.
pub fn run_cases(loaded: &Vec<LoadedCase>) -> (reports: Vec<CaseReport>)
    ensures
        report_views(reports@) == reports_for(loaded@),
{
    let mut reports: Vec<CaseReport> = Vec::new();
    let mut done: usize = 0;
    while done < loaded.len()
        invariant
            done <= loaded.len(),
            report_views(reports@) == reports_for(loaded@.take(done as int)),
        decreases loaded.len() - done,
    {
        let ghost before = report_views(reports@);
        let report = run_case(&loaded[done].case, &loaded[done].document);
        reports.push(report);
        proof {
            assert(report_views(reports@) =~= before.push(report@));
            assert(reports_for(loaded@.take(done + 1)) =~= reports_for(
                loaded@.take(done as int),
            ).push(report@));
        }
        done += 1;
    }
    assert(loaded@.take(done as int) =~= loaded@);
    reports
}

/// Running again over unchanged test cases and documents gives the same
/// reports in the same order, and so the same lines.
pub proof fn unchanged_inputs_give_unchanged_reports(first: Seq<LoadedCase>, second: Seq<LoadedCase>)
    requires
        first.len() == second.len(),
        forall|i: int|
            0 <= i < first.len() ==> first[i].case@ == second[i].case@ && first[i].document@
                == second[i].document@,
    ensures
        reports_for(first) == reports_for(second),
        forall|i: int|
            0 <= i < first.len() ==> report_text(#[trigger] reports_for(first)[i]) == report_text(
                reports_for(second)[i],
            ),
{
    assert(reports_for(first) =~= reports_for(second));
}

/// The lines that tell of a mismatch: a rule, the heading, what was
/// observed, the test case, the expectation and the document.
pub open spec fn mismatch_text(diagnostic: DiagnosticView) -> Seq<char> {
    let observed = match diagnostic.observed {
        Some(detail) => "Got error: "@ + detail + "\nIn well formed test: "@,
        None => "Parsed non-well formed document\nFor test: "@,
    };
    "------------------\nMISMATCHED OUTCOME\n"@ + observed + diagnostic.test_id
        + "\nExpected: "@ + diagnostic.expected.label_text() + "\nDocument: "@
        + diagnostic.document_path
}

/// The lines that tell of a document that could not be opened.
pub open spec fn problem_text(problem: ProblemView) -> Seq<char> {
    "------------------\nHARNESS PROBLEM\nCould not open document: "@ + problem.document_path
        + "\nFor test: "@ + problem.test_id + "\nReason: "@ + problem.reason
}

/// What is printed for a report: nothing where the outcome agreed.
pub open spec fn report_text(report: ReportView) -> Option<Seq<char>> {
    match report {
        ReportView::Agreed => None,
        ReportView::Mismatched(diagnostic) => Some(mismatch_text(diagnostic)),
        ReportView::Unreadable(problem) => Some(problem_text(problem)),
    }
}

impl Diagnostic {
    /// The lines that tell of this mismatch.
    pub fn message(&self) -> (text: String)
        ensures
            text@ == mismatch_text(self@),
    {
        let mut text = String::from_str("------------------\nMISMATCHED OUTCOME\n");
        match &self.observed {
            ObservedResult::FailedWithError(detail) => {
                text.append("Got error: ");
                text.append(detail.as_str());
                text.append("\nIn well formed test: ");
                assert(text@ =~= "------------------\nMISMATCHED OUTCOME\n"@ + ("Got error: "@
                    + detail@ + "\nIn well formed test: "@));
            },
            ObservedResult::ReachedEndWithoutError => {
                text.append("Parsed non-well formed document\nFor test: ");
            },
        }
        text.append(self.test_id.as_str());
        text.append("\nExpected: ");
        text.append(self.expected.label());
        text.append("\nDocument: ");
        text.append(self.document_path.as_str());
        text
    }
}

impl Problem {
    /// The lines that tell of this problem.
    pub fn message(&self) -> (text: String)
        ensures
            text@ == problem_text(self@),
    {
        let mut text = String::from_str(
            "------------------\nHARNESS PROBLEM\nCould not open document: ",
        );
        text.append(self.document_path.as_str());
        text.append("\nFor test: ");
        text.append(self.test_id.as_str());
        text.append("\nReason: ");
        text.append(self.reason.as_str());
        text
    }
}

impl CaseReport {
    /// What is to be printed for this report, if anything.
    pub fn message(&self) -> (text: Option<String>)
        ensures
            crate::text::text_of(text) == report_text(self@),
    {
        match self {
            CaseReport::Agreed => None,
            CaseReport::Mismatched(diagnostic) => Some(diagnostic.message()),
            CaseReport::Unreadable(problem) => Some(problem.message()),
        }
    }
}

/// A report is silent exactly when the outcome is the expected one, and a
/// mismatch carries the identifier, the expectation, the observation and
/// the document of its test case.
pub proof fn mismatch_is_reported(case: ResolvedView, observed: Option<Seq<char>>)
    ensures
        judged(case, observed) is Agreed <==> verdict_of(case.case.expected_outcome, observed)
            == Verdict::Match,
        report_text(judged(case, observed)) is None <==> verdict_of(
            case.case.expected_outcome,
            observed,
        ) == Verdict::Match,
        !(judged(case, observed) is Unreadable),
        judged(case, observed) matches ReportView::Mismatched(diagnostic) ==> diagnostic.test_id
            == case.case.id && diagnostic.expected == case.case.expected_outcome
            && diagnostic.observed == observed && diagnostic.document_path == joined(
            case.base,
            case.case.uri,
        ),
{
}

/// A document that could not be opened is never taken for a mismatch, and
/// a document that could be opened never for a problem; an interrupted
/// reading is judged as a failure of the reader.
pub proof fn problems_are_not_mismatches(case: ResolvedView, document: DocumentView)
    ensures
        reported(case, document) is Unreadable <==> document is Unreadable,
        document matches DocumentView::Interrupted(bytes, reason) ==> (reported(case, document)
            is Agreed <==> !case.case.expected_outcome.wants_clean_end()),
{
}

} // verus!
