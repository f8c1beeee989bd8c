use xml_conformance::manifest::TestCase;
use xml_conformance::outcome::{ExpectedOutcome, ObservedResult};
use xml_conformance::resolver::ResolvedCase;
use xml_conformance::runner::{
    after_interruption, judge, run_case, run_cases, CaseReport, Diagnostic, Document, LoadedCase,
    Problem,
};

const WELL_FORMED: &[u8] = b"<?xml version=\"1.0\"?>\n<doc a=\"1\"><!-- c --><e/>text</doc>\n";
const MALFORMED: &[u8] = b"<doc><a></b></doc>";

fn resolved(id: &str, expected: ExpectedOutcome) -> ResolvedCase {
    ResolvedCase {
        base: "suite".to_string(),
        case: TestCase {
            uri: format!("{}.xml", id),
            id: id.to_string(),
            entities: None,
            sections: "2".to_string(),
            expected_outcome: expected,
            output: None,
            description: String::new(),
        },
    }
}

fn loaded(id: &str, expected: ExpectedOutcome, document: Document) -> LoadedCase {
    LoadedCase { case: resolved(id, expected), document }
}

fn messages(reports: &[CaseReport]) -> Vec<Option<String>> {
    reports.iter().map(|report| report.message()).collect()
}

#[test]
fn valid_document_read_to_the_end_is_silent() {
    let report = run_case(
        &resolved("a", ExpectedOutcome::Valid),
        &Document::Readable(WELL_FORMED.to_vec()),
    );
    assert!(matches!(report, CaseReport::Agreed));
    assert_eq!(report.message(), None);
}

#[test]
fn valid_document_that_fails_is_one_mismatch() {
    let report = run_case(
        &resolved("pe01", ExpectedOutcome::Valid),
        &Document::Readable(MALFORMED.to_vec()),
    );
    match &report {
        CaseReport::Mismatched(diagnostic) => {
            assert_eq!(diagnostic.test_id, "pe01");
            assert_eq!(diagnostic.expected, ExpectedOutcome::Valid);
            assert_eq!(diagnostic.document_path, "suite/pe01.xml");
            match &diagnostic.observed {
                ObservedResult::FailedWithError(detail) => {
                    assert!(detail.contains("MismatchedEndTag"), "detail was {}", detail);
                    let text = report.message().unwrap();
                    assert!(text.contains("pe01"));
                    assert!(text.contains(detail.as_str()));
                },
                ObservedResult::ReachedEndWithoutError => panic!("the reader must fail"),
            }
        },
        other => panic!("unexpected report {:?}", other),
    }
}

#[test]
fn not_well_formed_document_read_to_the_end_is_one_mismatch() {
    let report = run_case(
        &resolved("nwf", ExpectedOutcome::NotWellFormed),
        &Document::Readable(WELL_FORMED.to_vec()),
    );
    match report {
        CaseReport::Mismatched(diagnostic) => {
            assert_eq!(diagnostic.test_id, "nwf");
            assert_eq!(diagnostic.expected, ExpectedOutcome::NotWellFormed);
            assert!(matches!(diagnostic.observed, ObservedResult::ReachedEndWithoutError));
        },
        other => panic!("unexpected report {:?}", other),
    }
}

#[test]
fn not_well_formed_document_that_fails_is_silent() {
    let report = run_case(
        &resolved("nwf", ExpectedOutcome::NotWellFormed),
        &Document::Readable(MALFORMED.to_vec()),
    );
    assert!(matches!(report, CaseReport::Agreed));
    assert_eq!(report.message(), None);
}

#[test]
fn invalid_is_judged_like_valid_and_error_like_not_well_formed() {
    let good = Document::Readable(WELL_FORMED.to_vec());
    let bad = Document::Readable(MALFORMED.to_vec());
    assert!(matches!(run_case(&resolved("i", ExpectedOutcome::Invalid), &good), CaseReport::Agreed));
    assert!(matches!(
        run_case(&resolved("i", ExpectedOutcome::Invalid), &bad),
        CaseReport::Mismatched(_)
    ));
    assert!(matches!(run_case(&resolved("e", ExpectedOutcome::Error), &bad), CaseReport::Agreed));
    assert!(matches!(
        run_case(&resolved("e", ExpectedOutcome::Error), &good),
        CaseReport::Mismatched(_)
    ));
}

#[test]
fn judge_reports_from_a_given_observation() {
    let case = resolved("j", ExpectedOutcome::Error);
    assert!(matches!(
        judge(&case, ObservedResult::FailedWithError("x".to_string())),
        CaseReport::Agreed
    ));
    match judge(&case, ObservedResult::ReachedEndWithoutError) {
        CaseReport::Mismatched(diagnostic) => {
            assert_eq!(diagnostic.test_id, "j");
            assert_eq!(diagnostic.expected, ExpectedOutcome::Error);
            assert_eq!(diagnostic.document_path, "suite/j.xml");
        },
        other => panic!("unexpected report {:?}", other),
    }
}

#[test]
fn unreadable_document_is_a_problem_not_a_mismatch() {
    for expected in [ExpectedOutcome::Valid, ExpectedOutcome::NotWellFormed] {
        let report = run_case(
            &resolved("gone", expected),
            &Document::Unreadable("No such file".to_string()),
        );
        match report {
            CaseReport::Unreadable(problem) => {
                assert_eq!(problem.test_id, "gone");
                assert_eq!(problem.document_path, "suite/gone.xml");
                assert_eq!(problem.reason, "No such file");
            },
            other => panic!("unexpected report {:?}", other),
        }
    }
}

#[test]
fn unreadable_document_does_not_end_the_run() {
    let batch = vec![
        loaded("a", ExpectedOutcome::Valid, Document::Readable(WELL_FORMED.to_vec())),
        loaded("b", ExpectedOutcome::Valid, Document::Unreadable("denied".to_string())),
        loaded("c", ExpectedOutcome::Valid, Document::Readable(MALFORMED.to_vec())),
        loaded("d", ExpectedOutcome::Error, Document::Readable(MALFORMED.to_vec())),
    ];
    let reports = run_cases(&batch);
    assert_eq!(reports.len(), 4);
    assert!(matches!(reports[0], CaseReport::Agreed));
    assert!(matches!(&reports[1], CaseReport::Unreadable(problem) if problem.test_id == "b"));
    assert!(matches!(&reports[2], CaseReport::Mismatched(diagnostic) if diagnostic.test_id == "c"));
    assert!(matches!(reports[3], CaseReport::Agreed));
}

#[test]
fn empty_batch_gives_no_reports() {
    assert!(run_cases(&Vec::new()).is_empty());
}

#[test]
fn running_again_gives_the_same_diagnostics_in_the_same_order() {
    let batch = vec![
        loaded("a", ExpectedOutcome::NotWellFormed, Document::Readable(WELL_FORMED.to_vec())),
        loaded("b", ExpectedOutcome::Valid, Document::Readable(MALFORMED.to_vec())),
        loaded("c", ExpectedOutcome::Valid, Document::Readable(b"<a><b>".to_vec())),
        loaded("d", ExpectedOutcome::Valid, Document::Unreadable("gone".to_string())),
        loaded("e", ExpectedOutcome::Valid, Document::Readable(b"<a attr=>".to_vec())),
    ];
    let first = messages(&run_cases(&batch));
    let second = messages(&run_cases(&batch));
    assert_eq!(first, second);
    assert!(first[0].is_some() && first[1].is_some() && first[3].is_some());
}

#[test]
fn mismatch_message_after_a_failure() {
    let diagnostic = Diagnostic {
        test_id: "pe01".to_string(),
        expected: ExpectedOutcome::Valid,
        observed: ObservedResult::FailedWithError("boom".to_string()),
        document_path: "dir/valid/pe01.xml".to_string(),
    };
    assert_eq!(
        diagnostic.message(),
        "------------------\nMISMATCHED OUTCOME\nGot error: boom\nIn well formed test: pe01\nExpected: valid\nDocument: dir/valid/pe01.xml"
    );
}

#[test]
fn mismatch_message_after_a_clean_end() {
    let diagnostic = Diagnostic {
        test_id: "nwf7".to_string(),
        expected: ExpectedOutcome::NotWellFormed,
        observed: ObservedResult::ReachedEndWithoutError,
        document_path: "dir/nwf7.xml".to_string(),
    };
    assert_eq!(
        diagnostic.message(),
        "------------------\nMISMATCHED OUTCOME\nParsed non-well formed document\nFor test: nwf7\nExpected: not-wf\nDocument: dir/nwf7.xml"
    );
    assert_eq!(CaseReport::Mismatched(diagnostic).message().unwrap().lines().count(), 6);
}

#[test]
fn problem_message() {
    let problem = Problem {
        test_id: "t".to_string(),
        document_path: "dir/t.xml".to_string(),
        reason: "denied".to_string(),
    };
    assert_eq!(
        problem.message(),
        "------------------\nHARNESS PROBLEM\nCould not open document: dir/t.xml\nFor test: t\nReason: denied"
    );
    assert_eq!(
        CaseReport::Unreadable(problem).message().unwrap().lines().nth(1),
        Some("HARNESS PROBLEM")
    );
}

#[test]
fn interrupted_reading_counts_as_a_failure_of_the_reader() {
    let document = Document::Interrupted(b"<doc><a/>".to_vec(), "device error".to_string());
    match run_case(&resolved("cut", ExpectedOutcome::Valid), &document) {
        CaseReport::Mismatched(diagnostic) => {
            assert_eq!(diagnostic.test_id, "cut");
            match diagnostic.observed {
                ObservedResult::FailedWithError(detail) => assert_eq!(detail, "device error"),
                ObservedResult::ReachedEndWithoutError => panic!("an interruption is a failure"),
            }
        },
        other => panic!("unexpected report {:?}", other),
    }
    assert!(matches!(
        run_case(&resolved("cut", ExpectedOutcome::NotWellFormed), &document),
        CaseReport::Agreed
    ));
    assert!(matches!(
        run_case(&resolved("cut", ExpectedOutcome::Error), &document),
        CaseReport::Agreed
    ));
}

#[test]
fn interrupted_reading_keeps_the_failure_of_what_was_read() {
    let document = Document::Interrupted(MALFORMED.to_vec(), "device error".to_string());
    match run_case(&resolved("cut", ExpectedOutcome::Invalid), &document) {
        CaseReport::Mismatched(diagnostic) => match diagnostic.observed {
            ObservedResult::FailedWithError(detail) => {
                assert!(detail.contains("MismatchedEndTag"), "detail was {}", detail)
            },
            ObservedResult::ReachedEndWithoutError => panic!("an interruption is a failure"),
        },
        other => panic!("unexpected report {:?}", other),
    }
}

#[test]
fn interruption_turns_a_clean_end_into_a_failure() {
    match after_interruption(ObservedResult::ReachedEndWithoutError, "cut off") {
        ObservedResult::FailedWithError(detail) => assert_eq!(detail, "cut off"),
        ObservedResult::ReachedEndWithoutError => panic!("an interruption is a failure"),
    }
    match after_interruption(ObservedResult::FailedWithError("first".to_string()), "cut off") {
        ObservedResult::FailedWithError(detail) => assert_eq!(detail, "first"),
        ObservedResult::ReachedEndWithoutError => panic!("a failure stays a failure"),
    }
}

#[test]
fn interrupted_document_does_not_end_the_run() {
    let batch = vec![
        loaded("a", ExpectedOutcome::Valid, Document::Interrupted(Vec::new(), "io".to_string())),
        loaded("b", ExpectedOutcome::Valid, Document::Readable(WELL_FORMED.to_vec())),
    ];
    let reports = run_cases(&batch);
    assert_eq!(reports.len(), 2);
    assert!(matches!(&reports[0], CaseReport::Mismatched(diagnostic) if diagnostic.test_id == "a"));
    assert!(matches!(reports[1], CaseReport::Agreed));
}
