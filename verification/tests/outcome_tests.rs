use xml_conformance::outcome::{classify, ExpectedOutcome, ObservedResult, Verdict};

fn failure(detail: &str) -> ObservedResult {
    ObservedResult::FailedWithError(detail.to_string())
}

#[test]
fn table_row_valid() {
    assert_eq!(
        classify(ExpectedOutcome::Valid, &ObservedResult::ReachedEndWithoutError),
        Verdict::Match
    );
    assert_eq!(classify(ExpectedOutcome::Valid, &failure("e")), Verdict::Mismatch);
}

#[test]
fn table_row_invalid() {
    assert_eq!(
        classify(ExpectedOutcome::Invalid, &ObservedResult::ReachedEndWithoutError),
        Verdict::Match
    );
    assert_eq!(classify(ExpectedOutcome::Invalid, &failure("e")), Verdict::Mismatch);
}

#[test]
fn table_row_not_well_formed() {
    assert_eq!(
        classify(ExpectedOutcome::NotWellFormed, &ObservedResult::ReachedEndWithoutError),
        Verdict::Mismatch
    );
    assert_eq!(classify(ExpectedOutcome::NotWellFormed, &failure("e")), Verdict::Match);
}

#[test]
fn table_row_error() {
    assert_eq!(
        classify(ExpectedOutcome::Error, &ObservedResult::ReachedEndWithoutError),
        Verdict::Mismatch
    );
    assert_eq!(classify(ExpectedOutcome::Error, &failure("e")), Verdict::Match);
}

#[test]
fn verdict_ignores_the_failure_text_and_earlier_calls() {
    let all = [
        ExpectedOutcome::Valid,
        ExpectedOutcome::Invalid,
        ExpectedOutcome::NotWellFormed,
        ExpectedOutcome::Error,
    ];
    for expected in all {
        let first = classify(expected, &failure("one"));
        let between = classify(expected, &ObservedResult::ReachedEndWithoutError);
        let second = classify(expected, &failure("another text"));
        assert_eq!(first, second);
        assert_ne!(first, between);
        assert_eq!(between, classify(expected, &ObservedResult::ReachedEndWithoutError));
    }
}

#[test]
fn clean_end_is_wanted_by_valid_and_invalid_only() {
    assert!(ExpectedOutcome::Valid.expects_clean_end());
    assert!(ExpectedOutcome::Invalid.expects_clean_end());
    assert!(!ExpectedOutcome::NotWellFormed.expects_clean_end());
    assert!(!ExpectedOutcome::Error.expects_clean_end());
    assert!(ObservedResult::ReachedEndWithoutError.reached_end());
    assert!(!failure("e").reached_end());
}

#[test]
fn labels_are_the_four_lexical_values() {
    assert_eq!(ExpectedOutcome::Valid.label(), "valid");
    assert_eq!(ExpectedOutcome::Invalid.label(), "invalid");
    assert_eq!(ExpectedOutcome::NotWellFormed.label(), "not-wf");
    assert_eq!(ExpectedOutcome::Error.label(), "error");
}

#[test]
fn labels_are_read_back() {
    assert_eq!(ExpectedOutcome::from_label("valid"), Some(ExpectedOutcome::Valid));
    assert_eq!(ExpectedOutcome::from_label("invalid"), Some(ExpectedOutcome::Invalid));
    assert_eq!(ExpectedOutcome::from_label("not-wf"), Some(ExpectedOutcome::NotWellFormed));
    assert_eq!(ExpectedOutcome::from_label("error"), Some(ExpectedOutcome::Error));
    for expected in [
        ExpectedOutcome::Valid,
        ExpectedOutcome::Invalid,
        ExpectedOutcome::NotWellFormed,
        ExpectedOutcome::Error,
    ] {
        assert_eq!(ExpectedOutcome::from_label(expected.label()), Some(expected));
    }
}

#[test]
fn other_labels_are_refused() {
    assert_eq!(ExpectedOutcome::from_label(""), None);
    assert_eq!(ExpectedOutcome::from_label("Valid"), None);
    assert_eq!(ExpectedOutcome::from_label("not-wellformed"), None);
    assert_eq!(ExpectedOutcome::from_label("valid "), None);
}
