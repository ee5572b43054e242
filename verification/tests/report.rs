use soundboard::report::{SignalError, SignalOutcome, StopReport};

#[test]
fn empty_report() {
    let report = StopReport::new();
    assert!(report.is_empty());
    assert!(report.is_clean());
    assert_eq!(report.len(), 0);
    assert_eq!(report.ids(), Vec::<i32>::new());
}

#[test]
fn report_splits_lines_by_outcome() {
    let mut report = StopReport::new();
    report.record(1, SignalOutcome::Stopped);
    report.record(2, SignalOutcome::Failed);
    report.record(3, SignalOutcome::AlreadyEnded);
    report.record(4, SignalOutcome::Failed);
    assert_eq!(report.len(), 4);
    assert!(!report.is_empty());
    assert_eq!(
        report.lines(),
        vec![
            (1, SignalOutcome::Stopped),
            (2, SignalOutcome::Failed),
            (3, SignalOutcome::AlreadyEnded),
            (4, SignalOutcome::Failed),
        ]
    );
    assert_eq!(report.ids(), vec![1, 2, 3, 4]);
    assert_eq!(report.stopped(), vec![1, 3]);
    assert_eq!(report.failed(), vec![2, 4]);
    assert!(!report.is_clean());
    assert_eq!(report.stopped().len() + report.failed().len(), report.len());
}

#[test]
fn report_of_failures_only() {
    let mut report = StopReport::new();
    report.record(5, SignalOutcome::Failed);
    assert_eq!(report.stopped(), Vec::<i32>::new());
    assert_eq!(report.failed(), vec![5]);
    assert!(!report.is_clean());
}

#[test]
fn already_ended_counts_as_stopped() {
    let mut report = StopReport::new();
    report.record(5, SignalOutcome::AlreadyEnded);
    assert_eq!(report.stopped(), vec![5]);
    assert!(report.is_clean());
}

#[test]
fn outcome_of_each_answer() {
    assert_eq!(SignalOutcome::from_result(Ok(())), SignalOutcome::Stopped);
    assert_eq!(
        SignalOutcome::from_result(Err(SignalError::Finished)),
        SignalOutcome::AlreadyEnded
    );
    assert_eq!(SignalOutcome::from_result(Err(SignalError::Other)), SignalOutcome::Failed);
}

#[test]
fn settled_outcomes() {
    assert!(SignalOutcome::Stopped.is_settled());
    assert!(SignalOutcome::AlreadyEnded.is_settled());
    assert!(!SignalOutcome::Failed.is_settled());
}
