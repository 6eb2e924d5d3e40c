use wam_message_gatling::outcome::{
    BatchResult, DeliveryError, DeliveryOutcome, OutcomeEntry, RunSummary,
};

fn entry(id: i32, success: bool) -> OutcomeEntry {
    let outcome = if success {
        DeliveryOutcome::Success
    } else {
        DeliveryOutcome::Failure(DeliveryError::Status(500))
    };
    OutcomeEntry { id, outcome }
}

#[test]
fn test_outcome_kinds() {
    assert!(DeliveryOutcome::Success.is_success());
    assert!(!DeliveryOutcome::Success.is_failure());
    let failures = [
        DeliveryError::Serialization("bad".to_string()),
        DeliveryError::Transport("refused".to_string()),
        DeliveryError::Status(404),
        DeliveryError::Broker("no leader".to_string()),
    ];
    for cause in failures {
        let outcome = DeliveryOutcome::Failure(cause);
        assert!(outcome.is_failure());
        assert!(!outcome.is_success());
    }
}

#[test]
fn test_summary_of_an_empty_result() {
    let result = BatchResult { entries: Vec::new() };
    assert_eq!(result.len(), 0);
    assert_eq!(
        result.summary(),
        RunSummary { attempted: 0, succeeded: 0, failed: 0 }
    );
}

#[test]
fn test_summary_counts_successes_and_failures() {
    let result = BatchResult {
        entries: vec![
            entry(0, true),
            entry(1, false),
            entry(2, true),
            entry(3, false),
            entry(4, true),
        ],
    };
    assert_eq!(result.len(), 5);
    assert_eq!(
        result.summary(),
        RunSummary { attempted: 5, succeeded: 3, failed: 2 }
    );
}

#[test]
fn test_summary_counts_add_up() {
    for size in 0..20 {
        let entries: Vec<OutcomeEntry> = (0..size).map(|id| entry(id, id % 3 == 0)).collect();
        let totals = BatchResult { entries }.summary();
        assert_eq!(totals.attempted, size as usize);
        assert_eq!(totals.succeeded + totals.failed, totals.attempted);
        assert_eq!(totals.succeeded, ((size + 2) / 3) as usize);
    }
}
