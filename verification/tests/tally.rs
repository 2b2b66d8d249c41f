use lf_normalize::pipeline::FileOutcome;
use lf_normalize::tally::{tally_outcomes, RunTally};

#[test]
fn empty_run_tallies_zero() {
    let tally = tally_outcomes(&Vec::new());
    assert_eq!(tally.converted, 0);
    assert_eq!(tally.skipped, 0);
    assert_eq!(tally.errored, 0);
}

#[test]
fn each_outcome_counts_once() {
    let outcomes = vec![
        FileOutcome::Converted,
        FileOutcome::Errored("permission denied".to_string()),
        FileOutcome::Skipped,
        FileOutcome::Converted,
    ];
    let tally = tally_outcomes(&outcomes);
    assert_eq!(tally.converted, 2);
    assert_eq!(tally.skipped, 1);
    assert_eq!(tally.errored, 1);
    assert_eq!(tally.converted + tally.skipped + tally.errored, outcomes.len());
}

#[test]
fn record_increments_the_matching_counter() {
    let mut tally = RunTally::new();
    tally.record(&FileOutcome::Skipped);
    tally.record(&FileOutcome::Skipped);
    tally.record(&FileOutcome::Errored("unreadable".to_string()));
    assert_eq!(tally.converted, 0);
    assert_eq!(tally.skipped, 2);
    assert_eq!(tally.errored, 1);
}

#[test]
fn errored_outcome_keeps_its_reason() {
    let outcome = FileOutcome::Errored("permission denied".to_string());
    match outcome {
        FileOutcome::Errored(reason) => assert_eq!(reason, "permission denied"),
        _ => panic!("expected an errored outcome"),
    }
}
