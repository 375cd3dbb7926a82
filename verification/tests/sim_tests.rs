use fakelog::line::{Action, Hue, Level, Line};
use fakelog::sim::{
    branch_for, failure_branch, normal_branch, retry_branch, warning_branch, BranchKind, SimState,
    Task,
};

fn emitted(a: &Action) -> &Line {
    match a {
        Action::Emit(l) => l,
        Action::Pause(s) => panic!("expected an emitted line, found a {}s pause", s),
    }
}

fn pause_secs(a: &Action) -> u64 {
    match a {
        Action::Emit(l) => panic!("expected a pause, found the line {:?}", l),
        Action::Pause(s) => *s,
    }
}

// Selector draws 0..=5 run a normal task, 6..=8 a warning, 9 an error.
#[test]
fn selector_mapping() {
    for choice in 0..=5 {
        assert_eq!(branch_for(choice), BranchKind::NormalTask);
    }
    for choice in 6..=8 {
        assert_eq!(branch_for(choice), BranchKind::WarningReport);
    }
    assert_eq!(branch_for(9), BranchKind::FailureStory);
}

// Selector 3 picks the normal branch: exactly 4 INFO lines, the 2nd, 3rd and
// 4th containing "Processing batch", "Loaded" and "Operation completed".
#[test]
fn normal_branch_scenario() {
    assert_eq!(branch_for(3), BranchKind::NormalTask);
    let acts = normal_branch(2, 4567, 250, 99);
    assert_eq!(acts.len(), 4);
    for a in &acts {
        assert_eq!(emitted(a).level, Level::Info);
    }
    assert_eq!(emitted(&acts[0]).message, "Running diagnostic checks...");
    assert_eq!(emitted(&acts[0]).hue, Hue::Green);
    assert_eq!(emitted(&acts[1]).message, "    ├─ Processing batch 4567");
    assert_eq!(emitted(&acts[2]).message, "    ├─ Loaded 250 records from cache");
    assert_eq!(emitted(&acts[3]).message, "    └─ Operation completed in 99ms");
    assert!(emitted(&acts[1]).message.contains("Processing batch"));
    assert!(emitted(&acts[2]).message.contains("Loaded"));
    assert!(emitted(&acts[3]).message.contains("Operation completed"));
}

// Selector 7 picks the warning branch: exactly 3 WARNING lines, the last
// literally the monitoring line.
#[test]
fn warning_branch_scenario() {
    assert_eq!(branch_for(7), BranchKind::WarningReport);
    let acts = warning_branch(1, 7);
    assert_eq!(acts.len(), 3);
    for a in &acts {
        assert_eq!(emitted(a).level, Level::Warning);
    }
    assert_eq!(emitted(&acts[0]).message, "Unusual network activity detected");
    assert_eq!(emitted(&acts[1]).message, "    ├─ Retrying in 7s");
    assert_eq!(emitted(&acts[2]).message, "    └─ System monitoring engaged");
}

// Selector 9 with one retry and a failure-outcome coin: the error line, one
// "Attempt 1" line, two final ERROR lines, and the pending task set to the
// chosen pair.
#[test]
fn failure_branch_scenario_bad_coin() {
    assert_eq!(branch_for(9), BranchKind::FailureStory);
    let (acts, pending) = failure_branch(0, 1, &vec![4], 0);
    assert_eq!(acts.len(), 5);
    assert_eq!(emitted(&acts[0]).level, Level::Error);
    assert_eq!(emitted(&acts[0]).message, "Unable to establish a secure connection");
    assert_eq!(emitted(&acts[1]).message, "    ├─ Attempt 1: Retrying in 4s");
    assert_eq!(pause_secs(&acts[2]), 4);
    assert_eq!(emitted(&acts[3]).level, Level::Error);
    assert_eq!(emitted(&acts[3]).message, "    ├─ Forced process restart initiated...");
    assert_eq!(emitted(&acts[4]).level, Level::Error);
    assert_eq!(emitted(&acts[4]).message, "    └─ Re-attempting the same task.");
    let task = pending.expect("the failure outcome must set the pending task");
    assert_eq!(task.failure, "Unable to establish a secure connection");
    assert_eq!(task.success, "Connection established successfully");
}

// The same draw with a success-outcome coin resolves the task: green final
// lines and no pending task.
#[test]
fn failure_branch_scenario_good_coin() {
    let (acts, pending) = failure_branch(1, 2, &vec![2, 5], 1);
    assert_eq!(acts.len(), 7);
    assert_eq!(emitted(&acts[0]).message, "Corrupted database index found");
    assert_eq!(emitted(&acts[1]).message, "    ├─ Attempt 1: Retrying in 2s");
    assert_eq!(pause_secs(&acts[2]), 2);
    assert_eq!(emitted(&acts[3]).message, "    ├─ Attempt 2: Retrying in 5s");
    assert_eq!(pause_secs(&acts[4]), 5);
    assert_eq!(emitted(&acts[5]).level, Level::Info);
    assert_eq!(emitted(&acts[5]).message, "    ├─ Forced process restart initiated...");
    assert_eq!(emitted(&acts[6]).level, Level::Info);
    assert_eq!(emitted(&acts[6]).message, "    └─ Database re-indexed successfully");
    assert!(pending.is_none());
}

// A pending task whose retry coin is success: one INFO retrying line, one
// INFO success line, and the pending state cleared.
#[test]
fn retry_scenario_success() {
    let task = Task {
        failure: String::from("Corrupted database index found"),
        success: String::from("Database re-indexed successfully"),
    };
    let (acts, pending) = retry_branch(&task, 3, 0);
    assert_eq!(acts.len(), 3);
    assert_eq!(emitted(&acts[0]).level, Level::Info);
    assert_eq!(
        emitted(&acts[0]).message,
        "Retrying failed task: Corrupted database index found..."
    );
    assert_eq!(pause_secs(&acts[1]), 3);
    assert_eq!(emitted(&acts[2]).level, Level::Info);
    assert_eq!(emitted(&acts[2]).message, "    └─ Database re-indexed successfully");
    assert!(pending.is_none());
}

// A retry whose coin fails again keeps the task pending and ends with the
// failed-again error line.
#[test]
fn retry_scenario_failure() {
    let task = Task {
        failure: String::from("Indexing Error: Out of Memory"),
        success: String::from("Indexing resumed with optimized memory usage"),
    };
    let (acts, pending) = retry_branch(&task, 2, 1);
    assert_eq!(acts.len(), 3);
    assert_eq!(emitted(&acts[2]).level, Level::Error);
    assert_eq!(emitted(&acts[2]).message, "Indexing Error: Out of Memory failed again.");
    let kept = pending.expect("a failed retry must keep the task pending");
    assert_eq!(kept.failure, "Indexing Error: Out of Memory");
    assert_eq!(kept.success, "Indexing resumed with optimized memory usage");
}

fn classify(first: &Line) -> &'static str {
    if first.message.starts_with("Retrying failed task: ") {
        "retry"
    } else {
        match first.level {
            Level::Info => "normal",
            Level::Warning => "warning",
            Level::Error => "error",
            Level::Log => panic!("no iteration starts with a LOG line"),
        }
    }
}

// Drives the state machine for many iterations: every pause is within the
// documented bounds, every iteration starts with an emitted line, exactly
// one branch shape appears per iteration, and each branch shows up.
#[test]
fn step_many_iterations() {
    let mut state = SimState::new();
    let mut seen_normal = 0u32;
    let mut seen_warning = 0u32;
    let mut seen_error = 0u32;
    let mut seen_retry = 0u32;
    for _ in 0..600 {
        let was_pending = state.pending.is_some();
        let acts = state.step();
        assert!(!acts.is_empty());
        let first = emitted(&acts[0]);
        let kind = classify(first);
        assert_eq!(kind == "retry", was_pending);
        for a in &acts {
            if let Action::Pause(s) = a {
                assert!((1..=5).contains(s), "pause of {}s out of bounds", s);
            }
        }
        match kind {
            "normal" => {
                seen_normal += 1;
                assert_eq!(acts.len(), 5);
                assert!(emitted(&acts[1]).message.starts_with("    ├─ Processing batch "));
                let batch: u64 = emitted(&acts[1]).message
                    .trim_start_matches("    ├─ Processing batch ")
                    .parse()
                    .unwrap();
                assert!((1000..9999).contains(&batch));
                let records: u64 = emitted(&acts[2]).message
                    .trim_start_matches("    ├─ Loaded ")
                    .trim_end_matches(" records from cache")
                    .parse()
                    .unwrap();
                assert!((50..500).contains(&records));
                let dur: u64 = emitted(&acts[3]).message
                    .trim_start_matches("    └─ Operation completed in ")
                    .trim_end_matches("ms")
                    .parse()
                    .unwrap();
                assert!((20..150).contains(&dur));
                assert!(state.pending.is_none());
            }
            "warning" => {
                seen_warning += 1;
                assert_eq!(acts.len(), 4);
                let delay: u64 = emitted(&acts[1]).message
                    .trim_start_matches("    ├─ Retrying in ")
                    .trim_end_matches('s')
                    .parse()
                    .unwrap();
                assert!((3..10).contains(&delay));
                assert_eq!(emitted(&acts[2]).message, "    └─ System monitoring engaged");
                assert!(state.pending.is_none());
            }
            "error" => {
                seen_error += 1;
                // one attempt line and pause per retry, retries drawn in [1,3]
                assert!(acts.len() >= 6 && acts.len() <= 10);
                let wait: u64 = emitted(&acts[1]).message
                    .trim_start_matches("    ├─ Attempt 1: Retrying in ")
                    .trim_end_matches('s')
                    .parse()
                    .unwrap();
                assert!((2..6).contains(&wait));
                assert_eq!(pause_secs(&acts[2]), wait);
                let last = emitted(&acts[acts.len() - 2]);
                if state.pending.is_some() {
                    assert_eq!(last.message, "    └─ Re-attempting the same task.");
                    assert_eq!(last.level, Level::Error);
                } else {
                    assert_eq!(last.level, Level::Info);
                }
            }
            _ => {
                seen_retry += 1;
                if state.pending.is_some() {
                    // failed again: the iteration restarts at once, no pause
                    assert_eq!(acts.len(), 3);
                } else {
                    assert_eq!(acts.len(), 4);
                    assert!(emitted(&acts[2]).message.starts_with("    └─ "));
                }
            }
        }
    }
    assert!(seen_normal > 0, "the normal branch never ran");
    assert!(seen_warning > 0, "the warning branch never ran");
    assert!(seen_error > 0, "the error branch never ran");
    let _ = seen_retry;
}
