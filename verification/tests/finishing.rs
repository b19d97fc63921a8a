use std::collections::HashSet;

use parallel_invocation::invocation::{
    ordered_by_index, output_file_name, payload_file_name, payload_text, InvocationRecord,
    PARALLEL,
};
use parallel_invocation::protocol::{Edition, Outcome, RunNext, ToolError};
use parallel_invocation::setup::{ensure_function, SetupRun};
use parallel_invocation::teardown::TeardownRun;
use parallel_invocation::trial::TrialRun;

fn finished_then_out_of_order(mut step: impl FnMut(Outcome) -> RunNext) {
    assert!(matches!(step(Outcome::Done), RunNext::Finished(Err(ToolError::OutOfOrder))));
    assert!(matches!(
        step(Outcome::Exited { success: true, stdout: vec![] }),
        RunNext::Finished(Err(ToolError::OutOfOrder))
    ));
}

#[test]
fn every_worker_has_its_own_files() {
    let mut names = HashSet::new();
    for i in 0..PARALLEL {
        assert!(names.insert(payload_file_name(i)));
        assert!(names.insert(output_file_name(i)));
        assert!(names.insert(payload_text(i)));
    }
    assert_eq!(names.len(), 3 * PARALLEL);
    assert_ne!(payload_file_name(1), payload_file_name(10));
}

#[test]
fn finished_function_plan_issues_nothing_more() {
    let (mut m, _) = ensure_function(Edition::Tool, "arn".into(), "t".into(), "me".into());
    let e = std::io::Error::new(std::io::ErrorKind::Other, "spawn");
    assert!(matches!(m.step(Outcome::Failed(e)), RunNext::Finished(Err(ToolError::Io(_)))));
    finished_then_out_of_order(|o| m.step(o));
}

#[test]
fn finished_setup_issues_nothing_more() {
    let (mut s, _) = SetupRun::start(Edition::Tester, 0);
    assert!(matches!(
        s.step(Outcome::Exited { success: false, stdout: vec![] }),
        RunNext::Act(_)
    ));
    assert!(matches!(
        s.step(Outcome::Exited { success: false, stdout: vec![] }),
        RunNext::Finished(Err(ToolError::CommandFailed { .. }))
    ));
    finished_then_out_of_order(|o| s.step(o));
}

#[test]
fn finished_teardown_issues_nothing_more() {
    let (mut t, _) = TeardownRun::start(Edition::Tool);
    assert!(matches!(t.step(Outcome::Done), RunNext::Finished(Err(ToolError::OutOfOrder))));
    finished_then_out_of_order(|o| t.step(o));
}

#[test]
fn finished_trial_issues_nothing_more() {
    let (mut t, _) = TrialRun::start(Edition::Tool);
    t.step(Outcome::Done);
    t.step(Outcome::Done);
    t.step(Outcome::Done);
    let e = std::io::Error::new(std::io::ErrorKind::NotFound, "cmd");
    assert!(matches!(t.step(Outcome::Failed(e)), RunNext::Finished(Err(ToolError::Io(_)))));
    finished_then_out_of_order(|o| t.step(o));
}

#[test]
fn ordering_is_determined_by_the_records() {
    let make = || {
        vec![
            InvocationRecord { index: 2, text: "b".into(), elapsed: "1".into() },
            InvocationRecord { index: 1, text: "a".into(), elapsed: "2".into() },
            InvocationRecord { index: 2, text: "c".into(), elapsed: "3".into() },
        ]
    };
    let first: Vec<(usize, String)> = ordered_by_index(make()).into_iter().map(|r| (r.index, r.text)).collect();
    let again: Vec<(usize, String)> = ordered_by_index(make()).into_iter().map(|r| (r.index, r.text)).collect();
    assert_eq!(first, again);
    assert_eq!(first, vec![(1, "a".to_string()), (2, "b".to_string()), (2, "c".to_string())]);
}
