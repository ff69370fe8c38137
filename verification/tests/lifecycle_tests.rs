use chain_harness::lifecycle::{
    initial_phase, lifecycle_advance, work_of, ContextWork, Phase,
};

fn run_to_termination(outcomes: &[bool]) -> (Vec<ContextWork>, Phase) {
    let mut work_done = Vec::new();
    let mut phase = initial_phase();
    let mut i = 0;
    while let Some(w) = work_of(phase) {
        work_done.push(w);
        let ok = if i < outcomes.len() { outcomes[i] } else { true };
        phase = lifecycle_advance(phase, ok);
        i += 1;
    }
    (work_done, phase)
}

#[test]
fn clean_run_dispatches_load_then_unload_once_each() {
    let (work, end) = run_to_termination(&[true; 7]);
    assert_eq!(end, Phase::Terminated);
    assert_eq!(
        work,
        vec![
            ContextWork::Bootstrap,
            ContextWork::ScheduleEntryModule,
            ContextWork::RunEntryModule,
            ContextWork::DispatchLoadEvent,
            ContextWork::RunToQuiescence,
            ContextWork::DispatchUnloadEvent,
            ContextWork::RunToQuiescence,
        ]
    );
    let loads = work.iter().filter(|w| **w == ContextWork::DispatchLoadEvent).count();
    let unloads = work.iter().filter(|w| **w == ContextWork::DispatchUnloadEvent).count();
    assert_eq!(loads, 1);
    assert_eq!(unloads, 1);
    let load_at = work.iter().position(|w| *w == ContextWork::DispatchLoadEvent).unwrap();
    let unload_at = work.iter().position(|w| *w == ContextWork::DispatchUnloadEvent).unwrap();
    assert!(load_at < unload_at);
}

#[test]
fn uncaught_error_during_execution_terminates_directly() {
    // Bootstrap ok, scheduling ok, the entry module throws.
    let (work, end) = run_to_termination(&[true, true, false]);
    assert_eq!(end, Phase::Terminated);
    assert!(!work.contains(&ContextWork::DispatchLoadEvent));
    assert!(!work.contains(&ContextWork::DispatchUnloadEvent));
}

#[test]
fn error_during_load_dispatch_skips_unload() {
    let (work, end) = run_to_termination(&[true, true, true, false]);
    assert_eq!(end, Phase::Terminated);
    assert!(work.contains(&ContextWork::DispatchLoadEvent));
    assert!(!work.contains(&ContextWork::DispatchUnloadEvent));
}

#[test]
fn terminated_is_absorbing() {
    assert_eq!(lifecycle_advance(Phase::Terminated, true), Phase::Terminated);
    assert_eq!(lifecycle_advance(Phase::Terminated, false), Phase::Terminated);
    assert_eq!(work_of(Phase::Terminated), None);
}
