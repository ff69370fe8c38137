//! The lifecycle protocol of one execution context ("worker").
//!
//! The surrounding runtime owns the script engine; this module owns the
//! decisions. It says, for every phase, what work the runtime must perform,
//! and, for every outcome of that work, which phase follows. The runtime
//! drives the machine in a loop: ask for the work of the current phase,
//! perform it, report whether it succeeded, and advance.
//!
//! An uncaught failure in any phase tears the context down at once, so the
//! "load" and "unload" dispatches are owed only to runs whose earlier
//! phases all succeeded; what holds of every run is the order — never
//! "unload" before "load" — and that no live phase is ever entered twice.

use vstd::prelude::*;

verus! {

/// The phase of an execution context. A context begins in `Created` and,
/// when every piece of work succeeds, passes through each phase in order
/// before reaching `Terminated`. An uncaught failure during any phase
/// moves the context directly to `Terminated`.
#[derive(Clone, Copy, Debug, PartialEq, Eq, Structural)]
pub enum Phase {
    /// The context object exists; nothing has been constructed yet.
    Created,
    /// Module loader, error formatter and permissions are in place and the
    /// host-call bridge is registered; no module has executed.
    Bootstrapped,
    /// The entry module is being evaluated.
    Executing,
    /// The "load" event is being dispatched.
    DispatchingLoad,
    /// Pending asynchronous completions registered so far are being run
    /// to quiescence.
    DrainingAfterLoad,
    /// The "unload" event is being dispatched.
    DispatchingUnload,
    /// Deferred teardown work is being run to quiescence.
    DrainingAfterUnload,
    /// The context is torn down; no further work exists.
    Terminated,
}

/// The work the runtime performs while the context sits in a phase.
#[derive(Clone, Copy, Debug, PartialEq, Eq, Structural)]
pub enum ContextWork {
    /// Construct the module loader, the source-map-aware error formatter
    /// and the restricted permission set, and register the host-call
    /// bridge, before any module executes.
    Bootstrap,
    /// Resolve and schedule the entry module.
    ScheduleEntryModule,
    /// Run the entry module to completion.
    RunEntryModule,
    /// Dispatch the "load" event to script code.
    DispatchLoadEvent,
    /// Run all pending asynchronous completions to quiescence.
    RunToQuiescence,
    /// Dispatch the "unload" event to script code.
    DispatchUnloadEvent,
}

/// The successor of phase `p` once its work finished with outcome `ok`.
/// Failure in any phase tears the context down at once.
pub open spec fn lifecycle_next(p: Phase, ok: bool) -> Phase {
    match p {
        Phase::Created => if ok { Phase::Bootstrapped } else { Phase::Terminated },
        Phase::Bootstrapped => if ok { Phase::Executing } else { Phase::Terminated },
        Phase::Executing => if ok { Phase::DispatchingLoad } else { Phase::Terminated },
        Phase::DispatchingLoad => if ok { Phase::DrainingAfterLoad } else { Phase::Terminated },
        Phase::DrainingAfterLoad => if ok { Phase::DispatchingUnload } else { Phase::Terminated },
        Phase::DispatchingUnload => if ok { Phase::DrainingAfterUnload } else { Phase::Terminated },
        Phase::DrainingAfterUnload => Phase::Terminated,
        Phase::Terminated => Phase::Terminated,
    }
}

/// The work owed in phase `p`; `None` once the context is torn down.
pub open spec fn work_of_spec(p: Phase) -> Option<ContextWork> {
    match p {
        Phase::Created => Some(ContextWork::Bootstrap),
        Phase::Bootstrapped => Some(ContextWork::ScheduleEntryModule),
        Phase::Executing => Some(ContextWork::RunEntryModule),
        Phase::DispatchingLoad => Some(ContextWork::DispatchLoadEvent),
        Phase::DrainingAfterLoad => Some(ContextWork::RunToQuiescence),
        Phase::DispatchingUnload => Some(ContextWork::DispatchUnloadEvent),
        Phase::DrainingAfterUnload => Some(ContextWork::RunToQuiescence),
        Phase::Terminated => None,
    }
}

/// The phase every fresh execution context starts in.
pub fn initial_phase() -> (p: Phase)
    ensures
        p == Phase::Created,
{
    Phase::Created
}

/// The work the runtime must perform next for a context in phase `p`.
pub fn work_of(p: Phase) -> (w: Option<ContextWork>)
    ensures
        w == work_of_spec(p),
{
    match p {
        Phase::Created => Some(ContextWork::Bootstrap),
        Phase::Bootstrapped => Some(ContextWork::ScheduleEntryModule),
        Phase::Executing => Some(ContextWork::RunEntryModule),
        Phase::DispatchingLoad => Some(ContextWork::DispatchLoadEvent),
        Phase::DrainingAfterLoad => Some(ContextWork::RunToQuiescence),
        Phase::DispatchingUnload => Some(ContextWork::DispatchUnloadEvent),
        Phase::DrainingAfterUnload => Some(ContextWork::RunToQuiescence),
        Phase::Terminated => None,
    }
}

/// Advances the machine after the work of phase `p` finished with
/// outcome `ok`.
pub fn lifecycle_advance(p: Phase, ok: bool) -> (q: Phase)
    ensures
        q == lifecycle_next(p, ok),
{
    match p {
        Phase::Created => if ok { Phase::Bootstrapped } else { Phase::Terminated },
        Phase::Bootstrapped => if ok { Phase::Executing } else { Phase::Terminated },
        Phase::Executing => if ok { Phase::DispatchingLoad } else { Phase::Terminated },
        Phase::DispatchingLoad => if ok { Phase::DrainingAfterLoad } else { Phase::Terminated },
        Phase::DrainingAfterLoad => if ok { Phase::DispatchingUnload } else { Phase::Terminated },
        Phase::DispatchingUnload => if ok { Phase::DrainingAfterUnload } else { Phase::Terminated },
        Phase::DrainingAfterUnload => Phase::Terminated,
        Phase::Terminated => Phase::Terminated,
    }
}

/// The sequence of phases a context visits, starting at `p`, when the work
/// outcomes arrive as `outs` (one outcome per completed piece of work).
pub open spec fn phase_trace(p: Phase, outs: Seq<bool>) -> Seq<Phase>
    decreases outs.len(),
{
    if outs.len() == 0 {
        seq![p]
    } else {
        seq![p] + phase_trace(lifecycle_next(p, outs[0]), outs.drop_first())
    }
}

/// How often phase `q` occurs in a trace.
pub open spec fn phase_count(t: Seq<Phase>, q: Phase) -> nat
    decreases t.len(),
{
    if t.len() == 0 {
        0
    } else {
        (if t[0] == q { 1nat } else { 0nat }) + phase_count(t.drop_first(), q)
    }
}

/// The position of a phase in the forward order of the machine.
pub open spec fn phase_rank(p: Phase) -> nat {
    match p {
        Phase::Created => 0,
        Phase::Bootstrapped => 1,
        Phase::Executing => 2,
        Phase::DispatchingLoad => 3,
        Phase::DrainingAfterLoad => 4,
        Phase::DispatchingUnload => 5,
        Phase::DrainingAfterUnload => 6,
        Phase::Terminated => 7,
    }
}

/// The machine only moves forward: every step out of a live phase strictly
/// increases the rank, and `Terminated` is absorbing.
pub proof fn lemma_rank_increases(p: Phase, ok: bool)
    ensures
        p != Phase::Terminated ==> phase_rank(lifecycle_next(p, ok)) > phase_rank(p),
        lifecycle_next(Phase::Terminated, ok) == Phase::Terminated,
{
}

/// Every phase of a trace sits at or above the rank of its starting phase.
pub proof fn lemma_trace_rank(p: Phase, outs: Seq<bool>)
    ensures
        forall|i: int|
            0 <= i < phase_trace(p, outs).len() ==> phase_rank(
                #[trigger] phase_trace(p, outs)[i],
            ) >= phase_rank(p),
    decreases outs.len(),
{
    if outs.len() > 0 {
        let p2 = lifecycle_next(p, outs[0]);
        lemma_rank_increases(p, outs[0]);
        lemma_trace_rank(p2, outs.drop_first());
        assert forall|i: int| 0 <= i < phase_trace(p, outs).len() implies phase_rank(
            phase_trace(p, outs)[i],
        ) >= phase_rank(p) by {
            if i > 0 {
                assert(phase_trace(p, outs)[i] == phase_trace(p2, outs.drop_first())[i - 1]);
            }
        }
    }
}

/// A phase strictly below the starting rank never occurs in a trace.
pub proof fn lemma_low_phase_absent(p: Phase, outs: Seq<bool>, q: Phase)
    requires
        phase_rank(q) < phase_rank(p),
    ensures
        phase_count(phase_trace(p, outs), q) == 0,
    decreases outs.len(),
{
    let t = phase_trace(p, outs);
    lemma_trace_len(p, outs);
    if outs.len() == 0 {
        assert(t.len() == 1 && t[0] == p);
        assert(phase_count(t.drop_first(), q) == 0);
    } else {
        lemma_rank_increases(p, outs[0]);
        lemma_low_phase_absent(lifecycle_next(p, outs[0]), outs.drop_first(), q);
        assert(t.drop_first() =~= phase_trace(lifecycle_next(p, outs[0]), outs.drop_first()));
        assert(t[0] == p);
    }
}

/// No live phase is ever revisited: each phase other than `Terminated`
/// occurs at most once in any trace.
pub proof fn lemma_phase_at_most_once(p: Phase, outs: Seq<bool>, q: Phase)
    requires
        q != Phase::Terminated,
    ensures
        phase_count(phase_trace(p, outs), q) <= 1,
    decreases outs.len(),
{
    let t = phase_trace(p, outs);
    lemma_trace_len(p, outs);
    if outs.len() == 0 {
        assert(t.len() == 1 && t[0] == p);
        assert(phase_count(t.drop_first(), q) == 0);
    } else {
        let p2 = lifecycle_next(p, outs[0]);
        let tail = phase_trace(p2, outs.drop_first());
        assert(t.drop_first() =~= tail);
        assert(t[0] == p);
        if p == q {
            lemma_rank_increases(p, outs[0]);
            lemma_low_phase_absent(p2, outs.drop_first(), q);
        } else {
            lemma_phase_at_most_once(p2, outs.drop_first(), q);
        }
    }
}

/// A torn-down context stays torn down: its trace holds `Terminated` only.
pub proof fn lemma_terminated_stays(outs: Seq<bool>)
    ensures
        forall|i: int|
            0 <= i < phase_trace(Phase::Terminated, outs).len() ==> #[trigger] phase_trace(
                Phase::Terminated,
                outs,
            )[i] == Phase::Terminated,
    decreases outs.len(),
{
    lemma_trace_rank(Phase::Terminated, outs);
    assert forall|i: int| 0 <= i < phase_trace(Phase::Terminated, outs).len() implies phase_trace(
        Phase::Terminated,
        outs,
    )[i] == Phase::Terminated by {
        let q = phase_trace(Phase::Terminated, outs)[i];
        assert(phase_rank(q) >= 7);
        assert(q == Phase::Terminated) by {
            if q != Phase::Terminated {
                assert(phase_rank(q) < 7);
            }
        }
    }
}

/// In every run that starts at the beginning, the "unload" event is only
/// ever dispatched after the "load" event was dispatched: any occurrence
/// of `DispatchingUnload` in the trace is preceded by an occurrence of
/// `DispatchingLoad`.
pub proof fn lemma_unload_after_load(p: Phase, outs: Seq<bool>)
    requires
        phase_rank(p) <= phase_rank(Phase::DispatchingLoad),
    ensures
        forall|i: int|
            0 <= i < phase_trace(p, outs).len() && phase_trace(p, outs)[i]
                == Phase::DispatchingUnload ==> exists|j: int|
                0 <= j < i && #[trigger] phase_trace(p, outs)[j] == Phase::DispatchingLoad,
    decreases outs.len(),
{
    if outs.len() == 0 {
    } else {
        let p2 = lifecycle_next(p, outs[0]);
        let t = phase_trace(p, outs);
        let tail = phase_trace(p2, outs.drop_first());
        assert(t.drop_first() =~= tail);
        assert forall|i: int|
            0 <= i < t.len() && t[i] == Phase::DispatchingUnload implies exists|j: int|
            0 <= j < i && #[trigger] t[j] == Phase::DispatchingLoad by {
            if i > 0 {
                assert(t[i] == tail[i - 1]);
                if p2 == Phase::Terminated {
                    lemma_terminated_stays(outs.drop_first());
                    assert(false);
                } else if phase_rank(p2) <= phase_rank(Phase::DispatchingLoad) {
                    lemma_unload_after_load(p2, outs.drop_first());
                    let j0 = choose|j0: int|
                        0 <= j0 < i - 1 && #[trigger] tail[j0] == Phase::DispatchingLoad;
                    assert(t[j0 + 1] == Phase::DispatchingLoad);
                } else {
                    // the only forward step that leaves the range at or
                    // below DispatchingLoad without failing goes out of
                    // DispatchingLoad itself
                    assert(p == Phase::DispatchingLoad);
                    assert(t[0] == Phase::DispatchingLoad);
                }
            }
        }
    }
}

/// When every piece of work succeeds and the run is driven to completion,
/// the context dispatches "load" exactly once and "unload" exactly once.
pub proof fn lemma_clean_run_dispatches_once(outs: Seq<bool>)
    requires
        outs.len() >= 5,
        forall|k: int| 0 <= k < 5 ==> outs[k] == true,
    ensures
        phase_count(phase_trace(Phase::Created, outs), Phase::DispatchingLoad) == 1,
        phase_count(phase_trace(Phase::Created, outs), Phase::DispatchingUnload) == 1,
{
    let t = phase_trace(Phase::Created, outs);
    lemma_phase_at_most_once(Phase::Created, outs, Phase::DispatchingLoad);
    lemma_phase_at_most_once(Phase::Created, outs, Phase::DispatchingUnload);
    lemma_trace_contains_phase(Phase::Created, outs, 3);
    lemma_trace_contains_phase(Phase::Created, outs, 5);
    lemma_count_positive(t, Phase::DispatchingLoad, 3);
    lemma_count_positive(t, Phase::DispatchingUnload, 5);
}

/// In a run from `Created` whose first outcomes all succeed, the phase
/// reached after `n` successful steps is the phase of rank `n`.
proof fn lemma_trace_contains_phase(p: Phase, outs: Seq<bool>, n: int)
    requires
        0 <= n <= outs.len(),
        forall|k: int| 0 <= k < n ==> outs[k] == true,
        p != Phase::Terminated,
        n + phase_rank(p) <= 6,
    ensures
        0 <= n < phase_trace(p, outs).len(),
        phase_rank(phase_trace(p, outs)[n]) == n + phase_rank(p),
    decreases n,
{
    lemma_trace_len(p, outs);
    if n == 0 {
        assert(phase_trace(p, outs)[0] == p);
    } else {
        let p2 = lifecycle_next(p, outs[0]);
        lemma_rank_increases(p, outs[0]);
        assert(phase_rank(p2) == phase_rank(p) + 1);
        lemma_trace_contains_phase(p2, outs.drop_first(), n - 1);
        assert(phase_trace(p, outs)[n] == phase_trace(p2, outs.drop_first())[n - 1]);
    }
}

/// A trace over `n` outcomes visits `n + 1` phases.
pub proof fn lemma_trace_len(p: Phase, outs: Seq<bool>)
    ensures
        phase_trace(p, outs).len() == outs.len() + 1,
    decreases outs.len(),
{
    if outs.len() > 0 {
        lemma_trace_len(lifecycle_next(p, outs[0]), outs.drop_first());
    }
}

/// A phase that occurs somewhere in a trace is counted at least once.
proof fn lemma_count_positive(t: Seq<Phase>, q: Phase, i: int)
    requires
        0 <= i < t.len(),
        t[i] == q,
    ensures
        phase_count(t, q) >= 1,
    decreases t.len(),
{
    if i > 0 {
        lemma_count_positive(t.drop_first(), q, i - 1);
    }
}

} // verus!
