//! Laws of the supervisor: properties of the transition relation `spec_step`
//! that hold for every reachable state, proved once and for all.

use vstd::prelude::*;

use crate::supervisor::{
    Event, Notice, Op, ProcessHandle, Reply, SupervisorState, spec_step, FAILURE_THRESHOLD,
    MAX_RESTARTS,
};

verus! {

/// Every transition preserves the structural invariant: in particular the
/// restart count never exceeds `MAX_RESTARTS`, whatever events arrive in
/// whatever order.
pub proof fn lemma_step_preserves_wf(s: SupervisorState, e: Event)
    requires
        s.wf(),
    ensures
        spec_step(s, e).0.wf(),
{
}

/// At most one process is ever live: a spawn is only commanded while no
/// process is tracked (a restart detaches the old process into the kill
/// operation first), and a handle is only ever installed into an empty slot —
/// a tracked handle is never overwritten by a different one.
pub proof fn lemma_at_most_one_live_process(s: SupervisorState, e: Event)
    requires
        s.wf(),
    ensures
        spec_step(s, e).1.op is Spawn ==> s.handle is None && spec_step(s, e).0.handle is None,
        spec_step(s, e).1.op is KillAndSpawn ==> spec_step(s, e).0.handle is None,
        s.handle is Some && spec_step(s, e).0.handle is Some ==> spec_step(s, e).0.handle
            == s.handle,
{
}

/// The shutting-down flag is monotonic: once set, no transition clears it.
pub proof fn lemma_shutdown_monotonic(s: SupervisorState, e: Event)
    requires
        s.shutting_down,
    ensures
        spec_step(s, e).0.shutting_down,
{
}

/// Once shutdown has been requested, no transition commands a spawn any more:
/// no new process is ever created past that point.
pub proof fn lemma_no_spawn_after_shutdown(s: SupervisorState, e: Event)
    requires
        s.shutting_down,
    ensures
        !(spec_step(s, e).1.op is Spawn),
        !(spec_step(s, e).1.op is KillAndSpawn),
{
}

/// Requesting a start while a process is tracked does nothing: the state is
/// unchanged, no operation is commanded, and the caller is told the backend
/// is already running. Hence two consecutive start calls spawn exactly one
/// process.
pub proof fn lemma_start_when_tracked(s: SupervisorState)
    requires
        s.handle is Some,
    ensures
        spec_step(s, Event::StartRequested).0 == s,
        spec_step(s, Event::StartRequested).1.op is Stay,
        spec_step(s, Event::StartRequested).1.reply == Some(Reply::AlreadyRunning),
        spec_step(s, Event::StartRequested).1.notice is None,
{
}

/// If the initial probe of the starting sequence finds the health endpoint
/// already answering, nothing is spawned: the caller is told a backend is
/// already running externally, no handle is recorded, and the supervisor
/// proceeds straight to monitoring.
pub proof fn lemma_external_backend_left_alone(s: SupervisorState)
    requires
        s.wf(),
        s.phase is StartProbing,
    ensures
        spec_step(s, Event::ProbeResult(true)).1.op is Stay,
        spec_step(s, Event::ProbeResult(true)).1.reply == Some(Reply::AlreadyRunningExternally),
        spec_step(s, Event::ProbeResult(true)).0.handle is None,
        spec_step(s, Event::ProbeResult(true)).0.phase is Running,
{
}

/// A successful periodic probe resets the failure counter to zero and
/// triggers nothing.
pub proof fn lemma_probe_success_resets(s: SupervisorState)
    requires
        s.phase is Checking,
    ensures
        spec_step(s, Event::ProbeResult(true)).0.consecutive_failures == 0,
        spec_step(s, Event::ProbeResult(true)).0.phase is Running,
        spec_step(s, Event::ProbeResult(true)).1.op is Stay,
        spec_step(s, Event::ProbeResult(true)).1.notice is None,
{
}

/// A failed periodic probe below the failure threshold only counts: no
/// restart, no notice, back to monitoring.
pub proof fn lemma_failure_below_threshold_waits(s: SupervisorState)
    requires
        s.phase is Checking,
        s.consecutive_failures + 1 < FAILURE_THRESHOLD,
    ensures
        spec_step(s, Event::ProbeResult(false)).0.consecutive_failures
            == s.consecutive_failures + 1,
        spec_step(s, Event::ProbeResult(false)).0.phase is Running,
        spec_step(s, Event::ProbeResult(false)).0.handle == s.handle,
        spec_step(s, Event::ProbeResult(false)).1.op is Stay,
        spec_step(s, Event::ProbeResult(false)).1.notice is None,
{
}

/// The failed probe that reaches the failure threshold triggers exactly one
/// kill-and-respawn, provided shutdown has not been requested and budget
/// remains: the tracked process is detached into the kill operation and a
/// restarting notice is emitted.
pub proof fn lemma_threshold_failure_triggers_restart(s: SupervisorState)
    requires
        s.wf(),
        s.phase is Checking,
        s.consecutive_failures + 1 >= FAILURE_THRESHOLD,
        !s.shutting_down,
        s.restart_count < MAX_RESTARTS,
    ensures
        spec_step(s, Event::ProbeResult(false)).1.op == Op::KillAndSpawn(s.handle),
        spec_step(s, Event::ProbeResult(false)).1.notice == Some(Notice::Restarting),
        spec_step(s, Event::ProbeResult(false)).0.phase is RestartSpawning,
        spec_step(s, Event::ProbeResult(false)).0.handle is None,
{
}

/// Three consecutive probe failures from a clean monitoring state produce
/// exactly one kill-and-respawn: the first two failures command nothing but
/// the next probe, and the third triggers the restart.
pub proof fn lemma_three_failures_one_restart(s0: SupervisorState)
    requires
        s0.wf(),
        s0.phase is Running,
        s0.consecutive_failures == 0,
        s0.restart_count < MAX_RESTARTS,
        !s0.shutting_down,
    ensures
        ({
            let s1 = spec_step(s0, Event::Wake).0;
            let s2 = spec_step(s1, Event::ProbeResult(false)).0;
            let s3 = spec_step(s2, Event::Wake).0;
            let s4 = spec_step(s3, Event::ProbeResult(false)).0;
            let s5 = spec_step(s4, Event::Wake).0;
            &&& spec_step(s0, Event::Wake).1.op is Probe
            &&& spec_step(s1, Event::ProbeResult(false)).1.op is Stay
            &&& s2.consecutive_failures == 1
            &&& spec_step(s3, Event::ProbeResult(false)).1.op is Stay
            &&& s4.consecutive_failures == 2
            &&& spec_step(s5, Event::ProbeResult(false)).1.op == Op::KillAndSpawn(s0.handle)
            &&& spec_step(s5, Event::ProbeResult(false)).1.notice == Some(Notice::Restarting)
            &&& spec_step(s5, Event::ProbeResult(false)).0.phase is RestartSpawning
        }),
{
}

/// The initial health wait is a soft signal: whether or not it reached a
/// healthy probe, the starting sequence keeps the spawned process tracked,
/// reports a successful start, and proceeds to monitoring. (A failed health
/// wait after a restart, by contrast, consumes restart budget.)
pub proof fn lemma_start_health_wait_is_soft(s: SupervisorState, healthy: bool)
    requires
        s.phase is StartWaiting,
    ensures
        spec_step(s, Event::HealthWaitDone(healthy)).0.phase is Running,
        spec_step(s, Event::HealthWaitDone(healthy)).0.handle == s.handle,
        spec_step(s, Event::HealthWaitDone(healthy)).1.reply == Some(Reply::Started),
        spec_step(s, Event::HealthWaitDone(healthy)).0.restart_count == s.restart_count,
{
}

/// When the failure threshold is reached with the restart budget already
/// exhausted, the supervisor emits exactly one error notice, terminates the
/// loop, and enters the terminal `Failed` phase.
pub proof fn lemma_budget_exhausted_fails(s: SupervisorState)
    requires
        s.wf(),
        s.phase is Checking,
        s.consecutive_failures + 1 >= FAILURE_THRESHOLD,
        !s.shutting_down,
        s.restart_count >= MAX_RESTARTS,
    ensures
        spec_step(s, Event::ProbeResult(false)).1.notice == Some(Notice::BudgetExhausted),
        spec_step(s, Event::ProbeResult(false)).1.op is Exit,
        spec_step(s, Event::ProbeResult(false)).0.phase is Failed,
{
}

/// `Failed` is terminal and silent: whatever event arrives, the supervisor
/// stays in `Failed`, commands no probe, no spawn, no health wait, and emits
/// no further notice. (Stopping still detaches the tracked process so it can
/// be killed.)
pub proof fn lemma_failed_is_terminal(s: SupervisorState, e: Event)
    requires
        s.phase is Failed,
    ensures
        spec_step(s, e).0.phase is Failed,
        !(spec_step(s, e).1.op is Probe),
        !(spec_step(s, e).1.op is Spawn),
        !(spec_step(s, e).1.op is KillAndSpawn),
        !(spec_step(s, e).1.op is AwaitHealth),
        spec_step(s, e).1.notice is None,
{
}

/// If shutdown is requested after a failure is detected but before the
/// restart would execute, the loop exits without respawning: the failure that
/// reaches the threshold commands only the loop exit, the tracked handle is
/// left for the stop operation, and nothing is spawned.
pub proof fn lemma_shutdown_preempts_restart(s: SupervisorState)
    requires
        s.wf(),
        s.phase is Checking,
        s.consecutive_failures + 1 >= FAILURE_THRESHOLD,
        s.shutting_down,
    ensures
        spec_step(s, Event::ProbeResult(false)).1.op is Exit,
        spec_step(s, Event::ProbeResult(false)).1.notice is None,
        spec_step(s, Event::ProbeResult(false)).0.phase is Stopped,
        spec_step(s, Event::ProbeResult(false)).0.handle == s.handle,
{
}

/// A wake of the monitoring loop with shutdown requested exits the loop at
/// once, without probing and without touching the tracked process.
pub proof fn lemma_shutdown_exits_at_wake(s: SupervisorState)
    requires
        s.phase is Running,
        s.shutting_down,
    ensures
        spec_step(s, Event::Wake).1.op is Exit,
        spec_step(s, Event::Wake).0.phase is Stopped,
        spec_step(s, Event::Wake).0.handle == s.handle,
{
}

/// Stopping with no tracked process has no side effect: the state is exactly
/// unchanged and the kill operation has nothing to kill.
pub proof fn lemma_stop_without_process_is_noop(s: SupervisorState)
    requires
        s.handle is None,
    ensures
        spec_step(s, Event::StopRequested).0 == s,
        spec_step(s, Event::StopRequested).1.op == Op::Kill(Option::<ProcessHandle>::None),
        spec_step(s, Event::StopRequested).1.reply is None,
        spec_step(s, Event::StopRequested).1.notice is None,
{
}

} // verus!
