//! The backend process supervisor: a state machine that owns at most one
//! backend process, watches its health, restarts it within bounds, and
//! coordinates shutdown.
//!
//! The machine is driven by events. The surrounding application performs the
//! commanded operation (spawn a process, run a probe, kill a process, sleep)
//! and feeds the outcome back as the next event. Every decision — when to
//! spawn, when to restart, when to give up, what to report — is taken here
//! and verified; the application performs I/O and nothing else.

use vstd::prelude::*;

verus! {

/// Consecutive failed probes that trigger a restart.
pub const FAILURE_THRESHOLD: u32 = 3;

/// Restart attempts the watchdog may spend before giving up for good.
pub const MAX_RESTARTS: u32 = 3;

/// Seconds between periodic health checks of the watchdog loop.
pub const PROBE_INTERVAL_SECS: u64 = 15;

/// Exclusively owned record of one live backend process. It exists from a
/// successful spawn until the process is killed and waited on; the supervisor
/// tracks at most one at any time.
pub struct ProcessHandle {
    /// OS process id of the spawned backend.
    pub pid: u32,
}

/// Where the supervisor stands in its lifecycle. The starting sequence and
/// the restarting sequence each span several sub-phases, one per suspension
/// point of the surrounding application (probe in flight, spawn in flight,
/// health wait in flight).
#[derive(Clone, Copy, Debug, PartialEq, Eq, Structural)]
pub enum Phase {
    /// No backend is managed and no start has been requested.
    Idle,
    /// A start was requested; the initial probe (is a backend already serving
    /// externally?) is in flight.
    StartProbing,
    /// The initial spawn is in flight.
    StartSpawning,
    /// The process is spawned and tracked; the bounded wait for its health
    /// endpoint is in flight.
    StartWaiting,
    /// The monitoring loop is live and sleeping until its next wake.
    Running,
    /// A periodic health probe is in flight.
    Checking,
    /// A restart was triggered; the kill-then-respawn is in flight.
    RestartSpawning,
    /// The respawned process is tracked; the bounded health wait is in flight.
    RestartWaiting,
    /// Terminal: the restart budget is exhausted. No further probing or
    /// restarting happens until the whole application restarts.
    Failed,
    /// The watchdog loop exited because shutdown was requested.
    Stopped,
}

/// The shared supervisor record: the tracked process, the monotonic
/// shutting-down flag, and the failure and restart counters.
pub struct SupervisorState {
    /// Lifecycle position of the supervisor.
    pub phase: Phase,
    /// The one tracked backend process, if any.
    pub handle: Option<ProcessHandle>,
    /// Set once when the application begins to close; never cleared.
    pub shutting_down: bool,
    /// Consecutive failed periodic probes since the last success.
    pub consecutive_failures: u32,
    /// Restart attempts consumed so far; never exceeds `MAX_RESTARTS`.
    pub restart_count: u32,
}

/// Something the supervisor asks the surrounding application to do. The
/// application performs it and reports the outcome as the next event.
pub enum Op {
    /// Nothing to do.
    Stay,
    /// Run one health probe; report the outcome as `Event::ProbeResult`.
    Probe,
    /// Launch the backend; report `Event::SpawnOk` or `Event::SpawnFailed`.
    Spawn,
    /// Kill the given process (best effort, failures ignored), wait for its
    /// exit, then launch a new backend and report the spawn outcome.
    KillAndSpawn(Option<ProcessHandle>),
    /// Run the bounded wait-until-healthy retry; report the outcome as
    /// `Event::HealthWaitDone`.
    AwaitHealth,
    /// Kill the given process and wait synchronously for its exit.
    Kill(Option<ProcessHandle>),
    /// The watchdog loop terminates.
    Exit,
}

/// Answer handed back to the caller of the start operation.
pub enum Reply {
    /// A backend process is already tracked; nothing was done.
    AlreadyRunning,
    /// The health endpoint answered before anything was spawned: a backend is
    /// managed externally, and the supervisor records no handle for it.
    AlreadyRunningExternally,
    /// The starting sequence completed and the process is tracked. This is
    /// reported even when the initial health wait ran out of attempts: that
    /// soft failure is only logged, never escalated.
    Started,
    /// The spawn itself failed; the message describes why.
    StartFailed(String),
    /// Shutdown had already been requested, so no process was created.
    ShuttingDown,
}

/// A state transition worth reporting to the UI layer.
pub enum Notice {
    /// The backend went down and a restart attempt begins.
    Restarting,
    /// A restart attempt brought the backend back to a healthy state.
    Restarted,
    /// A restart attempt failed to spawn a process; the message describes why.
    RespawnFailed(String),
    /// The restart budget is exhausted; the supervisor gives up.
    BudgetExhausted,
}

/// What one event produced: at most one reply to a pending operation, at most
/// one notice for the UI, and one operation for the application to perform.
pub struct StepResult {
    /// Answer to a pending start request, if one completed on this event.
    pub reply: Option<Reply>,
    /// Status transition to report, if any.
    pub notice: Option<Notice>,
    /// What the application must do next.
    pub op: Op,
}

/// An observation handed to the supervisor by the surrounding application.
pub enum Event {
    /// The start operation was invoked.
    StartRequested,
    /// The stop operation was invoked: kill the tracked process, if any.
    StopRequested,
    /// The application begins to close; monotonic, never undone.
    ShutdownRequested,
    /// The periodic watchdog timer fired.
    Wake,
    /// A commanded probe finished; true means the endpoint answered with a
    /// success status.
    ProbeResult(bool),
    /// A commanded spawn succeeded and produced this process.
    SpawnOk(ProcessHandle),
    /// A commanded spawn failed; the message describes why.
    SpawnFailed(String),
    /// A commanded bounded health wait finished; true means a probe succeeded
    /// within the attempt budget.
    HealthWaitDone(bool),
}

impl SupervisorState {
    /// Structural invariant of the supervisor: the restart budget is never
    /// exceeded, the failure counter stays within the bound that the
    /// transitions maintain, and no process is tracked in the phases that
    /// are about to create one.
    pub open spec fn wf(self) -> bool {
        &&& self.restart_count <= MAX_RESTARTS
        &&& match self.phase {
            Phase::RestartSpawning | Phase::RestartWaiting => {
                &&& self.restart_count < MAX_RESTARTS
                &&& self.consecutive_failures <= FAILURE_THRESHOLD + self.restart_count + 1
            },
            Phase::Failed | Phase::Stopped => self.consecutive_failures <= FAILURE_THRESHOLD
                + self.restart_count + 1,
            _ => self.consecutive_failures <= FAILURE_THRESHOLD + self.restart_count,
        }
        &&& (self.phase is Idle || self.phase is StartProbing || self.phase is StartSpawning
            || self.phase is RestartSpawning) ==> self.handle is None
    }

    /// A fresh supervisor: nothing tracked, nothing counted, not shutting
    /// down.
    pub fn new() -> (r: SupervisorState)
        ensures
            r.phase is Idle,
            r.handle is None,
            !r.shutting_down,
            r.consecutive_failures == 0,
            r.restart_count == 0,
            r.wf(),
    {
        SupervisorState {
            phase: Phase::Idle,
            handle: None,
            shutting_down: false,
            consecutive_failures: 0,
            restart_count: 0,
        }
    }

    /// Drive the machine by one event. The new state and the outcome are
    /// exactly those of the transition relation `spec_step`.
    pub fn step(&mut self, e: Event) -> (r: StepResult)
        requires
            old(self).wf(),
        ensures
            *final(self) == spec_step(*old(self), e).0,
            r == spec_step(*old(self), e).1,
            final(self).wf(),
    {
        match e {
            Event::StartRequested => {
                if self.handle.is_some() {
                    StepResult { reply: Some(Reply::AlreadyRunning), notice: None, op: Op::Stay }
                } else if self.shutting_down {
                    StepResult { reply: Some(Reply::ShuttingDown), notice: None, op: Op::Stay }
                } else if matches!(self.phase, Phase::Idle | Phase::Running) {
                    self.phase = Phase::StartProbing;
                    StepResult { reply: None, notice: None, op: Op::Probe }
                } else {
                    StepResult { reply: None, notice: None, op: Op::Stay }
                }
            },
            Event::StopRequested => {
                let h = self.handle.take();
                StepResult { reply: None, notice: None, op: Op::Kill(h) }
            },
            Event::ShutdownRequested => {
                self.shutting_down = true;
                StepResult { reply: None, notice: None, op: Op::Stay }
            },
            Event::Wake => {
                if matches!(self.phase, Phase::Running) {
                    if self.shutting_down {
                        self.phase = Phase::Stopped;
                        StepResult { reply: None, notice: None, op: Op::Exit }
                    } else {
                        self.phase = Phase::Checking;
                        StepResult { reply: None, notice: None, op: Op::Probe }
                    }
                } else {
                    StepResult { reply: None, notice: None, op: Op::Stay }
                }
            },
            Event::ProbeResult(healthy) => {
                if matches!(self.phase, Phase::StartProbing) {
                    if healthy {
                        self.phase = Phase::Running;
                        StepResult {
                            reply: Some(Reply::AlreadyRunningExternally),
                            notice: None,
                            op: Op::Stay,
                        }
                    } else if self.shutting_down {
                        self.phase = Phase::Idle;
                        StepResult { reply: Some(Reply::ShuttingDown), notice: None, op: Op::Stay }
                    } else {
                        self.phase = Phase::StartSpawning;
                        StepResult { reply: None, notice: None, op: Op::Spawn }
                    }
                } else if matches!(self.phase, Phase::Checking) {
                    if healthy {
                        self.consecutive_failures = 0;
                        self.phase = Phase::Running;
                        StepResult { reply: None, notice: None, op: Op::Stay }
                    } else {
                        self.consecutive_failures = self.consecutive_failures + 1;
                        if self.consecutive_failures < FAILURE_THRESHOLD {
                            self.phase = Phase::Running;
                            StepResult { reply: None, notice: None, op: Op::Stay }
                        } else if self.shutting_down {
                            self.phase = Phase::Stopped;
                            StepResult { reply: None, notice: None, op: Op::Exit }
                        } else if self.restart_count >= MAX_RESTARTS {
                            self.phase = Phase::Failed;
                            StepResult {
                                reply: None,
                                notice: Some(Notice::BudgetExhausted),
                                op: Op::Exit,
                            }
                        } else {
                            self.phase = Phase::RestartSpawning;
                            let h = self.handle.take();
                            StepResult {
                                reply: None,
                                notice: Some(Notice::Restarting),
                                op: Op::KillAndSpawn(h),
                            }
                        }
                    }
                } else {
                    StepResult { reply: None, notice: None, op: Op::Stay }
                }
            },
            Event::SpawnOk(h) => {
                if matches!(self.phase, Phase::StartSpawning) {
                    self.handle = Some(h);
                    self.phase = Phase::StartWaiting;
                    StepResult { reply: None, notice: None, op: Op::AwaitHealth }
                } else if matches!(self.phase, Phase::RestartSpawning) {
                    self.handle = Some(h);
                    self.phase = Phase::RestartWaiting;
                    StepResult { reply: None, notice: None, op: Op::AwaitHealth }
                } else {
                    StepResult { reply: None, notice: None, op: Op::Stay }
                }
            },
            Event::SpawnFailed(msg) => {
                if matches!(self.phase, Phase::StartSpawning) {
                    self.phase = Phase::Idle;
                    StepResult {
                        reply: Some(Reply::StartFailed(msg)),
                        notice: None,
                        op: Op::Stay,
                    }
                } else if matches!(self.phase, Phase::RestartSpawning) {
                    self.restart_count = self.restart_count + 1;
                    self.phase = Phase::Running;
                    StepResult {
                        reply: None,
                        notice: Some(Notice::RespawnFailed(msg)),
                        op: Op::Stay,
                    }
                } else {
                    StepResult { reply: None, notice: None, op: Op::Stay }
                }
            },
            Event::HealthWaitDone(healthy) => {
                if matches!(self.phase, Phase::StartWaiting) {
                    self.phase = Phase::Running;
                    StepResult { reply: Some(Reply::Started), notice: None, op: Op::Stay }
                } else if matches!(self.phase, Phase::RestartWaiting) {
                    self.restart_count = self.restart_count + 1;
                    self.phase = Phase::Running;
                    if healthy {
                        self.consecutive_failures = 0;
                        StepResult { reply: None, notice: Some(Notice::Restarted), op: Op::Stay }
                    } else {
                        StepResult { reply: None, notice: None, op: Op::Stay }
                    }
                } else {
                    StepResult { reply: None, notice: None, op: Op::Stay }
                }
            },
        }
    }
}

/// Status discriminant of an event reported to the UI layer.
#[derive(Clone, Copy, Debug, PartialEq, Eq, Structural)]
pub enum Status {
    /// The backend is (or is again) serving.
    Running,
    /// The backend went down and a restart is in progress.
    Restarting,
    /// Something failed: a respawn error or an exhausted restart budget.
    Error,
}

/// A status transition as delivered to the UI layer: a discriminant and a
/// human-readable message.
pub struct StatusEvent {
    /// What kind of transition occurred.
    pub status: Status,
    /// Human-readable description of the transition.
    pub message: String,
}

/// The wire label of a status discriminant.
pub fn status_label(s: &Status) -> (r: &'static str)
    ensures
        s is Running ==> r@ == "running"@,
        s is Restarting ==> r@ == "restarting"@,
        s is Error ==> r@ == "error"@,
{
    match s {
        Status::Running => "running",
        Status::Restarting => "restarting",
        Status::Error => "error",
    }
}

/// Turn the answer of the start operation into the status string (or error
/// string) that the start operation returns to its caller.
pub fn reply_result(r: Reply) -> (res: Result<String, String>)
    ensures
        r is AlreadyRunning ==> res is Ok && res->Ok_0@ == "Backend server already running"@,
        r is AlreadyRunningExternally ==> res is Ok && res->Ok_0@
            == "Backend server already running externally"@,
        r is Started ==> res is Ok && res->Ok_0@ == "Backend server started successfully"@,
        r matches Reply::StartFailed(m) ==> res is Err && res->Err_0@ == m@,
        r is ShuttingDown ==> res is Err && res->Err_0@ == "Backend server is shutting down"@,
{
    match r {
        Reply::AlreadyRunning => Ok(String::from_str("Backend server already running")),
        Reply::AlreadyRunningExternally => Ok(
            String::from_str("Backend server already running externally"),
        ),
        Reply::Started => Ok(String::from_str("Backend server started successfully")),
        Reply::StartFailed(m) => Err(m),
        Reply::ShuttingDown => Err(String::from_str("Backend server is shutting down")),
    }
}

/// Turn a notice into the status event that is delivered to the UI layer.
pub fn notice_event(n: Notice) -> (r: StatusEvent)
    ensures
        n is Restarting ==> r.status is Restarting && r.message@
            == "El servidor se detuvo, reiniciando..."@,
        n is Restarted ==> r.status is Running && r.message@
            == "Servidor reiniciado correctamente"@,
        n matches Notice::RespawnFailed(m) ==> r.status is Error && r.message@
            == "Error reiniciando servidor: "@ + m@,
        n is BudgetExhausted ==> r.status is Error && r.message@
            == "El servidor se detuvo y no pudo reiniciarse. Reinicia la aplicaci\u{f3}n."@,
{
    match n {
        Notice::Restarting => StatusEvent {
            status: Status::Restarting,
            message: String::from_str("El servidor se detuvo, reiniciando..."),
        },
        Notice::Restarted => StatusEvent {
            status: Status::Running,
            message: String::from_str("Servidor reiniciado correctamente"),
        },
        Notice::RespawnFailed(m) => StatusEvent {
            status: Status::Error,
            message: String::from_str("Error reiniciando servidor: ").concat(m.as_str()),
        },
        Notice::BudgetExhausted => StatusEvent {
            status: Status::Error,
            message: String::from_str(
                "El servidor se detuvo y no pudo reiniciarse. Reinicia la aplicaci\u{f3}n.",
            ),
        },
    }
}

/// The result of the stop operation: `had_handle` says whether a process was
/// tracked when stop began, and `kill_error` carries the OS error text when
/// the kill failed. Stopping with nothing tracked succeeds as a no-op.
pub fn stop_result(had_handle: bool, kill_error: Option<String>) -> (r: Result<String, String>)
    ensures
        !had_handle ==> r is Ok && r->Ok_0@ == "Backend server was not running"@,
        had_handle && kill_error is None ==> r is Ok && r->Ok_0@
            == "Backend server stopped successfully"@,
        had_handle ==> (kill_error matches Some(e) ==> r is Err && r->Err_0@
            == "Failed to kill backend server: "@ + e@),
{
    if !had_handle {
        Ok(String::from_str("Backend server was not running"))
    } else {
        match kill_error {
            None => Ok(String::from_str("Backend server stopped successfully")),
            Some(e) => Err(
                String::from_str("Failed to kill backend server: ").concat(e.as_str()),
            ),
        }
    }
}

/// The transition relation of the supervisor, as a function from state and
/// event to next state and outcome. `SupervisorState::step` implements it
/// exactly; the laws of the library are proved about it.
pub open spec fn spec_step(s: SupervisorState, e: Event) -> (SupervisorState, StepResult) {
    match e {
        Event::StartRequested => {
            if s.handle is Some {
                (s, StepResult { reply: Some(Reply::AlreadyRunning), notice: None, op: Op::Stay })
            } else if s.shutting_down {
                (s, StepResult { reply: Some(Reply::ShuttingDown), notice: None, op: Op::Stay })
            } else if s.phase is Idle || s.phase is Running {
                (
                    SupervisorState { phase: Phase::StartProbing, ..s },
                    StepResult { reply: None, notice: None, op: Op::Probe },
                )
            } else {
                (s, StepResult { reply: None, notice: None, op: Op::Stay })
            }
        },
        Event::StopRequested => {
            (
                SupervisorState { handle: None, ..s },
                StepResult { reply: None, notice: None, op: Op::Kill(s.handle) },
            )
        },
        Event::ShutdownRequested => {
            (
                SupervisorState { shutting_down: true, ..s },
                StepResult { reply: None, notice: None, op: Op::Stay },
            )
        },
        Event::Wake => {
            if s.phase is Running {
                if s.shutting_down {
                    (
                        SupervisorState { phase: Phase::Stopped, ..s },
                        StepResult { reply: None, notice: None, op: Op::Exit },
                    )
                } else {
                    (
                        SupervisorState { phase: Phase::Checking, ..s },
                        StepResult { reply: None, notice: None, op: Op::Probe },
                    )
                }
            } else {
                (s, StepResult { reply: None, notice: None, op: Op::Stay })
            }
        },
        Event::ProbeResult(healthy) => {
            if s.phase is StartProbing {
                if healthy {
                    (
                        SupervisorState { phase: Phase::Running, ..s },
                        StepResult {
                            reply: Some(Reply::AlreadyRunningExternally),
                            notice: None,
                            op: Op::Stay,
                        },
                    )
                } else if s.shutting_down {
                    (
                        SupervisorState { phase: Phase::Idle, ..s },
                        StepResult { reply: Some(Reply::ShuttingDown), notice: None, op: Op::Stay },
                    )
                } else {
                    (
                        SupervisorState { phase: Phase::StartSpawning, ..s },
                        StepResult { reply: None, notice: None, op: Op::Spawn },
                    )
                }
            } else if s.phase is Checking {
                if healthy {
                    (
                        SupervisorState { phase: Phase::Running, consecutive_failures: 0, ..s },
                        StepResult { reply: None, notice: None, op: Op::Stay },
                    )
                } else {
                    let f = (s.consecutive_failures + 1) as u32;
                    if f < FAILURE_THRESHOLD {
                        (
                            SupervisorState {
                                phase: Phase::Running,
                                consecutive_failures: f,
                                ..s
                            },
                            StepResult { reply: None, notice: None, op: Op::Stay },
                        )
                    } else if s.shutting_down {
                        (
                            SupervisorState {
                                phase: Phase::Stopped,
                                consecutive_failures: f,
                                ..s
                            },
                            StepResult { reply: None, notice: None, op: Op::Exit },
                        )
                    } else if s.restart_count >= MAX_RESTARTS {
                        (
                            SupervisorState {
                                phase: Phase::Failed,
                                consecutive_failures: f,
                                ..s
                            },
                            StepResult {
                                reply: None,
                                notice: Some(Notice::BudgetExhausted),
                                op: Op::Exit,
                            },
                        )
                    } else {
                        (
                            SupervisorState {
                                phase: Phase::RestartSpawning,
                                consecutive_failures: f,
                                handle: None,
                                ..s
                            },
                            StepResult {
                                reply: None,
                                notice: Some(Notice::Restarting),
                                op: Op::KillAndSpawn(s.handle),
                            },
                        )
                    }
                }
            } else {
                (s, StepResult { reply: None, notice: None, op: Op::Stay })
            }
        },
        Event::SpawnOk(h) => {
            if s.phase is StartSpawning {
                (
                    SupervisorState { phase: Phase::StartWaiting, handle: Some(h), ..s },
                    StepResult { reply: None, notice: None, op: Op::AwaitHealth },
                )
            } else if s.phase is RestartSpawning {
                (
                    SupervisorState { phase: Phase::RestartWaiting, handle: Some(h), ..s },
                    StepResult { reply: None, notice: None, op: Op::AwaitHealth },
                )
            } else {
                (s, StepResult { reply: None, notice: None, op: Op::Stay })
            }
        },
        Event::SpawnFailed(msg) => {
            if s.phase is StartSpawning {
                (
                    SupervisorState { phase: Phase::Idle, ..s },
                    StepResult { reply: Some(Reply::StartFailed(msg)), notice: None, op: Op::Stay },
                )
            } else if s.phase is RestartSpawning {
                (
                    SupervisorState {
                        phase: Phase::Running,
                        restart_count: (s.restart_count + 1) as u32,
                        ..s
                    },
                    StepResult {
                        reply: None,
                        notice: Some(Notice::RespawnFailed(msg)),
                        op: Op::Stay,
                    },
                )
            } else {
                (s, StepResult { reply: None, notice: None, op: Op::Stay })
            }
        },
        Event::HealthWaitDone(healthy) => {
            if s.phase is StartWaiting {
                (
                    SupervisorState { phase: Phase::Running, ..s },
                    StepResult { reply: Some(Reply::Started), notice: None, op: Op::Stay },
                )
            } else if s.phase is RestartWaiting {
                if healthy {
                    (
                        SupervisorState {
                            phase: Phase::Running,
                            restart_count: (s.restart_count + 1) as u32,
                            consecutive_failures: 0,
                            ..s
                        },
                        StepResult { reply: None, notice: Some(Notice::Restarted), op: Op::Stay },
                    )
                } else {
                    (
                        SupervisorState {
                            phase: Phase::Running,
                            restart_count: (s.restart_count + 1) as u32,
                            ..s
                        },
                        StepResult { reply: None, notice: None, op: Op::Stay },
                    )
                }
            } else {
                (s, StepResult { reply: None, notice: None, op: Op::Stay })
            }
        },
    }
}

} // verus!
