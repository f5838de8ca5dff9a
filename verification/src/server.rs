//! The process supervisor: owns the (modelled) child-process handle, the
//! bounded log buffer and the status value, and drives the
//! stopped/starting/running/error state machine for start, stop and
//! teardown. The outside effects themselves — spawning, signalling, polling,
//! sleeping — are performed by the owning shell, which reports each outcome
//! back into the verified transitions below.
use crate::config::AppConfig;
use crate::launch::LaunchSpec;
use crate::launch::build_launch_spec;
use crate::launch::spec_env_pairs;
use crate::logbuf::LogBuffer;
use crate::logbuf::log_inv;
use crate::logbuf::spec_append_line;
use crate::text::concat_strs;
use vstd::prelude::*;
use vstd::string::*;

verus! {

/// Caller-facing status snapshot: one of `stopped`, `starting`, `running` or
/// `error`, plus the bound port while running and the message after a
/// failure.
pub struct ServerStatus {
    pub status: String,
    pub port: Option<u16>,
    pub error: Option<String>,
}

/// Mathematical image of a `ServerStatus`.
#[verifier::ext_equal]
pub struct StatusView {
    pub status: Seq<char>,
    pub port: Option<u16>,
    pub error: Option<Seq<char>>,
}

impl View for ServerStatus {
    type V = StatusView;

    open spec fn view(&self) -> StatusView {
        StatusView { status: self.status@, port: self.port, error: self.error.deep_view() }
    }
}

pub open spec fn spec_status_stopped() -> StatusView {
    StatusView { status: "stopped"@, port: None, error: None }
}

pub open spec fn spec_status_starting() -> StatusView {
    StatusView { status: "starting"@, port: None, error: None }
}

pub open spec fn spec_status_running(port: u16) -> StatusView {
    StatusView { status: "running"@, port: Some(port), error: None }
}

pub open spec fn spec_status_error(message: Seq<char>) -> StatusView {
    StatusView { status: "error"@, port: None, error: Some(message) }
}

/// Opaque stand-in for the operating-system handle of the spawned child; the
/// owning shell keeps the real handle under the same identifier.
#[derive(Clone, Copy, Debug, PartialEq, Eq, Structural)]
pub struct ProcessHandle {
    pub pid: u32,
}

/// What the executable resolution found: the path to launch, or the path
/// that was checked and does not exist.
pub enum ExecutableLookup {
    Found(String),
    Missing(String),
}

/// Outcome of one liveness poll of the child during `stop`.
pub enum WaitEvent {
    Exited,
    StillRunning,
    QueryFailed(String),
}

/// What the stop loop must do next after one liveness poll.
pub enum WaitDirective {
    Finish,
    SleepAndRetry,
    ForceKill,
    Fail(String),
}

/// Bounded deadline of the graceful stop wait, in milliseconds.
pub const STOP_DEADLINE_MS: u64 = 10000;

/// Fixed interval between liveness polls during `stop`, in milliseconds.
pub const STOP_POLL_INTERVAL_MS: u64 = 100;

/// Mathematical image of a `ServerManager`.
#[verifier::ext_equal]
pub struct ManagerView {
    pub process: Option<ProcessHandle>,
    pub status: StatusView,
    pub logs: Seq<Seq<char>>,
}

impl ManagerView {
    /// The supervisor's data invariant: the log buffer respects its
    /// capacity, and a held process handle means the status reports
    /// `running` with a bound port.
    pub open spec fn inv(self) -> bool {
        &&& log_inv(self.logs)
        &&& self.process is Some ==> self.status.status == "running"@ && self.status.port is Some
    }
}

/// The supervisor before any start: no handle, empty logs, status stopped.
pub open spec fn spec_init() -> ManagerView {
    ManagerView { process: None, status: spec_status_stopped(), logs: Seq::empty() }
}

/// One state transition of the supervisor, as the owning shell reports the
/// outcome of each outside effect.
pub enum SupervisorStep {
    /// A start attempt whose executable resolution failed with `message`.
    FailStart { message: Seq<char> },
    /// A start attempt that resolved `program` and is about to spawn.
    AcceptStart { program: Seq<char> },
    /// The spawn itself was refused by the operating system.
    SpawnFailure { os_error: Seq<char> },
    /// The child was spawned and its handle is now held.
    SpawnSuccess { handle: ProcessHandle, port: u16 },
    /// Stop begins: the handle leaves the supervisor for termination.
    BeginStop,
    /// Stop ends, on every branch: state is cleared unconditionally.
    FinishStop,
    /// A background reader delivered one decoded line.
    AppendLog { line: Seq<char> },
    /// The caller emptied the log buffer.
    ClearLogs,
}

/// The line recorded when a start attempt begins with `program`.
pub open spec fn spec_start_log_line(program: Seq<char>) -> Seq<char> {
    "[Debug] Starting server with executable: "@ + program
}

/// The line recorded when the operating system refuses the spawn.
pub open spec fn spec_spawn_log_line(os_error: Seq<char>) -> Seq<char> {
    "[Error] Failed to spawn: "@ + os_error
}

/// The error a failed spawn reports to the caller.
pub open spec fn spec_spawn_failure_message(os_error: Seq<char>) -> Seq<char> {
    "Failed to start server: "@ + os_error
}

/// The error reported when the executable path does not exist.
pub open spec fn spec_not_found_message(path: Seq<char>) -> Seq<char> {
    "Python executable not found at: "@ + path
}

/// The error reported when polling the child's liveness itself failed.
pub open spec fn spec_wait_error_message(os_error: Seq<char>) -> Seq<char> {
    "Error waiting for process: "@ + os_error
}

/// The supervisor state after `step`.
pub open spec fn spec_step(m: ManagerView, step: SupervisorStep) -> ManagerView {
    match step {
        SupervisorStep::FailStart { message } => ManagerView {
            status: spec_status_error(message),
            ..m
        },
        SupervisorStep::AcceptStart { program } => ManagerView {
            status: spec_status_starting(),
            logs: seq![spec_start_log_line(program)],
            ..m
        },
        SupervisorStep::SpawnFailure { os_error } => ManagerView {
            status: spec_status_error(spec_spawn_failure_message(os_error)),
            logs: spec_append_line(m.logs, spec_spawn_log_line(os_error)),
            ..m
        },
        SupervisorStep::SpawnSuccess { handle, port } => ManagerView {
            process: Some(handle),
            status: spec_status_running(port),
            ..m
        },
        SupervisorStep::BeginStop => ManagerView { process: None, ..m },
        SupervisorStep::FinishStop => ManagerView {
            process: None,
            status: spec_status_stopped(),
            ..m
        },
        SupervisorStep::AppendLog { line } => ManagerView {
            logs: spec_append_line(m.logs, line),
            ..m
        },
        SupervisorStep::ClearLogs => ManagerView { logs: Seq::empty(), ..m },
    }
}

/// When a step may fire: the four start-path steps demand that no handle is
/// held — a start is never concurrent with a live child.
pub open spec fn step_allowed(m: ManagerView, step: SupervisorStep) -> bool {
    match step {
        SupervisorStep::FailStart { .. } => m.process is None,
        SupervisorStep::AcceptStart { .. } => m.process is None,
        SupervisorStep::SpawnFailure { .. } => m.process is None,
        SupervisorStep::SpawnSuccess { .. } => m.process is None,
        SupervisorStep::BeginStop => true,
        SupervisorStep::FinishStop => m.process is None,
        SupervisorStep::AppendLog { .. } => true,
        SupervisorStep::ClearLogs => true,
    }
}

/// The state after running a whole sequence of steps.
pub open spec fn spec_run(m: ManagerView, steps: Seq<SupervisorStep>) -> ManagerView
    decreases steps.len(),
{
    if steps.len() == 0 {
        m
    } else {
        spec_run(spec_step(m, steps[0]), steps.skip(1))
    }
}

/// Whether every step of the sequence fires in a state that allows it.
pub open spec fn run_allowed(m: ManagerView, steps: Seq<SupervisorStep>) -> bool
    decreases steps.len(),
{
    steps.len() == 0 || {
        &&& step_allowed(m, steps[0])
        &&& run_allowed(spec_step(m, steps[0]), steps.skip(1))
    }
}

/// How many child handles the supervisor holds.
pub open spec fn live_handles(m: ManagerView) -> nat {
    if m.process is Some {
        1nat
    } else {
        0nat
    }
}

/// Server manager for controlling the gateway backend: holds at most one
/// child handle, the status value, and the bounded log buffer.
pub struct ServerManager {
    process: Option<ProcessHandle>,
    status: ServerStatus,
    logs: LogBuffer,
}

impl View for ServerManager {
    type V = ManagerView;

    closed spec fn view(&self) -> ManagerView {
        ManagerView { process: self.process, status: self.status@, logs: self.logs@ }
    }
}

fn status_stopped() -> (s: ServerStatus)
    ensures
        s@ == spec_status_stopped(),
{
    let s = ServerStatus { status: String::from_str("stopped"), port: None, error: None };
    proof {
        assert(s@ =~= spec_status_stopped());
    }
    s
}

fn status_starting() -> (s: ServerStatus)
    ensures
        s@ == spec_status_starting(),
{
    let s = ServerStatus { status: String::from_str("starting"), port: None, error: None };
    proof {
        assert(s@ =~= spec_status_starting());
    }
    s
}

fn status_running(port: u16) -> (s: ServerStatus)
    ensures
        s@ == spec_status_running(port),
{
    let s = ServerStatus { status: String::from_str("running"), port: Some(port), error: None };
    proof {
        assert(s@ =~= spec_status_running(port));
    }
    s
}

fn status_error(message: String) -> (s: ServerStatus)
    ensures
        s@ == spec_status_error(message@),
{
    let s = ServerStatus { status: String::from_str("error"), port: None, error: Some(message) };
    proof {
        assert(s@ =~= spec_status_error(message@));
    }
    s
}

/// Decide the stop loop's next move after one liveness poll: an exited child
/// finishes the wait, a live child is re-polled until the deadline and
/// force-killed past it, and a failed query surfaces a wait error.
pub fn stop_wait_decision(elapsed_ms: u64, event: WaitEvent) -> (d: WaitDirective)
    ensures
        event is Exited ==> d is Finish,
        event is StillRunning && elapsed_ms <= STOP_DEADLINE_MS ==> d is SleepAndRetry,
        event is StillRunning && elapsed_ms > STOP_DEADLINE_MS ==> d is ForceKill,
        (event matches WaitEvent::QueryFailed(e) ==> d matches WaitDirective::Fail(m)
            && m@ == spec_wait_error_message(e@)),
{
    match event {
        WaitEvent::Exited => WaitDirective::Finish,
        WaitEvent::StillRunning => {
            if elapsed_ms > STOP_DEADLINE_MS {
                WaitDirective::ForceKill
            } else {
                WaitDirective::SleepAndRetry
            }
        },
        WaitEvent::QueryFailed(e) => WaitDirective::Fail(
            concat_strs("Error waiting for process: ", e.as_str()),
        ),
    }
}

impl ServerManager {
    /// Create a new server manager: no child, empty logs, status stopped.
    pub fn new() -> (m: ServerManager)
        ensures
            m@ == spec_init(),
            m@.inv(),
    {
        let m = ServerManager { process: None, status: status_stopped(), logs: LogBuffer::new() };
        proof {
            assert(m@ =~= spec_init());
        }
        m
    }

    /// Whether a child handle is currently held.
    pub fn has_process(&self) -> (r: bool)
        ensures
            r == (self@.process is Some),
    {
        self.process.is_some()
    }

    /// A copy of the current status: a pure read, no side effects.
    pub fn get_status(&self) -> (r: ServerStatus)
        ensures
            r@ == self@.status,
    {
        let r = ServerStatus {
            status: self.status.status.clone(),
            port: self.status.port,
            error: self.status.error.clone(),
        };
        proof {
            assert(r@ =~= self@.status);
        }
        r
    }

    /// A snapshot of the log buffer, oldest line first; later appends do not
    /// change a snapshot already returned.
    pub fn get_logs(&self) -> (r: Vec<String>)
        ensures
            r.deep_view() == self@.logs,
    {
        self.logs.snapshot()
    }

    /// Empty the log buffer; safe at any status.
    pub fn clear_logs(&mut self)
        ensures
            final(self)@ == spec_step(old(self)@, SupervisorStep::ClearLogs),
    {
        self.logs.clear();
        proof {
            assert(self@ =~= spec_step(old(self)@, SupervisorStep::ClearLogs));
        }
    }

    /// Record one decoded output line from a background reader, under the
    /// buffer's capacity-bound eviction rule.
    pub fn append_log(&mut self, line: String)
        requires
            old(self)@.inv(),
        ensures
            final(self)@ == spec_step(old(self)@, SupervisorStep::AppendLog { line: line@ }),
            final(self)@.inv(),
    {
        let ghost l = line@;
        self.logs.append(line);
        proof {
            assert(self@ =~= spec_step(old(self)@, SupervisorStep::AppendLog { line: l }));
        }
    }

    /// Enter a start attempt with the executable resolution in hand. A
    /// missing executable is fatal to the attempt: status becomes `error`
    /// with the resolution message, no process is spawned, the logs keep
    /// their previous lines. A resolved executable begins a fresh log
    /// window, records the launch line, and yields the launch specification
    /// to spawn.
    pub fn begin_start(&mut self, config: &AppConfig, exe: ExecutableLookup) -> (r: Result<
        LaunchSpec,
        String,
    >)
        requires
            old(self)@.inv(),
            old(self)@.process is None,
        ensures
            final(self)@.inv(),
            final(self)@.process is None,
            (exe matches ExecutableLookup::Missing(path) ==> {
                &&& final(self)@ == spec_step(
                    old(self)@,
                    SupervisorStep::FailStart { message: spec_not_found_message(path@) },
                )
                &&& r matches Err(m) && m@ == spec_not_found_message(path@)
            }),
            (exe matches ExecutableLookup::Found(path) ==> {
                &&& final(self)@ == spec_step(
                    old(self)@,
                    SupervisorStep::AcceptStart { program: path@ },
                )
                &&& r matches Ok(plan) && plan.program@ == path@ && plan.env.deep_view()
                    == spec_env_pairs(*config)
            }),
    {
        self.status = status_starting();
        match exe {
            ExecutableLookup::Missing(path) => {
                let msg = concat_strs("Python executable not found at: ", path.as_str());
                self.status = status_error(msg.clone());
                proof {
                    assert(self@ =~= spec_step(
                        old(self)@,
                        SupervisorStep::FailStart { message: spec_not_found_message(path@) },
                    ));
                }
                Err(msg)
            },
            ExecutableLookup::Found(path) => {
                self.logs.clear();
                self.logs.append(concat_strs("[Debug] Starting server with executable: ", path.as_str()));
                let plan = build_launch_spec(config, path);
                proof {
                    assert(self@.logs =~= seq![spec_start_log_line(plan.program@)]);
                    assert(self@ =~= spec_step(
                        old(self)@,
                        SupervisorStep::AcceptStart { program: plan.program@ },
                    ));
                }
                Ok(plan)
            },
        }
    }

    /// Record that the operating system refused the spawn: the OS message is
    /// appended to the logs, status becomes `error`, and the returned
    /// message is what the start call reports.
    pub fn record_spawn_failure(&mut self, os_error: &str) -> (msg: String)
        requires
            old(self)@.inv(),
            old(self)@.process is None,
        ensures
            final(self)@ == spec_step(
                old(self)@,
                SupervisorStep::SpawnFailure { os_error: os_error@ },
            ),
            final(self)@.inv(),
            msg@ == spec_spawn_failure_message(os_error@),
    {
        self.logs.append(concat_strs("[Error] Failed to spawn: ", os_error));
        let msg = concat_strs("Failed to start server: ", os_error);
        self.status = status_error(msg.clone());
        proof {
            assert(self@ =~= spec_step(
                old(self)@,
                SupervisorStep::SpawnFailure { os_error: os_error@ },
            ));
        }
        msg
    }

    /// Record a successful spawn: the handle is stored — the only way a
    /// handle enters the supervisor — and the status becomes `running` with
    /// the configured port. Returns the new status.
    pub fn record_spawn_success(&mut self, handle: ProcessHandle, port: u16) -> (st: ServerStatus)
        requires
            old(self)@.inv(),
            old(self)@.process is None,
        ensures
            final(self)@ == spec_step(
                old(self)@,
                SupervisorStep::SpawnSuccess { handle, port },
            ),
            final(self)@.inv(),
            st@ == final(self)@.status,
    {
        self.process = Some(handle);
        self.status = status_running(port);
        proof {
            assert(self@ =~= spec_step(
                old(self)@,
                SupervisorStep::SpawnSuccess { handle, port },
            ));
        }
        self.get_status()
    }

    /// Take the held handle out for termination. Used both when `stop`
    /// begins — the shell signals, polls and force-kills past the deadline —
    /// and at supervisor teardown, where the shell force-kills the returned
    /// handle at once without waiting.
    pub fn begin_stop(&mut self) -> (h: Option<ProcessHandle>)
        requires
            old(self)@.inv(),
        ensures
            h == old(self)@.process,
            final(self)@ == spec_step(old(self)@, SupervisorStep::BeginStop),
            final(self)@.inv(),
    {
        let h = self.process.take();
        proof {
            assert(self@ =~= spec_step(old(self)@, SupervisorStep::BeginStop));
        }
        h
    }

    /// End a stop: status becomes `stopped` with no port and no error,
    /// unconditionally — whichever branch the wait took. A wait error is
    /// surfaced to the caller but does not prevent this cleanup.
    pub fn finish_stop(&mut self, failure: Option<String>) -> (r: Result<(), String>)
        requires
            old(self)@.inv(),
            old(self)@.process is None,
        ensures
            final(self)@ == spec_step(old(self)@, SupervisorStep::FinishStop),
            final(self)@.inv(),
            r is Ok <==> failure is None,
            (failure matches Some(m) ==> r matches Err(e) && e == m),
    {
        self.status = status_stopped();
        proof {
            assert(self@ =~= spec_step(old(self)@, SupervisorStep::FinishStop));
        }
        match failure {
            None => Ok(()),
            Some(m) => Err(m),
        }
    }
}

/// Every allowed step keeps the supervisor invariant.
pub proof fn lemma_step_preserves_inv(m: ManagerView, step: SupervisorStep)
    requires
        m.inv(),
        step_allowed(m, step),
    ensures
        spec_step(m, step).inv(),
{
}

/// Law: over every serialized sequence of start/stop/log steps from a state
/// holding the invariant, the supervisor never holds more than one live
/// child handle, and the invariant is kept throughout.
pub proof fn lemma_at_most_one_live_handle(m: ManagerView, steps: Seq<SupervisorStep>)
    requires
        m.inv(),
        run_allowed(m, steps),
    ensures
        spec_run(m, steps).inv(),
        live_handles(spec_run(m, steps)) <= 1,
    decreases steps.len(),
{
    if steps.len() > 0 {
        lemma_step_preserves_inv(m, steps[0]);
        lemma_at_most_one_live_handle(spec_step(m, steps[0]), steps.skip(1));
    }
}

/// Law: after any completed stop — graceful exit, forced kill, or a wait
/// error — the status is exactly `{stopped, no port, no error}` and no
/// process handle remains held.
pub proof fn lemma_stop_clears_state(m: ManagerView)
    ensures
        spec_step(m, SupervisorStep::FinishStop).status == spec_status_stopped(),
        spec_step(m, SupervisorStep::FinishStop).process is None,
{
}

/// Law: clearing the logs followed immediately by reading them yields the
/// empty sequence.
pub proof fn lemma_clear_then_logs_empty(m: ManagerView)
    ensures
        spec_step(m, SupervisorStep::ClearLogs).logs == Seq::<Seq<char>>::empty(),
{
}

/// Law: a stop issued while the supervisor is already stopped with no child
/// succeeds with no observable state change.
pub proof fn lemma_stop_idempotent(m: ManagerView)
    requires
        m.process is None,
        m.status == spec_status_stopped(),
    ensures
        spec_step(m, SupervisorStep::BeginStop) == m,
        spec_step(spec_step(m, SupervisorStep::BeginStop), SupervisorStep::FinishStop) == m,
{
    assert(spec_step(m, SupervisorStep::BeginStop) =~= m);
    assert(spec_step(spec_step(m, SupervisorStep::BeginStop), SupervisorStep::FinishStop) =~= m);
}

} // verus!
