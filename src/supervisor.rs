use vstd::prelude::*;
use vstd::string::StringExecFns;
use crate::health::{Endpoint, ProbePurpose};

verus! {

/// How long a graceful termination is given before the child is killed.
pub const GRACE_PERIOD_MS: u64 = 500;

/// Which of the two launch commands an attempt uses.
#[derive(Clone, Copy, Debug, PartialEq, Eq, Structural)]
pub enum LaunchCommand {
    Primary,
    Fallback,
}

impl LaunchCommand {
    pub open spec fn program_spec(self) -> Seq<char> {
        match self {
            LaunchCommand::Primary => "python3"@,
            LaunchCommand::Fallback => "python"@,
        }
    }

    /// The interpreter this command runs.
    pub fn program(&self) -> (r: &'static str)
        ensures
            r@ == self.program_spec(),
    {
        match self {
            LaunchCommand::Primary => "python3",
            LaunchCommand::Fallback => "python",
        }
    }
}

/// The arguments handed to the interpreter: run the service as a module.
pub fn launch_args() -> (r: Vec<String>)
    ensures
        r@.len() == 2,
        r@[0]@ == "-m"@,
        r@[1]@ == "ghoststream"@,
{
    let mut v: Vec<String> = Vec::new();
    v.push(String::from_str("-m"));
    v.push(String::from_str("ghoststream"));
    v
}

/// Why a start attempt did not leave a child running.
#[derive(Debug, PartialEq, Eq)]
pub enum StartError {
    /// A child started by this supervisor is still tracked.
    AlreadyManaged,
    /// Something already answers on the service port.
    PortOccupied,
    /// Both launch commands failed; the cause of the last failure.
    SpawnFailed(String),
}

impl StartError {
    pub open spec fn message_spec(self) -> Seq<char> {
        match self {
            StartError::AlreadyManaged => "GhostStream is already running"@,
            StartError::PortOccupied => "GhostStream is already running on port 8765"@,
            StartError::SpawnFailed(cause) => "Failed to start GhostStream: "@ + cause@,
        }
    }

    /// The text shown to the host for this error.
    pub fn message(&self) -> (r: String)
        ensures
            r@ == self.message_spec(),
    {
        match self {
            StartError::AlreadyManaged => String::from_str("GhostStream is already running"),
            StartError::PortOccupied => String::from_str(
                "GhostStream is already running on port 8765",
            ),
            StartError::SpawnFailed(cause) => {
                let mut s = String::from_str("Failed to start GhostStream: ");
                s.append(cause.as_str());
                s
            },
        }
    }
}

/// Where a start attempt stands.
#[derive(Clone, Copy, Debug, PartialEq, Eq, Structural)]
pub enum StartPhase {
    /// No attempt is under way.
    Idle,
    /// Waiting for the outcome of the port probe.
    AwaitingPortProbe,
    /// Waiting for the outcome of launching with this command.
    AwaitingSpawn(LaunchCommand),
}

/// What the host is to do next in a start attempt.
#[derive(Debug, PartialEq, Eq)]
pub enum StartStep {
    /// Probe the health endpoint with the short port-check timeout.
    ProbePort,
    /// Launch the child with this command.
    Spawn(LaunchCommand),
    /// The attempt is over, with this result.
    Finished(Result<(), StartError>),
}

/// The abstract state of a supervisor: the tracked child and the attempt phase.
pub struct SupervisorModel<H> {
    pub handle: Option<H>,
    pub phase: StartPhase,
}

impl<H> SupervisorModel<H> {
    pub open spec fn running(self) -> bool {
        self.handle is Some
    }
}

/// A fresh attempt: refused while a child is tracked, else the port is probed.
pub open spec fn begin_spec<H>(m: SupervisorModel<H>) -> (SupervisorModel<H>, StartStep) {
    if m.running() {
        (
            SupervisorModel { handle: m.handle, phase: StartPhase::Idle },
            StartStep::Finished(Err(StartError::AlreadyManaged)),
        )
    } else {
        (
            SupervisorModel { handle: m.handle, phase: StartPhase::AwaitingPortProbe },
            StartStep::ProbePort,
        )
    }
}

/// An answer on the port ends the attempt; silence leads to the primary launch.
pub open spec fn port_probed_spec<H>(m: SupervisorModel<H>, answered: bool) -> (
    SupervisorModel<H>,
    StartStep,
) {
    if answered {
        (
            SupervisorModel { handle: m.handle, phase: StartPhase::Idle },
            StartStep::Finished(Err(StartError::PortOccupied)),
        )
    } else {
        (
            SupervisorModel {
                handle: m.handle,
                phase: StartPhase::AwaitingSpawn(LaunchCommand::Primary),
            },
            StartStep::Spawn(LaunchCommand::Primary),
        )
    }
}

/// A launched child is tracked; a failed primary launch falls back once.
pub open spec fn spawned_spec<H>(
    m: SupervisorModel<H>,
    cmd: LaunchCommand,
    outcome: Result<H, String>,
) -> (SupervisorModel<H>, StartStep) {
    match outcome {
        Ok(h) => (
            SupervisorModel { handle: Some(h), phase: StartPhase::Idle },
            StartStep::Finished(Ok(())),
        ),
        Err(cause) => match cmd {
            LaunchCommand::Primary => (
                SupervisorModel {
                    handle: m.handle,
                    phase: StartPhase::AwaitingSpawn(LaunchCommand::Fallback),
                },
                StartStep::Spawn(LaunchCommand::Fallback),
            ),
            LaunchCommand::Fallback => (
                SupervisorModel { handle: m.handle, phase: StartPhase::Idle },
                StartStep::Finished(Err(StartError::SpawnFailed(cause))),
            ),
        },
    }
}

/// Stopping forgets the tracked child, whatever it was.
pub open spec fn stop_spec<H>(m: SupervisorModel<H>) -> SupervisorModel<H> {
    SupervisorModel { handle: None, phase: m.phase }
}

/// What the host observes during one start attempt: whether the port answered,
/// and what each launch command would give if it were tried.
pub struct AttemptOutcomes<H> {
    pub port_answered: bool,
    pub primary: Result<H, String>,
    pub fallback: Result<H, String>,
}

/// One whole start attempt, run step by step as the host drives it.
pub open spec fn attempt_spec<H>(m: SupervisorModel<H>, a: AttemptOutcomes<H>) -> (
    SupervisorModel<H>,
    Result<(), StartError>,
) {
    let (m1, s1) = begin_spec(m);
    match s1 {
        StartStep::Finished(r) => (m1, r),
        _ => {
            let (m2, s2) = port_probed_spec(m1, a.port_answered);
            match s2 {
                StartStep::Finished(r) => (m2, r),
                _ => {
                    let (m3, s3) = spawned_spec(m2, LaunchCommand::Primary, a.primary);
                    match s3 {
                        StartStep::Finished(r) => (m3, r),
                        _ => {
                            let (m4, s4) = spawned_spec(m3, LaunchCommand::Fallback, a.fallback);
                            match s4 {
                                StartStep::Finished(r) => (m4, r),
                                _ => (m4, Err(StartError::AlreadyManaged)),
                            }
                        },
                    }
                },
            }
        },
    }
}

/// Start attempts run one after another, each holding the lock throughout;
/// the final state and the result of each attempt.
pub open spec fn attempts_spec<H>(m: SupervisorModel<H>, s: Seq<AttemptOutcomes<H>>) -> (
    SupervisorModel<H>,
    Seq<Result<(), StartError>>,
)
    decreases s.len(),
{
    if s.len() == 0 {
        (m, Seq::empty())
    } else {
        let (m1, r) = attempt_spec(m, s[0]);
        let (m2, rs) = attempts_spec(m1, s.drop_first());
        (m2, seq![r] + rs)
    }
}

/// How many of the results are successes, that is children started.
pub open spec fn count_started(rs: Seq<Result<(), StartError>>) -> nat
    decreases rs.len(),
{
    if rs.len() == 0 {
        0
    } else {
        (if rs[0] is Ok { 1nat } else { 0nat }) + count_started(rs.drop_first())
    }
}

proof fn lemma_attempt_from_idle<H>(m: SupervisorModel<H>, a: AttemptOutcomes<H>)
    requires
        !m.running(),
    ensures
        attempt_spec(m, a).1 is Ok <==> attempt_spec(m, a).0.running(),
{
}

proof fn lemma_tracked_refuses_all<H>(m: SupervisorModel<H>, s: Seq<AttemptOutcomes<H>>)
    requires
        m.running(),
    ensures
        attempts_spec(m, s).1.len() == s.len(),
        attempts_spec(m, s).0.handle == m.handle,
        count_started(attempts_spec(m, s).1) == 0,
        forall|i: int|
            0 <= i < s.len() ==> #[trigger] attempts_spec(m, s).1[i] == Err::<(), StartError>(
                StartError::AlreadyManaged,
            ),
    decreases s.len(),
{
    if s.len() > 0 {
        let (m1, r) = attempt_spec(m, s[0]);
        lemma_tracked_refuses_all(m1, s.drop_first());
        let rs = attempts_spec(m1, s.drop_first()).1;
        assert((seq![r] + rs).drop_first() =~= rs);
        assert forall|i: int| 0 <= i < s.len() implies #[trigger] attempts_spec(m, s).1[i]
            == Err::<(), StartError>(StartError::AlreadyManaged) by {
            if i > 0 {
                assert((seq![r] + rs)[i] == rs[i - 1]);
            }
        }
    }
}

/// However many start attempts are made in a row, whatever the host observes
/// in each, at most one of them starts a child (none if one was already
/// tracked), and every attempt after a successful one is refused as already
/// managed.
pub proof fn lemma_at_most_one_start<H>(m: SupervisorModel<H>, s: Seq<AttemptOutcomes<H>>)
    ensures
        attempts_spec(m, s).1.len() == s.len(),
        count_started(attempts_spec(m, s).1) <= if m.running() { 0nat } else { 1nat },
        forall|i: int, j: int|
            0 <= i < j < s.len() && (#[trigger] attempts_spec(m, s).1[i]) is Ok ==> (
            #[trigger] attempts_spec(m, s).1[j]) == Err::<(), StartError>(
                StartError::AlreadyManaged,
            ),
    decreases s.len(),
{
    if m.running() {
        lemma_tracked_refuses_all(m, s);
    } else if s.len() > 0 {
        let (m1, r) = attempt_spec(m, s[0]);
        let rest = s.drop_first();
        let rs = attempts_spec(m1, rest).1;
        let all = attempts_spec(m, s).1;
        assert(all == seq![r] + rs);
        assert(all.drop_first() =~= rs);
        lemma_attempt_from_idle(m, s[0]);
        if r is Ok {
            lemma_tracked_refuses_all(m1, rest);
        } else {
            assert(m1.handle == m.handle);
            lemma_at_most_one_start(m1, rest);
        }
        assert forall|i: int, j: int|
            0 <= i < j < s.len() && (#[trigger] all[i]) is Ok implies (#[trigger] all[j])
            == Err::<(), StartError>(StartError::AlreadyManaged) by {
            assert(all[j] == rs[j - 1]);
            if i > 0 {
                assert(all[i] == rs[i - 1]);
            }
        }
    }
}

/// Stopping when no child is tracked changes nothing and hands back nothing;
/// a second stop right after a first ends in the same state and hands back
/// nothing, so that no child is tracked after either.
pub proof fn lemma_stop_idempotent<H>(m: SupervisorModel<H>)
    ensures
        !m.running() ==> stop_spec(m) == m && m.handle is None,
        stop_spec(m).handle is None,
        stop_spec(stop_spec(m)) == stop_spec(m),
{
}

/// A successful start followed at once by a stop leaves no child tracked,
/// and hands the started child to the host for shutdown.
pub proof fn lemma_start_then_stop<H>(m: SupervisorModel<H>, a: AttemptOutcomes<H>)
    requires
        attempt_spec(m, a).1 is Ok,
    ensures
        attempt_spec(m, a).0.running(),
        !stop_spec(attempt_spec(m, a).0).running(),
{
}

/// The endpoint probed for a `StartStep::ProbePort` step: the health endpoint.
pub fn port_check_endpoint() -> (r: Endpoint)
    ensures
        r == Endpoint::Health,
{
    Endpoint::Health
}

/// The kind of probe made for a `StartStep::ProbePort` step, which fixes its
/// short timeout.
pub fn port_check_purpose() -> (r: ProbePurpose)
    ensures
        r == ProbePurpose::PortCheck,
        r.timeout_spec() == 500,
{
    ProbePurpose::PortCheck
}

/// Owner of the one child handle. The host keeps it behind a lock, so that the
/// steps of one start attempt, a stop or a status query never interleave.
pub struct Supervisor<H> {
    handle: Option<H>,
    phase: StartPhase,
}

impl<H> View for Supervisor<H> {
    type V = SupervisorModel<H>;

    closed spec fn view(&self) -> SupervisorModel<H> {
        SupervisorModel { handle: self.handle, phase: self.phase }
    }
}

impl<H> Supervisor<H> {
    /// A supervisor that tracks no child.
    pub fn new() -> (r: Self)
        ensures
            r@.handle is None,
            r@.phase == StartPhase::Idle,
    {
        Supervisor { handle: None, phase: StartPhase::Idle }
    }

    /// Whether a child started here is tracked. This is bookkeeping only: a
    /// child that exited on its own still counts until it is stopped.
    pub fn is_running(&self) -> (r: bool)
        ensures
            r == self@.running(),
    {
        self.handle.is_some()
    }

    /// The phase of the start attempt under way.
    pub fn pending(&self) -> (r: StartPhase)
        ensures
            r == self@.phase,
    {
        self.phase
    }

    /// Opens a start attempt, abandoning any unfinished one.
    pub fn begin_start(&mut self) -> (r: StartStep)
        ensures
            (final(self)@, r) == begin_spec(old(self)@),
    {
        if self.handle.is_some() {
            self.phase = StartPhase::Idle;
            StartStep::Finished(Err(StartError::AlreadyManaged))
        } else {
            self.phase = StartPhase::AwaitingPortProbe;
            StartStep::ProbePort
        }
    }

    /// Takes the outcome of the port probe: whether anything answered.
    pub fn port_probed(&mut self, answered: bool) -> (r: StartStep)
        requires
            old(self)@.phase == StartPhase::AwaitingPortProbe,
        ensures
            (final(self)@, r) == port_probed_spec(old(self)@, answered),
    {
        if answered {
            self.phase = StartPhase::Idle;
            StartStep::Finished(Err(StartError::PortOccupied))
        } else {
            self.phase = StartPhase::AwaitingSpawn(LaunchCommand::Primary);
            StartStep::Spawn(LaunchCommand::Primary)
        }
    }

    /// Takes the outcome of launching with `cmd`: the child, or the cause of
    /// the failure.
    pub fn spawned(&mut self, cmd: LaunchCommand, outcome: Result<H, String>) -> (r: StartStep)
        requires
            old(self)@.phase == StartPhase::AwaitingSpawn(cmd),
        ensures
            (final(self)@, r) == spawned_spec(old(self)@, cmd, outcome),
    {
        match outcome {
            Ok(h) => {
                self.handle = Some(h);
                self.phase = StartPhase::Idle;
                StartStep::Finished(Ok(()))
            },
            Err(cause) => match cmd {
                LaunchCommand::Primary => {
                    self.phase = StartPhase::AwaitingSpawn(LaunchCommand::Fallback);
                    StartStep::Spawn(LaunchCommand::Fallback)
                },
                LaunchCommand::Fallback => {
                    self.phase = StartPhase::Idle;
                    StartStep::Finished(Err(StartError::SpawnFailed(cause)))
                },
            },
        }
    }

    /// Releases the tracked child, if any, for the host to shut down; the
    /// supervisor tracks none afterwards. Never fails.
    pub fn stop(&mut self) -> (r: Option<H>)
        ensures
            r == old(self)@.handle,
            final(self)@ == stop_spec(old(self)@),
    {
        self.handle.take()
    }
}

/// One step of shutting down a released child.
#[derive(Clone, Copy, Debug, PartialEq, Eq, Structural)]
pub enum ShutdownAction {
    /// Ask the child to terminate (a termination signal where there is one).
    SignalTerminate,
    /// Sleep for this many milliseconds.
    Wait(u64),
    /// Kill the child outright; an error here is ignored.
    ForceKill,
    /// Block until the child has exited; an error here is ignored.
    Reap,
}

pub open spec fn shutdown_plan_spec(graceful_available: bool) -> Seq<ShutdownAction> {
    if graceful_available {
        seq![
            ShutdownAction::SignalTerminate,
            ShutdownAction::Wait(GRACE_PERIOD_MS),
            ShutdownAction::ForceKill,
            ShutdownAction::Reap,
        ]
    } else {
        seq![ShutdownAction::ForceKill, ShutdownAction::Reap]
    }
}

/// The steps that shut down a child handed back by `stop`: a graceful request
/// and the grace period where the platform has one, then always a forced kill
/// and a reap, so that no child outlives the stop.
pub fn shutdown_plan(graceful_available: bool) -> (r: Vec<ShutdownAction>)
    ensures
        r@ == shutdown_plan_spec(graceful_available),
{
    let mut v: Vec<ShutdownAction> = Vec::new();
    if graceful_available {
        v.push(ShutdownAction::SignalTerminate);
        v.push(ShutdownAction::Wait(GRACE_PERIOD_MS));
    }
    v.push(ShutdownAction::ForceKill);
    v.push(ShutdownAction::Reap);
    proof {
        assert(v@ =~= shutdown_plan_spec(graceful_available));
    }
    v
}

} // verus!
