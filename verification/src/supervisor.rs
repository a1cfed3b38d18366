//! The backend supervisor: the state it keeps — connection mode, server
//! URL, launch config, process ownership — and the verified state machine
//! that sends one command with bounded recovery.
//!
//! The machine decides; a driver performs the requested actions (send a
//! line, wait and respawn) and reports what happened.  Every transition is
//! a pure function of the current state and the reported event, so the
//! recovery discipline — no spawn without a launch config, a bounded
//! number of respawns with the configured delays between them — is proved
//! here once and holds for every driver.

use vstd::prelude::*;
use crate::errors::IpcError;

verus! {

/// How the backend is reached: a supervised subprocess, or a remote HTTP
/// server.
#[derive(Debug, Clone, Copy, PartialEq, Eq, Structural)]
pub enum BackendMode {
    Ipc,
    Server,
}

/// How to (re)spawn the backend process.
#[derive(Debug)]
pub struct LaunchConfig {
    pub exe_path: String,
    pub data_path: String,
}

impl Clone for LaunchConfig {
    fn clone(&self) -> (r: Self)
        ensures
            r == *self,
    {
        LaunchConfig { exe_path: self.exe_path.clone(), data_path: self.data_path.clone() }
    }
}

/// The supervisor's state: the active mode, the server URL used in server
/// mode, the launch config recovery respawns from, and whether a process
/// handle is currently owned.
#[derive(Debug)]
pub struct Supervisor {
    pub mode: BackendMode,
    pub server_url: String,
    pub launch: Option<LaunchConfig>,
    pub owns_process: bool,
}

/// The state `destroy` leaves behind: no owned process and no launch
/// config, with everything else untouched.
pub open spec fn destroy_transition(s: Supervisor) -> Supervisor {
    Supervisor { launch: None, owns_process: false, ..s }
}

impl Supervisor {
    /// A fresh supervisor: subprocess mode, the default server URL, no
    /// launch config and no process.
    pub fn new() -> (r: Supervisor)
        ensures
            r.mode == BackendMode::Ipc,
            r.server_url@ == "http://localhost:8080"@,
            r.launch is None,
            !r.owns_process,
    {
        Supervisor {
            mode: BackendMode::Ipc,
            server_url: String::from_str("http://localhost:8080"),
            launch: None,
            owns_process: false,
        }
    }

    /// The active connection mode.
    pub fn get_mode(&self) -> (r: BackendMode)
        ensures
            r == self.mode,
    {
        self.mode
    }

    /// Whether a subprocess handle is currently owned.
    pub fn is_ipc_initialized(&self) -> (r: bool)
        ensures
            r == self.owns_process,
    {
        self.owns_process
    }

    /// Switch to server mode: the stored URL is replaced, the launch
    /// config is cleared and the process slot is emptied.  The result says
    /// whether a process was owned, so the driver terminates it.
    pub fn init_server(&mut self, url: &str) -> (had_process: bool)
        ensures
            final(self).mode == BackendMode::Server,
            final(self).server_url@ == url@,
            final(self).launch is None,
            !final(self).owns_process,
            had_process == old(self).owns_process,
    {
        let had = self.owns_process;
        self.mode = BackendMode::Server;
        self.server_url = String::from_str(url);
        self.launch = None;
        self.owns_process = false;
        had
    }

    /// Shut the supervisor down: the process slot and the launch config
    /// are cleared, whatever state it was in.  The result says whether a
    /// process was owned, so the driver terminates it.
    pub fn destroy(&mut self) -> (had_process: bool)
        ensures
            *final(self) == destroy_transition(*old(self)),
            had_process == old(self).owns_process,
    {
        let had = self.owns_process;
        self.launch = None;
        self.owns_process = false;
        had
    }

    /// Record a successful subprocess initialization: the launch config is
    /// stored for later recovery, the mode becomes `Ipc` and the new
    /// process fills the slot.  The result says whether an old process was
    /// owned, so the driver terminates it before the replacement counts.
    pub fn complete_init_ipc(&mut self, exe_path: String, data_path: String) -> (had_process:
        bool)
        ensures
            final(self).mode == BackendMode::Ipc,
            (final(self).launch matches Some(c) && c.exe_path@ == exe_path@ && c.data_path@
                == data_path@),
            final(self).owns_process,
            final(self).server_url == old(self).server_url,
            had_process == old(self).owns_process,
    {
        let had = self.owns_process;
        self.mode = BackendMode::Ipc;
        self.launch = Some(LaunchConfig { exe_path, data_path });
        self.owns_process = true;
        had
    }

    /// Record a successful recovery respawn: the slot is filled again;
    /// mode, URL and launch config stay as they were.  The result says
    /// whether an old (dead) handle was owned, so the driver disposes of
    /// it.
    pub fn record_recovered_process(&mut self) -> (had_process: bool)
        ensures
            final(self).owns_process,
            final(self).mode == old(self).mode,
            final(self).server_url == old(self).server_url,
            final(self).launch == old(self).launch,
            had_process == old(self).owns_process,
    {
        let had = self.owns_process;
        self.owns_process = true;
        had
    }
}

/// Calling `destroy` again after a `destroy` changes nothing, and a
/// destroyed supervisor owns no process: shutdown is idempotent from every
/// state.
pub proof fn lemma_destroy_idempotent(s: Supervisor)
    ensures
        destroy_transition(destroy_transition(s)) == destroy_transition(s),
        !destroy_transition(s).owns_process,
        destroy_transition(s).launch is None,
{
}

/// The precondition of subprocess initialization: the data directory must
/// exist.
pub fn init_precheck(data_exists: bool, data_path: &str) -> (r: Result<(), IpcError>)
    ensures
        data_exists <==> r is Ok,
        !data_exists ==> (r matches Err(e) && e matches IpcError::DataNotFound { path } && path@
            == data_path@),
{
    if data_exists {
        Ok(())
    } else {
        Err(IpcError::DataNotFound { path: String::from_str(data_path) })
    }
}

/// What the driver observed while writing one command and reading one
/// reply line.
#[derive(Debug)]
pub enum SendObservation {
    /// The process was found exited before anything was written.
    ExitedBeforeSend { status: String },
    /// Writing or flushing the command line failed.
    WriteFailed { detail: String },
    /// Reading the reply line failed.
    ReadFailed { detail: String },
    /// The stream was closed and the process is known exited.
    ClosedAfterExit { status: String },
    /// The stream was closed with no exit status to show.
    ClosedNoExit,
    /// One reply line was read.
    GotLine { line: String },
}

/// Classify what one send attempt observed: nothing is written into a
/// process already found dead, and a closed stream counts as the same
/// broken-connection class whether or not an exit status was seen yet.
pub fn send_outcome(o: SendObservation) -> (r: Result<String, String>)
    ensures
        match o {
            SendObservation::GotLine { line } => r matches Ok(l) && l == line,
            SendObservation::ExitedBeforeSend { status } => (r matches Err(m) && m@
                == "motis-ipc exited before command send: "@ + status@),
            SendObservation::WriteFailed { detail } => r matches Err(m) && m@ == detail@,
            SendObservation::ReadFailed { detail } => r matches Err(m) && m@ == detail@,
            SendObservation::ClosedAfterExit { status } => (r matches Err(m) && m@
                == "motis-ipc exited before response: "@ + status@),
            SendObservation::ClosedNoExit => (r matches Err(m) && m@
                == "motis-ipc returned empty response"@),
        },
{
    match o {
        SendObservation::GotLine { line } => Ok(line),
        SendObservation::ExitedBeforeSend { status } => {
            let mut m = String::new();
            m.append("motis-ipc exited before command send: ");
            m.append(status.as_str());
            Err(m)
        },
        SendObservation::WriteFailed { detail } => Err(detail),
        SendObservation::ReadFailed { detail } => Err(detail),
        SendObservation::ClosedAfterExit { status } => {
            let mut m = String::new();
            m.append("motis-ipc exited before response: ");
            m.append(status.as_str());
            Err(m)
        },
        SendObservation::ClosedNoExit => Err(
            String::from_str("motis-ipc returned empty response"),
        ),
    }
}

/// What auto-initialization should do.
#[derive(Debug)]
pub enum AutoInitStep {
    /// A backend is already connected; nothing to do.
    AlreadyRunning,
    /// Initialize a subprocess from these paths.
    Attempt { exe_path: String, data_path: String },
    /// The paths to try are not known; give up quietly.
    MissingPaths,
}

/// Decide what a best-effort auto-initialization does: nothing when a
/// backend already exists, an attempt when both paths are known, and a
/// quiet give-up otherwise.
pub fn try_auto_init_plan(already_initialized: bool, exe_path: Option<String>, data_path: Option<
    String,
>) -> (r: AutoInitStep)
    ensures
        already_initialized ==> r is AlreadyRunning,
        !already_initialized ==> (match (exe_path, data_path) {
            (Some(e), Some(d)) => (r matches AutoInitStep::Attempt { exe_path: re, data_path: rd }
                && re@ == e@ && rd@ == d@),
            _ => r is MissingPaths,
        }),
{
    if already_initialized {
        return AutoInitStep::AlreadyRunning;
    }
    match (exe_path, data_path) {
        (Some(e), Some(d)) => AutoInitStep::Attempt { exe_path: e, data_path: d },
        _ => AutoInitStep::MissingPaths,
    }
}

/// The message reported when explicit initialization succeeds.
pub open spec fn init_success_text() -> Seq<char> {
    "IPC mode initialized"@
}

/// The success report of an explicit initialization.
pub fn init_success_message() -> (r: String)
    ensures
        r@ == init_success_text(),
{
    String::from_str("IPC mode initialized")
}

/// The message reported when the executable is missing at explicit
/// initialization.
pub open spec fn missing_exe_text(exe: Seq<char>) -> Seq<char> {
    "motis-ipc executable not found: "@ + exe
        + "\n\nPlease ensure:\n1. motis-ipc is in the same folder as motis-gui\n2. You're running from the correct directory"@
}

/// The message reported when the data directory is missing at explicit
/// initialization.
pub open spec fn missing_data_text(data: Seq<char>) -> Seq<char> {
    "Data directory not found: "@ + data
        + "\n\nPlease ensure:\n1. The 'data' folder exists next to motis-gui\n2. You've imported GTFS/OSM data using ./motis-transit import"@
}

/// The message reported when the subprocess could not be started, wrapping
/// the underlying failure with troubleshooting steps.
pub open spec fn init_failed_text(detail: Seq<char>, exe: Seq<char>) -> Seq<char> {
    "Failed to start IPC backend: "@ + detail
        + "\n\nTroubleshooting:\n1. Check that motis-ipc has executable permissions:\n   chmod +x "@
        + exe + "\n2. If on NTFS/USB, ensure it's mounted with exec permissions\n3. Try running: "@
        + exe + " --version\n4. Check that data directory contains valid MOTIS data"@
}

/// Decide what explicit initialization does, given the paths the caller
/// supplied and whether each exists: a subprocess attempt only, never a
/// fallback to another mode, with an explanatory failure otherwise.
pub fn auto_init_plan(exe_path: Option<String>, data_path: Option<String>, exe_exists: bool,
    data_exists: bool) -> (r: Result<(String, String), String>)
    ensures
        (match (exe_path, data_path) {
            (None, _) => r matches Err(m) && m@ == "No executable path provided"@,
            (Some(e), None) => r matches Err(m) && m@ == "No data path provided"@,
            (Some(e), Some(d)) => {
                if !exe_exists {
                    r matches Err(m) && m@ == missing_exe_text(e@)
                } else if !data_exists {
                    r matches Err(m) && m@ == missing_data_text(d@)
                } else {
                    r matches Ok(p) && p.0@ == e@ && p.1@ == d@
                }
            },
        }),
{
    let exe = match exe_path {
        Some(e) => e,
        None => {
            return Err(String::from_str("No executable path provided"));
        },
    };
    let data = match data_path {
        Some(d) => d,
        None => {
            return Err(String::from_str("No data path provided"));
        },
    };
    if !exe_exists {
        let mut m = String::new();
        m.append("motis-ipc executable not found: ");
        m.append(exe.as_str());
        m.append(
            "\n\nPlease ensure:\n1. motis-ipc is in the same folder as motis-gui\n2. You're running from the correct directory",
        );
        return Err(m);
    }
    if !data_exists {
        let mut m = String::new();
        m.append("Data directory not found: ");
        m.append(data.as_str());
        m.append(
            "\n\nPlease ensure:\n1. The 'data' folder exists next to motis-gui\n2. You've imported GTFS/OSM data using ./motis-transit import",
        );
        return Err(m);
    }
    Ok((exe, data))
}

/// Wrap an initialization failure in the troubleshooting message the
/// explicit initialization path reports.
pub fn init_failed_message(detail: &str, exe: &str) -> (r: String)
    ensures
        r@ == init_failed_text(detail@, exe@),
{
    let mut m = String::new();
    m.append("Failed to start IPC backend: ");
    m.append(detail);
    m.append(
        "\n\nTroubleshooting:\n1. Check that motis-ipc has executable permissions:\n   chmod +x ",
    );
    m.append(exe);
    m.append("\n2. If on NTFS/USB, ensure it's mounted with exec permissions\n3. Try running: ");
    m.append(exe);
    m.append(" --version\n4. Check that data directory contains valid MOTIS data");
    m
}

/// The recovery policy: how many respawns a recovery may attempt, and the
/// delay inserted before each retry.
#[derive(Debug)]
pub struct RecoveryPolicy {
    pub max_attempts: u64,
    pub delays_ms: Vec<u64>,
}

impl RecoveryPolicy {
    /// A usable policy: at least one attempt, a sane bound, and a delay
    /// for every gap between consecutive attempts.
    pub open spec fn wf(&self) -> bool {
        &&& 1 <= self.max_attempts <= 0xffff
        &&& self.delays_ms@.len() + 1 >= self.max_attempts
    }
}

/// The stock policy: two respawn attempts, with delays of 250 ms and then
/// 1000 ms available between attempts.
pub fn default_policy() -> (r: RecoveryPolicy)
    ensures
        r.max_attempts == 2,
        r.delays_ms@ == seq![250u64, 1000u64],
        r.wf(),
{
    let mut delays: Vec<u64> = Vec::new();
    delays.push(250);
    delays.push(1000);
    assert(delays@ =~= seq![250u64, 1000u64]);
    RecoveryPolicy { max_attempts: 2, delays_ms: delays }
}

/// What the driver is asked to do next while sending a command.
#[derive(Debug, Clone, Copy, PartialEq, Eq, Structural)]
pub enum IpcAction {
    /// Write the command line to the owned process and read one reply
    /// line.
    TrySend,
    /// Wait the given number of milliseconds, then run one full spawn
    /// attempt from the stored launch config.
    SpawnAfter { delay_ms: u64 },
}

/// What the driver reports back.
#[derive(Debug)]
pub enum IpcEvent {
    /// One reply line was read.
    SendOk { line: String },
    /// No process handle is owned.
    SendNoBackend,
    /// The write or the read failed, or the process was found dead.
    SendFailed { detail: String },
    /// The respawn produced a live process.
    SpawnOk,
    /// The respawn failed.
    SpawnFailed,
}

/// Where a command run stands.
#[derive(Debug)]
pub enum CmdPhase {
    /// Waiting for send attempt `attempt` to be carried out.
    Sending { attempt: u64 },
    /// Recovering after a failed send: waiting for respawn `spawn_attempt`
    /// of the recovery that followed send attempt `attempt`.
    Spawning { attempt: u64, spawn_attempt: u64, last_err: String },
    /// The command was answered with this line.
    Delivered { line: String },
    /// The command failed for good.
    Failed { error: IpcError },
}

/// One command send with recovery, as a state machine: the driver performs
/// the action [`CommandRun::next_action`] requests and feeds the outcome
/// back through [`CommandRun::step`].
#[derive(Debug)]
pub struct CommandRun {
    pub max_attempts: u64,
    pub delays_ms: Vec<u64>,
    pub has_config: bool,
    pub phase: CmdPhase,
}

/// Well-formedness of a command run: policy bounds, and attempt counters
/// within range.
pub open spec fn run_wf(r: CommandRun) -> bool {
    &&& 1 <= r.max_attempts <= 0xffff
    &&& r.delays_ms@.len() + 1 >= r.max_attempts
    &&& match r.phase {
        CmdPhase::Sending { attempt } => 1 <= attempt <= r.max_attempts + 1,
        CmdPhase::Spawning { attempt, spawn_attempt, .. } => 1 <= attempt <= r.max_attempts && 1
            <= spawn_attempt <= r.max_attempts,
        _ => true,
    }
}

/// The transition relation of a command run.
pub open spec fn step_spec(r: CommandRun, ev: IpcEvent) -> CommandRun {
    match r.phase {
        CmdPhase::Sending { attempt } => match ev {
            IpcEvent::SendOk { line } => CommandRun {
                phase: CmdPhase::Delivered { line },
                ..r
            },
            IpcEvent::SendNoBackend => CommandRun {
                phase: CmdPhase::Failed { error: IpcError::NotInitialized },
                ..r
            },
            IpcEvent::SendFailed { detail } => {
                if attempt >= r.max_attempts + 1 {
                    CommandRun {
                        phase: CmdPhase::Failed {
                            error: IpcError::CommandFailed {
                                attempts: (r.max_attempts + 1) as u64,
                                detail,
                            },
                        },
                        ..r
                    }
                } else if !r.has_config {
                    CommandRun {
                        phase: CmdPhase::Failed { error: IpcError::NotRecoverable { detail } },
                        ..r
                    }
                } else {
                    CommandRun {
                        phase: CmdPhase::Spawning { attempt, spawn_attempt: 1, last_err: detail },
                        ..r
                    }
                }
            },
            _ => r,
        },
        CmdPhase::Spawning { attempt, spawn_attempt, last_err } => match ev {
            IpcEvent::SpawnOk => CommandRun {
                phase: CmdPhase::Sending { attempt: (attempt + 1) as u64 },
                ..r
            },
            IpcEvent::SpawnFailed => {
                if spawn_attempt >= r.max_attempts {
                    CommandRun {
                        phase: CmdPhase::Failed {
                            error: IpcError::CommandFailed {
                                attempts: (r.max_attempts + 1) as u64,
                                detail: last_err,
                            },
                        },
                        ..r
                    }
                } else {
                    CommandRun {
                        phase: CmdPhase::Spawning {
                            attempt,
                            spawn_attempt: (spawn_attempt + 1) as u64,
                            last_err,
                        },
                        ..r
                    }
                }
            },
            _ => r,
        },
        _ => r,
    }
}

/// The action each phase asks of the driver; terminal phases ask nothing.
/// The first respawn of a recovery starts at once; respawn `k` (for
/// `k >= 2`) waits the `k-1`-th configured delay first.
pub open spec fn action_spec(r: CommandRun) -> Option<IpcAction> {
    match r.phase {
        CmdPhase::Sending { .. } => Some(IpcAction::TrySend),
        CmdPhase::Spawning { spawn_attempt, .. } => Some(
            IpcAction::SpawnAfter {
                delay_ms: if spawn_attempt == 1 {
                    0
                } else {
                    r.delays_ms@[spawn_attempt - 2]
                },
            },
        ),
        _ => None,
    }
}

impl CommandRun {
    /// Start a command run against the supervisor's current state under
    /// the given policy.
    pub fn begin(sup: &Supervisor, policy: &RecoveryPolicy) -> (r: CommandRun)
        requires
            policy.wf(),
        ensures
            r.max_attempts == policy.max_attempts,
            r.delays_ms@ == policy.delays_ms@,
            r.has_config == (sup.launch is Some),
            r.phase == (CmdPhase::Sending { attempt: 1u64 }),
            run_wf(r),
    {
        let has_config = match &sup.launch {
            Some(_) => true,
            None => false,
        };
        CommandRun {
            max_attempts: policy.max_attempts,
            delays_ms: policy.delays_ms.clone(),
            has_config,
            phase: CmdPhase::Sending { attempt: 1 },
        }
    }

    /// The next action the driver must perform, or nothing when the run
    /// has finished.
    pub fn next_action(&self) -> (r: Option<IpcAction>)
        requires
            run_wf(*self),
        ensures
            r == action_spec(*self),
    {
        match &self.phase {
            CmdPhase::Sending { .. } => Some(IpcAction::TrySend),
            CmdPhase::Spawning { spawn_attempt, .. } => {
                let sa = *spawn_attempt;
                let delay = if sa == 1 {
                    0
                } else {
                    self.delays_ms[(sa - 2) as usize]
                };
                Some(IpcAction::SpawnAfter { delay_ms: delay })
            },
            _ => None,
        }
    }

    /// Advance the run by one reported event.
    pub fn step(&mut self, ev: IpcEvent)
        requires
            run_wf(*old(self)),
        ensures
            *final(self) == step_spec(*old(self), ev),
            run_wf(*final(self)),
    {
        let max = self.max_attempts;
        let has_config = self.has_config;
        match &self.phase {
            CmdPhase::Sending { attempt } => {
                let attempt = *attempt;
                match ev {
                    IpcEvent::SendOk { line } => {
                        self.phase = CmdPhase::Delivered { line };
                    },
                    IpcEvent::SendNoBackend => {
                        self.phase = CmdPhase::Failed { error: IpcError::NotInitialized };
                    },
                    IpcEvent::SendFailed { detail } => {
                        if attempt >= max + 1 {
                            self.phase = CmdPhase::Failed {
                                error: IpcError::CommandFailed { attempts: max + 1, detail },
                            };
                        } else if !has_config {
                            self.phase = CmdPhase::Failed {
                                error: IpcError::NotRecoverable { detail },
                            };
                        } else {
                            self.phase = CmdPhase::Spawning {
                                attempt,
                                spawn_attempt: 1,
                                last_err: detail,
                            };
                        }
                    },
                    _ => {},
                }
            },
            CmdPhase::Spawning { attempt, spawn_attempt, last_err } => {
                let attempt = *attempt;
                let spawn_attempt = *spawn_attempt;
                match ev {
                    IpcEvent::SpawnOk => {
                        self.phase = CmdPhase::Sending { attempt: attempt + 1 };
                    },
                    IpcEvent::SpawnFailed => {
                        let last = match &self.phase {
                            CmdPhase::Spawning { last_err, .. } => last_err.clone(),
                            _ => String::new(),
                        };
                        if spawn_attempt >= max {
                            self.phase = CmdPhase::Failed {
                                error: IpcError::CommandFailed {
                                    attempts: max + 1,
                                    detail: last,
                                },
                            };
                        } else {
                            self.phase = CmdPhase::Spawning {
                                attempt,
                                spawn_attempt: spawn_attempt + 1,
                                last_err: last,
                            };
                        }
                    },
                    _ => {},
                }
            },
            _ => {},
        }
    }
}

/// Iterated transitions over a sequence of events.
pub open spec fn steps_spec(r: CommandRun, evs: Seq<IpcEvent>) -> CommandRun
    decreases evs.len(),
{
    if evs.len() == 0 {
        r
    } else {
        steps_spec(step_spec(r, evs[0]), evs.drop_first())
    }
}

/// Recovery without a launch config never spawns: from a state with no
/// launch config on record and no recovery underway, no sequence of events
/// ever brings a command run into a spawning phase, so no spawn action is
/// ever requested.
pub proof fn lemma_recovery_requires_config(r: CommandRun, evs: Seq<IpcEvent>)
    requires
        !r.has_config,
        !(r.phase is Spawning),
    ensures
        !(steps_spec(r, evs).phase is Spawning),
        !(action_spec(steps_spec(r, evs)) matches Some(IpcAction::SpawnAfter { .. })),
    decreases evs.len(),
{
    if evs.len() > 0 {
        let r1 = step_spec(r, evs[0]);
        assert(!(r1.phase is Spawning));
        assert(r1.has_config == r.has_config);
        lemma_recovery_requires_config(r1, evs.drop_first());
    }
}

/// The recovery bound: under the stock policy, when a send fails with a
/// launch config present and every respawn fails too, the machine requests
/// exactly two spawns — the first at once, the second after the first
/// configured delay — then fails for good, reporting three total send
/// attempts and the send failure that triggered recovery; no action
/// follows the failure.
pub proof fn lemma_recovery_bound(r: CommandRun, detail: String)
    requires
        r.max_attempts == 2,
        r.delays_ms@ == seq![250u64, 1000u64],
        r.has_config,
        r.phase == (CmdPhase::Sending { attempt: 1u64 }),
    ensures
        action_spec(r) == Some(IpcAction::TrySend),
        ({
            let r1 = step_spec(r, IpcEvent::SendFailed { detail });
            &&& action_spec(r1) == Some(IpcAction::SpawnAfter { delay_ms: 0u64 })
            &&& ({
                let r2 = step_spec(r1, IpcEvent::SpawnFailed);
                &&& action_spec(r2) == Some(IpcAction::SpawnAfter { delay_ms: 250u64 })
                &&& ({
                    let r3 = step_spec(r2, IpcEvent::SpawnFailed);
                    &&& r3.phase == (CmdPhase::Failed {
                        error: IpcError::CommandFailed { attempts: 3u64, detail },
                    })
                    &&& action_spec(r3) is None
                })
            })
        }),
{
}

} // verus!
