//! One spawn attempt of the backend process, as a verified state machine.
//!
//! The sequence mirrors what a careful launcher does on removable or
//! no-exec media: check that the executable exists and is runnable, fall
//! back to a temporary copy with the permission bit set, retry a spawn
//! that failed with a permission error once through that copy, and treat
//! a process that exits right after the spawn as a startup failure rather
//! than letting it surface later as a confusing broken pipe.

use vstd::prelude::*;
use crate::errors::IpcError;

verus! {

/// What the driver is asked to do next during a spawn attempt.
#[derive(Debug)]
pub enum SpawnAction {
    /// Report whether the executable exists and carries an execute
    /// permission bit.
    StatExe,
    /// Copy the executable to a writable temporary location and set its
    /// permission bits.
    CopyToTmp,
    /// Spawn the process from this path, with the data directory as its
    /// argument and its streams piped.
    LaunchProcess { path: String },
    /// Wait the startup interval, then poll whether the process already
    /// exited.
    WaitAndPoll,
}

/// What the driver reports back during a spawn attempt.
#[derive(Debug)]
pub enum SpawnEvent {
    /// The executable's filesystem status.
    ExeStat { exists: bool, executable: bool },
    /// The temporary copy is ready at this path.
    CopyDone { tmp_path: String },
    /// The temporary copy could not be made.
    CopyFailed { detail: String },
    /// The process started.
    Launched,
    /// The spawn failed with a permission error.
    LaunchPermissionDenied { detail: String },
    /// The spawn failed for another reason.
    LaunchFailed { detail: String },
    /// The startup poll found the process already exited with this
    /// status.
    ExitedEarly { status: String },
    /// The startup poll found the process still running.
    StillRunning,
}

/// Where a spawn attempt stands.
#[derive(Debug)]
pub enum SpawnPhase {
    /// Waiting for the executable's status.
    CheckingExe,
    /// Waiting for the temporary copy; `retry` says whether this copy
    /// follows a permission-denied spawn rather than a missing permission
    /// bit.
    Copying { retry: bool },
    /// Waiting for the process to be spawned from `path`; `retried` says
    /// whether this is already the one retry through the temporary copy.
    Launching { path: String, retried: bool },
    /// Waiting for the startup poll.
    Verifying,
    /// The process is up.
    Ready,
    /// The attempt failed.
    Aborted { error: IpcError },
}

/// One spawn attempt for the stored executable path.
#[derive(Debug)]
pub struct SpawnRun {
    pub exe_path: String,
    pub phase: SpawnPhase,
}

/// The transition relation of a spawn attempt.
pub open spec fn spawn_step_spec(r: SpawnRun, ev: SpawnEvent) -> SpawnRun {
    match r.phase {
        SpawnPhase::CheckingExe => match ev {
            SpawnEvent::ExeStat { exists, executable } => {
                if !exists {
                    SpawnRun {
                        phase: SpawnPhase::Aborted {
                            error: IpcError::ExecutableNotFound { path: r.exe_path },
                        },
                        ..r
                    }
                } else if executable {
                    SpawnRun {
                        phase: SpawnPhase::Launching { path: r.exe_path, retried: false },
                        ..r
                    }
                } else {
                    SpawnRun { phase: SpawnPhase::Copying { retry: false }, ..r }
                }
            },
            _ => r,
        },
        SpawnPhase::Copying { retry } => match ev {
            SpawnEvent::CopyDone { tmp_path } => SpawnRun {
                phase: SpawnPhase::Launching { path: tmp_path, retried: retry },
                ..r
            },
            SpawnEvent::CopyFailed { detail } => SpawnRun {
                phase: SpawnPhase::Aborted { error: IpcError::SpawnFailure { detail } },
                ..r
            },
            _ => r,
        },
        SpawnPhase::Launching { path, retried } => match ev {
            SpawnEvent::Launched => SpawnRun { phase: SpawnPhase::Verifying, ..r },
            SpawnEvent::LaunchPermissionDenied { detail } => {
                if !retried {
                    SpawnRun { phase: SpawnPhase::Copying { retry: true }, ..r }
                } else {
                    SpawnRun {
                        phase: SpawnPhase::Aborted { error: IpcError::SpawnFailure { detail } },
                        ..r
                    }
                }
            },
            SpawnEvent::LaunchFailed { detail } => SpawnRun {
                phase: SpawnPhase::Aborted { error: IpcError::SpawnFailure { detail } },
                ..r
            },
            _ => r,
        },
        SpawnPhase::Verifying => match ev {
            SpawnEvent::ExitedEarly { status } => SpawnRun {
                phase: SpawnPhase::Aborted { error: IpcError::StartupFailure { status } },
                ..r
            },
            SpawnEvent::StillRunning => SpawnRun { phase: SpawnPhase::Ready, ..r },
            _ => r,
        },
        _ => r,
    }
}

/// The action each phase asks of the driver; terminal phases ask nothing.
pub open spec fn spawn_action_spec(r: SpawnRun) -> Option<SpawnAction> {
    match r.phase {
        SpawnPhase::CheckingExe => Some(SpawnAction::StatExe),
        SpawnPhase::Copying { .. } => Some(SpawnAction::CopyToTmp),
        SpawnPhase::Launching { path, .. } => Some(SpawnAction::LaunchProcess { path }),
        SpawnPhase::Verifying => Some(SpawnAction::WaitAndPoll),
        _ => None,
    }
}

impl SpawnRun {
    /// Start a spawn attempt for this executable path.
    pub fn begin(exe_path: String) -> (r: SpawnRun)
        ensures
            r.exe_path@ == exe_path@,
            r.phase is CheckingExe,
    {
        SpawnRun { exe_path, phase: SpawnPhase::CheckingExe }
    }

    /// The next action the driver must perform, or nothing when the
    /// attempt has finished.
    pub fn next_action(&self) -> (r: Option<SpawnAction>)
        ensures
            r == spawn_action_spec(*self),
    {
        match &self.phase {
            SpawnPhase::CheckingExe => Some(SpawnAction::StatExe),
            SpawnPhase::Copying { .. } => Some(SpawnAction::CopyToTmp),
            SpawnPhase::Launching { path, .. } => Some(
                SpawnAction::LaunchProcess { path: path.clone() },
            ),
            SpawnPhase::Verifying => Some(SpawnAction::WaitAndPoll),
            _ => None,
        }
    }

    /// Advance the attempt by one reported event.
    pub fn step(&mut self, ev: SpawnEvent)
        ensures
            *final(self) == spawn_step_spec(*old(self), ev),
    {
        match &self.phase {
            SpawnPhase::CheckingExe => match ev {
                SpawnEvent::ExeStat { exists, executable } => {
                    if !exists {
                        self.phase = SpawnPhase::Aborted {
                            error: IpcError::ExecutableNotFound { path: self.exe_path.clone() },
                        };
                    } else if executable {
                        self.phase = SpawnPhase::Launching {
                            path: self.exe_path.clone(),
                            retried: false,
                        };
                    } else {
                        self.phase = SpawnPhase::Copying { retry: false };
                    }
                },
                _ => {},
            },
            SpawnPhase::Copying { retry } => {
                let retry = *retry;
                match ev {
                    SpawnEvent::CopyDone { tmp_path } => {
                        self.phase = SpawnPhase::Launching { path: tmp_path, retried: retry };
                    },
                    SpawnEvent::CopyFailed { detail } => {
                        self.phase = SpawnPhase::Aborted {
                            error: IpcError::SpawnFailure { detail },
                        };
                    },
                    _ => {},
                }
            },
            SpawnPhase::Launching { retried, .. } => {
                let retried = *retried;
                match ev {
                    SpawnEvent::Launched => {
                        self.phase = SpawnPhase::Verifying;
                    },
                    SpawnEvent::LaunchPermissionDenied { detail } => {
                        if !retried {
                            self.phase = SpawnPhase::Copying { retry: true };
                        } else {
                            self.phase = SpawnPhase::Aborted {
                                error: IpcError::SpawnFailure { detail },
                            };
                        }
                    },
                    SpawnEvent::LaunchFailed { detail } => {
                        self.phase = SpawnPhase::Aborted {
                            error: IpcError::SpawnFailure { detail },
                        };
                    },
                    _ => {},
                }
            },
            SpawnPhase::Verifying => match ev {
                SpawnEvent::ExitedEarly { status } => {
                    self.phase = SpawnPhase::Aborted {
                        error: IpcError::StartupFailure { status },
                    };
                },
                SpawnEvent::StillRunning => {
                    self.phase = SpawnPhase::Ready;
                },
                _ => {},
            },
            _ => {},
        }
    }
}

} // verus!
