//! The backend loader: the entry point that produces a usable backend once
//! the engine has finished initializing.
//!
//! Two loading control-flow shapes stand behind one polled contract.
//!
//! The blocking-capable variant, [`SyncAudioLoader`], is a state machine over
//! the fixed initialization sequence: configure engine diagnostics routing,
//! build the system description with the output format of the authored
//! content, verify that the bank search directory exists (failing fast with
//! the offending path if not), construct the engine instance, then load each
//! configured bank file in order. The shell performs each requested engine
//! call and feeds the reply back; on a runtime that supports blocking calls it
//! simply runs the whole exchange inside the first poll. Every failure is a
//! terminal `Failed` outcome that preserves the originating error; nothing is
//! retried or silently ignored.
//!
//! The non-blocking variant, [`PollingAudioLoader`], stands in front of a
//! hosted runtime that initializes the engine behind a foreign readiness
//! signal. Each poll checks the signal once and never blocks. A failed
//! readiness check is indistinguishable from still-loading in that runtime,
//! so both report `NotReady`; the loader resolves the first time the signal
//! reports the backend loaded.
//!
//! Either way a loader reaches at most one terminal outcome, and turning it
//! into a backend consumes it, so it can never be polled for a second result.

use vstd::prelude::*;

use crate::backend::AudioBackend;
use crate::errors::AudioError;

verus! {

/// What to load: the bank search path and the ordered bank file names.
#[derive(Debug)]
pub struct LoaderConfig {
    pub banks_path: String,
    pub bank_filenames: Vec<String>,
}

/// Where the initialization sequence stands.
#[derive(Debug, PartialEq, Eq)]
pub enum LoadPhase {
    /// Engine-level debug/diagnostics routing is being configured.
    ConfiguringDiagnostics,
    /// The system description (output format included) is being built.
    PreparingSystem,
    /// The bank search directory is being checked for existence.
    CheckingDirectory,
    /// The engine instance is being constructed.
    BuildingSystem,
    /// Banks `0..next` are loaded and bank `next` is being loaded.
    LoadingBanks { next: usize },
    /// Terminal: every bank is loaded and a backend can be produced.
    Ready,
    /// Terminal: initialization failed; the originating error is preserved.
    Failed { error: AudioError },
}

/// One engine call the shell must perform for the loader.
#[derive(Debug, PartialEq, Eq)]
pub enum EngineRequest {
    /// Route the engine's debug output through the diagnostics callback.
    ConfigureDiagnostics,
    /// Build the system description with the authored content's channel
    /// layout.
    PrepareSystem,
    /// Check whether the bank search directory exists.
    CheckBankDirectory { path: String },
    /// Construct the engine instance, with richer diagnostics where the
    /// environment provides them.
    BuildSystem,
    /// Load the bank file `filename`, the `index`-th of the configuration.
    LoadBank { index: usize, filename: String },
}

/// The shell's report of one performed engine call. Fallible calls carry the
/// engine's status code on failure.
#[derive(Clone, Copy, Debug, PartialEq, Eq)]
pub enum EngineReply {
    DiagnosticsConfigured,
    SystemPrepared { outcome: Result<(), i64> },
    DirectoryChecked { exists: bool },
    SystemBuilt { outcome: Result<(), i64> },
    BankLoaded { outcome: Result<(), i64> },
}

/// The polled view of a loader: not ready yet, ready to produce the backend,
/// or failed for good.
#[derive(Debug, PartialEq, Eq)]
pub enum LoadOutcome {
    NotReady,
    Ready,
    Failed { error: AudioError },
}

/// Whether a phase is terminal: the loader moves no further from it.
pub open spec fn spec_phase_terminal(phase: LoadPhase) -> bool {
    phase is Ready || phase is Failed
}

/// Which reply kind the loader expects in each phase. Terminal phases expect
/// none: a loader that has reached its outcome is not stepped again.
pub open spec fn spec_reply_expected(phase: LoadPhase, reply: EngineReply) -> bool {
    match phase {
        LoadPhase::ConfiguringDiagnostics => reply is DiagnosticsConfigured,
        LoadPhase::PreparingSystem => reply is SystemPrepared,
        LoadPhase::CheckingDirectory => reply is DirectoryChecked,
        LoadPhase::BuildingSystem => reply is SystemBuilt,
        LoadPhase::LoadingBanks { .. } => reply is BankLoaded,
        LoadPhase::Ready => false,
        LoadPhase::Failed { .. } => false,
    }
}

/// The loader's transition function: the phase after applying one reply. Each
/// failure carries the offending path or file name and the engine's code; a
/// missing bank directory names the configured path.
pub open spec fn spec_step(config: LoaderConfig, phase: LoadPhase, reply: EngineReply) -> LoadPhase {
    match (phase, reply) {
        (LoadPhase::ConfiguringDiagnostics, EngineReply::DiagnosticsConfigured) => {
            LoadPhase::PreparingSystem
        },
        (LoadPhase::PreparingSystem, EngineReply::SystemPrepared { outcome }) => {
            match outcome {
                Ok(_) => LoadPhase::CheckingDirectory,
                Err(code) => LoadPhase::Failed {
                    error: AudioError::SystemPreparationFailed { code },
                },
            }
        },
        (LoadPhase::CheckingDirectory, EngineReply::DirectoryChecked { exists }) => {
            if exists {
                LoadPhase::BuildingSystem
            } else {
                LoadPhase::Failed {
                    error: AudioError::MissingBankDirectory { path: config.banks_path },
                }
            }
        },
        (LoadPhase::BuildingSystem, EngineReply::SystemBuilt { outcome }) => {
            match outcome {
                Ok(_) => {
                    if config.bank_filenames@.len() == 0 {
                        LoadPhase::Ready
                    } else {
                        LoadPhase::LoadingBanks { next: 0 }
                    }
                },
                Err(code) => LoadPhase::Failed { error: AudioError::SystemBuildFailed { code } },
            }
        },
        (LoadPhase::LoadingBanks { next }, EngineReply::BankLoaded { outcome }) => {
            match outcome {
                Ok(_) => {
                    if next + 1 == config.bank_filenames@.len() {
                        LoadPhase::Ready
                    } else {
                        LoadPhase::LoadingBanks { next: (next + 1) as usize }
                    }
                },
                Err(code) => LoadPhase::Failed {
                    error: AudioError::BankLoadFailed {
                        filename: config.bank_filenames@[next as int],
                        code,
                    },
                },
            }
        },
        _ => phase,
    }
}

/// The engine call outstanding in each phase; terminal phases request
/// nothing.
pub open spec fn spec_request(config: LoaderConfig, phase: LoadPhase) -> Option<EngineRequest> {
    match phase {
        LoadPhase::ConfiguringDiagnostics => Some(EngineRequest::ConfigureDiagnostics),
        LoadPhase::PreparingSystem => Some(EngineRequest::PrepareSystem),
        LoadPhase::CheckingDirectory => Some(
            EngineRequest::CheckBankDirectory { path: config.banks_path },
        ),
        LoadPhase::BuildingSystem => Some(EngineRequest::BuildSystem),
        LoadPhase::LoadingBanks { next } => Some(
            EngineRequest::LoadBank {
                index: next,
                filename: config.bank_filenames@[next as int],
            },
        ),
        LoadPhase::Ready => None,
        LoadPhase::Failed { .. } => None,
    }
}

/// The polled view of a phase.
pub open spec fn spec_outcome(phase: LoadPhase) -> LoadOutcome {
    match phase {
        LoadPhase::Ready => LoadOutcome::Ready,
        LoadPhase::Failed { error } => LoadOutcome::Failed { error },
        _ => LoadOutcome::NotReady,
    }
}

/// A terminal loader is final: it requests no further engine call and accepts
/// no further reply, so `Ready` can be observed but never produced twice and
/// a `Failed` loader never comes back to life.
pub proof fn lemma_terminal_is_final(config: LoaderConfig, phase: LoadPhase, reply: EngineReply)
    requires
        spec_phase_terminal(phase),
    ensures
        spec_request(config, phase) is None,
        !spec_reply_expected(phase, reply),
        spec_outcome(phase) != LoadOutcome::NotReady,
{
}

/// The blocking-capable loader: walks the initialization sequence one engine
/// call at a time.
pub struct SyncAudioLoader {
    config: LoaderConfig,
    phase: LoadPhase,
}

impl SyncAudioLoader {
    /// The loading configuration this loader was created with.
    pub closed spec fn config(&self) -> LoaderConfig {
        self.config
    }

    /// Where the initialization sequence stands.
    pub closed spec fn phase(&self) -> LoadPhase {
        self.phase
    }

    /// A bank index under way is always in range.
    pub open spec fn wf(&self) -> bool {
        self.phase() matches LoadPhase::LoadingBanks { next } ==> next
            < self.config().bank_filenames@.len()
    }

    /// Creates the loader; nothing is touched until the shell performs the
    /// first requested call.
    pub fn new(config: LoaderConfig) -> (loader: SyncAudioLoader)
        ensures
            loader.config() == config,
            loader.phase() == LoadPhase::ConfiguringDiagnostics,
            loader.wf(),
    {
        SyncAudioLoader { config, phase: LoadPhase::ConfiguringDiagnostics }
    }

    /// The engine call the shell must perform next, or `None` once the loader
    /// is terminal.
    pub fn next_request(&self) -> (request: Option<EngineRequest>)
        requires
            self.wf(),
        ensures
            request == spec_request(self.config(), self.phase()),
    {
        match &self.phase {
            LoadPhase::ConfiguringDiagnostics => Some(EngineRequest::ConfigureDiagnostics),
            LoadPhase::PreparingSystem => Some(EngineRequest::PrepareSystem),
            LoadPhase::CheckingDirectory => Some(
                EngineRequest::CheckBankDirectory { path: self.config.banks_path.clone() },
            ),
            LoadPhase::BuildingSystem => Some(EngineRequest::BuildSystem),
            LoadPhase::LoadingBanks { next } => Some(
                EngineRequest::LoadBank {
                    index: *next,
                    filename: self.config.bank_filenames[*next].clone(),
                },
            ),
            LoadPhase::Ready => None,
            LoadPhase::Failed { .. } => None,
        }
    }

    /// Applies the shell's reply to the outstanding request: exactly one
    /// transition of `spec_step`. A terminal loader accepts no reply, so the
    /// sequence of phases a loader passes through is the unique run of the
    /// state machine on the replies it was fed.
    pub fn apply(&mut self, reply: EngineReply)
        requires
            old(self).wf(),
            !spec_phase_terminal(old(self).phase()),
            spec_reply_expected(old(self).phase(), reply),
        ensures
            final(self).config() == old(self).config(),
            final(self).phase() == spec_step(old(self).config(), old(self).phase(), reply),
            final(self).wf(),
    {
        let new_phase = match (&self.phase, reply) {
            (LoadPhase::ConfiguringDiagnostics, EngineReply::DiagnosticsConfigured) => {
                LoadPhase::PreparingSystem
            },
            (LoadPhase::PreparingSystem, EngineReply::SystemPrepared { outcome }) => {
                match outcome {
                    Ok(_) => LoadPhase::CheckingDirectory,
                    Err(code) => LoadPhase::Failed {
                        error: AudioError::SystemPreparationFailed { code },
                    },
                }
            },
            (LoadPhase::CheckingDirectory, EngineReply::DirectoryChecked { exists }) => {
                if exists {
                    LoadPhase::BuildingSystem
                } else {
                    LoadPhase::Failed {
                        error: AudioError::MissingBankDirectory {
                            path: self.config.banks_path.clone(),
                        },
                    }
                }
            },
            (LoadPhase::BuildingSystem, EngineReply::SystemBuilt { outcome }) => {
                match outcome {
                    Ok(_) => {
                        if self.config.bank_filenames.len() == 0 {
                            LoadPhase::Ready
                        } else {
                            LoadPhase::LoadingBanks { next: 0 }
                        }
                    },
                    Err(code) => LoadPhase::Failed {
                        error: AudioError::SystemBuildFailed { code },
                    },
                }
            },
            (LoadPhase::LoadingBanks { next }, EngineReply::BankLoaded { outcome }) => {
                let total = self.config.bank_filenames.len();
                proof {
                    assert(*next < total);
                }
                match outcome {
                    Ok(_) => {
                        if *next + 1 == total {
                            LoadPhase::Ready
                        } else {
                            LoadPhase::LoadingBanks { next: *next + 1 }
                        }
                    },
                    Err(code) => LoadPhase::Failed {
                        error: AudioError::BankLoadFailed {
                            filename: self.config.bank_filenames[*next].clone(),
                            code,
                        },
                    },
                }
            },
            // The precondition admits only the reply the phase expects, so no
            // other combination can be reached.
            _ => {
                proof {
                    assert(false);
                }
                LoadPhase::Ready
            },
        };
        self.phase = new_phase;
    }

    /// The polled view: `NotReady` while the sequence is under way, then the
    /// one terminal outcome. Cheap and repeatable; it never advances
    /// anything.
    pub fn outcome(&self) -> (outcome: LoadOutcome)
        ensures
            outcome == spec_outcome(self.phase()),
    {
        match &self.phase {
            LoadPhase::Ready => LoadOutcome::Ready,
            LoadPhase::Failed { error } => LoadOutcome::Failed { error: error.clone() },
            _ => LoadOutcome::NotReady,
        }
    }

    /// Consumes the ready loader and wraps the engine's enumeration as the
    /// live backend: one event path list per loaded bank, in bank-load order.
    /// Taking the loader by value is what makes the terminal outcome final:
    /// no code path can poll it again afterwards.
    pub fn finish(self, bank_event_paths: Vec<Vec<String>>) -> (backend: AudioBackend)
        requires
            self.phase() is Ready,
            bank_event_paths@.len() == self.config().bank_filenames@.len(),
        ensures
            backend.events() == bank_event_paths.deep_view().flatten(),
            backend.spec_ticks() == 0,
    {
        AudioBackend::from_bank_lists(bank_event_paths)
    }
}

/// Creates the loader for a runtime that can perform the engine calls
/// directly; the caller then runs the request/reply exchange to completion
/// inside its first poll.
pub fn start_loading_audio_backend(banks_path: &str, bank_filenames: Vec<String>) -> (loader:
    SyncAudioLoader)
    ensures
        loader.config().banks_path@ == banks_path@,
        loader.config().bank_filenames == bank_filenames,
        loader.phase() == LoadPhase::ConfiguringDiagnostics,
        loader.wf(),
{
    SyncAudioLoader::new(LoaderConfig { banks_path: banks_path.to_owned(), bank_filenames })
}

/// What one non-blocking check of the hosted runtime's readiness signal
/// reports. The runtime cannot tell a transient check failure from
/// still-loading, so both arrive as `NotLoaded`.
#[derive(Clone, Copy, Debug, PartialEq, Eq, Structural)]
pub enum ReadinessSignal {
    /// The foreign loader handed the backend over.
    Loaded,
    /// Not loaded yet, or the check failed; try again later.
    NotLoaded,
}

/// The non-blocking loader for a hosted runtime that initializes the engine
/// behind a foreign readiness signal.
pub struct PollingAudioLoader {
    resolved: bool,
}

impl PollingAudioLoader {
    /// Whether a poll has already reported `Ready`.
    pub closed spec fn is_resolved(&self) -> bool {
        self.resolved
    }

    /// Creates the loader; the foreign runtime loads in the background.
    pub fn new() -> (loader: PollingAudioLoader)
        ensures
            !loader.is_resolved(),
    {
        PollingAudioLoader { resolved: false }
    }

    /// One non-blocking readiness check. Reports `Ready` exactly when the
    /// signal says the backend is loaded, and `NotReady` otherwise — never
    /// `Failed`, because the runtime cannot distinguish an unrecoverable
    /// error from still-loading. Once `Ready` is reported the loader is
    /// resolved and must not be polled again; the precondition makes a second
    /// poll unwritable.
    pub fn poll(&mut self, signal: ReadinessSignal) -> (outcome: LoadOutcome)
        requires
            !old(self).is_resolved(),
        ensures
            outcome is Ready <==> signal is Loaded,
            !(outcome is Failed),
            final(self).is_resolved() <==> signal is Loaded,
    {
        match signal {
            ReadinessSignal::Loaded => {
                self.resolved = true;
                LoadOutcome::Ready
            },
            ReadinessSignal::NotLoaded => LoadOutcome::NotReady,
        }
    }

    /// Consumes the resolved loader and wraps the engine's enumeration as the
    /// live backend, exactly as the blocking-capable variant does.
    pub fn finish(self, bank_event_paths: Vec<Vec<String>>) -> (backend: AudioBackend)
        requires
            self.is_resolved(),
        ensures
            backend.events() == bank_event_paths.deep_view().flatten(),
            backend.spec_ticks() == 0,
    {
        AudioBackend::from_bank_lists(bank_event_paths)
    }
}

} // verus!
