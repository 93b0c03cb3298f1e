use vstd::prelude::*;

use crate::config::LaunchConfig;
use crate::outcome::{ExitOutcome, Observation, SupervisionError};

verus! {

/// Lifecycle phase of a supervised helper process.
#[derive(Debug, Clone, Copy, PartialEq, Eq)]
pub enum Phase {
    /// Validation accepted the configuration; process creation has not been
    /// attempted yet.
    Launching,
    /// The operating system confirmed process creation; the background
    /// worker is waiting for the exit.
    Running,
    /// Process creation failed; the handle is terminal.
    FailedToLaunch,
    /// The process terminated and its outcome was captured; the handle is
    /// terminal.
    Exited,
}

/// A supervised helper process. The handle is owned exclusively by the
/// background context that drives it from `Launching` to a terminal phase;
/// no lock is needed because no other component may touch it.
#[derive(Debug)]
pub struct HelperProcessHandle {
    pub config: LaunchConfig,
    pub phase: Phase,
    /// The reason process creation failed; present exactly in phase
    /// `FailedToLaunch`.
    pub failure: Option<String>,
    /// The captured exit outcome; present exactly in phase `Exited`.
    pub exit: Option<ExitOutcome>,
}

impl HelperProcessHandle {
    /// Well-formedness: the captured outcomes agree with the phase, and the
    /// configuration passed validation, so an empty executable path never
    /// reaches process creation.
    pub open spec fn wf(self) -> bool {
        &&& self.config.path@.len() > 0
        &&& (self.failure is Some <==> self.phase is FailedToLaunch)
        &&& (self.exit is Some <==> self.phase is Exited)
    }

    /// A terminal handle has reported (or owes) exactly one observation and
    /// takes part in no further transition.
    pub open spec fn is_terminal(self) -> bool {
        self.phase is FailedToLaunch || self.phase is Exited
    }
}

/// What `supervise` decides for a configuration and a probe result.
pub open spec fn supervise_spec(config: LaunchConfig, resolvable: bool) -> Result<
    HelperProcessHandle,
    SupervisionError,
> {
    if config.is_launchable(resolvable) {
        Ok(HelperProcessHandle { config, phase: Phase::Launching, failure: None, exit: None })
    } else {
        Err(SupervisionError::InvalidConfig)
    }
}

/// Validation step of supervision, performed synchronously on the caller's
/// path. A configuration whose executable path is empty or does not resolve
/// is rejected with `InvalidConfig` before any process is spawned: only an
/// accepted configuration yields the handle that the background sequence
/// drives. `resolvable` is the caller's probe of the search path.
pub fn supervise(config: LaunchConfig, resolvable: bool) -> (r: Result<
    HelperProcessHandle,
    SupervisionError,
>)
    ensures
        r == supervise_spec(config, resolvable),
        config.is_launchable(resolvable) <==> r is Ok,
        r matches Ok(h) ==> h.wf() && h.phase is Launching && h.config == config,
        !config.is_launchable(resolvable) ==> r == Err::<HelperProcessHandle, SupervisionError>(
            SupervisionError::InvalidConfig,
        ),
{
    if resolvable && !config.path_is_empty() {
        Ok(HelperProcessHandle { config, phase: Phase::Launching, failure: None, exit: None })
    } else {
        Err(SupervisionError::InvalidConfig)
    }
}

/// Caller-visible outcome of scheduling the background worker: creating the
/// worker either succeeded, and `supervise`'s caller gets `Ok`, or it did
/// not, and the failure is surfaced synchronously as `SchedulingFailed`.
pub fn scheduling_outcome(scheduled: bool) -> (r: Result<(), SupervisionError>)
    ensures
        scheduled <==> r is Ok,
        !scheduled ==> r == Err::<(), SupervisionError>(SupervisionError::SchedulingFailed),
{
    if scheduled {
        Ok(())
    } else {
        Err(SupervisionError::SchedulingFailed)
    }
}

/// What recording a process-creation outcome does to a handle in phase
/// `Launching`: the new handle, and the observation (if any) now owed to
/// the sink.
pub open spec fn launch_step(h: HelperProcessHandle, creation: Result<(), String>) -> (
    HelperProcessHandle,
    Option<Observation>,
) {
    match creation {
        Ok(_) => (
            HelperProcessHandle {
                config: h.config,
                phase: Phase::Running,
                failure: h.failure,
                exit: h.exit,
            },
            None,
        ),
        Err(reason) => (
            HelperProcessHandle {
                config: h.config,
                phase: Phase::FailedToLaunch,
                failure: Some(reason),
                exit: h.exit,
            },
            Some(Observation::LaunchFailed(reason)),
        ),
    }
}

/// What recording a termination does to a handle in phase `Running`: the
/// new handle, and the one observation now owed to the sink.
pub open spec fn exit_step(h: HelperProcessHandle, outcome: ExitOutcome) -> (
    HelperProcessHandle,
    Observation,
) {
    (
        HelperProcessHandle {
            config: h.config,
            phase: Phase::Exited,
            failure: h.failure,
            exit: Some(outcome),
        },
        Observation::Exited(outcome),
    )
}

/// Records the outcome of OS-level process creation, performed by the
/// background worker. On success the handle is `Running` and nothing is
/// reported yet; on failure the handle is terminal and the returned
/// `LaunchFailed` observation is owed to the sink — never thrown back into
/// the caller's original call stack.
pub fn record_launch(h: &mut HelperProcessHandle, creation: Result<(), String>) -> (obs: Option<
    Observation,
>)
    requires
        old(h).wf(),
        old(h).phase is Launching,
    ensures
        (*final(h), obs) == launch_step(*old(h), creation),
        final(h).wf(),
        final(h).config == old(h).config,
        creation is Ok ==> final(h).phase is Running && obs is None,
        creation matches Err(reason) ==> final(h).is_terminal() && final(h).failure == Some(reason)
            && obs == Some(Observation::LaunchFailed(reason)),
{
    match creation {
        Ok(_) => {
            h.phase = Phase::Running;
            None
        },
        Err(reason) => {
            h.phase = Phase::FailedToLaunch;
            h.failure = Some(reason.clone());
            Some(Observation::LaunchFailed(reason))
        },
    }
}

/// Records the termination of a running helper process. The handle becomes
/// terminal with the outcome captured, and the returned `Exited`
/// observation is owed to the sink, whether the exit was normal or not.
pub fn record_exit(h: &mut HelperProcessHandle, outcome: ExitOutcome) -> (obs: Observation)
    requires
        old(h).wf(),
        old(h).phase is Running,
    ensures
        (*final(h), obs) == exit_step(*old(h), outcome),
        final(h).wf(),
        final(h).is_terminal(),
        final(h).config == old(h).config,
        final(h).exit == Some(outcome),
        obs == Observation::Exited(outcome),
{
    h.phase = Phase::Exited;
    h.exit = Some(outcome);
    Observation::Exited(outcome)
}

/// Law: a configuration with an empty or unresolvable executable path is
/// rejected with `InvalidConfig`, and no handle — hence no process — is
/// ever created for it.
pub proof fn lemma_invalid_config_rejected(config: LaunchConfig, resolvable: bool)
    requires
        !config.is_launchable(resolvable),
    ensures
        supervise_spec(config, resolvable) == Err::<HelperProcessHandle, SupervisionError>(
            SupervisionError::InvalidConfig,
        ),
{
}

/// Law: a run whose process creation succeeds and whose process then
/// terminates with `outcome` produces exactly one observation,
/// `Exited(outcome)`, and no `LaunchFailed`; the handle ends terminal and
/// well-formed, so no further observation can be produced from it.
pub proof fn lemma_successful_run_reports_exit_once(h: HelperProcessHandle, outcome: ExitOutcome)
    requires
        h.wf(),
        h.phase is Launching,
    ensures
        ({
            let (running, first) = launch_step(h, Ok(()));
            let (done, second) = exit_step(running, outcome);
            &&& first is None
            &&& second == Observation::Exited(outcome)
            &&& running.phase is Running
            &&& running.wf()
            &&& done.is_terminal()
            &&& done.wf()
        }),
{
}

/// Law: a run whose process creation fails produces exactly one
/// observation, `LaunchFailed(reason)`, and no `Exited`: the handle ends
/// terminal, not `Running`, so no termination can ever be recorded on it.
pub proof fn lemma_failed_launch_reports_failure_once(h: HelperProcessHandle, reason: String)
    requires
        h.wf(),
        h.phase is Launching,
    ensures
        ({
            let (failed, obs) = launch_step(h, Err(reason));
            &&& obs == Some(Observation::LaunchFailed(reason))
            &&& failed.phase is FailedToLaunch
            &&& !(failed.phase is Running)
            &&& failed.is_terminal()
            &&& failed.wf()
        }),
{
}

/// Law: reports never cross between two supervised processes. The
/// observation of a run is a function of that run's own handle and events
/// alone, so two complete runs whose processes terminate with distinct
/// outcomes yield distinct reports, each carrying its own outcome.
pub proof fn lemma_reports_do_not_cross(
    a: HelperProcessHandle,
    b: HelperProcessHandle,
    oa: ExitOutcome,
    ob: ExitOutcome,
)
    requires
        a.wf(),
        a.phase is Launching,
        b.wf(),
        b.phase is Launching,
        oa != ob,
    ensures
        ({
            let (_, ra) = exit_step(launch_step(a, Ok(())).0, oa);
            let (_, rb) = exit_step(launch_step(b, Ok(())).0, ob);
            &&& ra == Observation::Exited(oa)
            &&& rb == Observation::Exited(ob)
            &&& ra != rb
        }),
{
}

} // verus!

