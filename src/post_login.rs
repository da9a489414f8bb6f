use vstd::prelude::*;

verus! {

/// The kind of session that is started after a successful login.
#[derive(Clone, Debug)]
pub enum PostLoginEnvironment {
    X { xinitrc_path: String },
    Wayland { script_path: String },
    Shell,
}

/// Why a session could not be started or did not end cleanly.
#[derive(Clone, Copy, Debug, PartialEq, Eq, Structural)]
pub enum EnvironmentStartError {
    /// The session's environment could not be applied.
    SetEnvironment,
    /// The inbox socket could not be bound or handed to the user.
    OpenInbox,
    /// The wait for a logout request failed.
    HandleLogout,
    /// The display server could not be started.
    XSetupError,
    /// The desktop process could not be started.
    XStartEnvError,
    /// The session kind is declared but cannot be started.
    NotSupported,
}

/// The next piece of outside work that the supervisor asks its driver to do.
/// The driver performs it and reports with `step` whether it succeeded.
#[derive(Clone, Copy, Debug, PartialEq, Eq, Structural)]
pub enum SupervisorAction {
    ApplyEnvironment,
    BindInbox,
    StartDisplayServer,
    StartDesktop,
    AwaitLogout,
    /// Switch the active virtual terminal back to this one.
    SwitchTerminal(u8),
    StopDesktop,
    StopDisplayServer,
    InvalidateCredentials,
    /// Nothing is left to do; `outcome` gives the result.
    Finish,
}

/// Where a session's lifecycle stands. The teardown phases carry the error
/// that will be returned once teardown is over, if any.
#[derive(Clone, Copy, Debug, PartialEq, Eq, Structural)]
pub enum Phase {
    Preparing,
    BindingInbox,
    StartingDisplay,
    StartingDesktop,
    AwaitingLogout,
    SwitchingTerminal(Option<EnvironmentStartError>),
    StoppingDesktop(Option<EnvironmentStartError>),
    StoppingDisplay(Option<EnvironmentStartError>),
    Invalidating(Option<EnvironmentStartError>),
    Done(Option<EnvironmentStartError>),
}

/// The supervisor of one session: single use, driven one action at a time.
#[derive(Clone, Copy, Debug)]
pub struct Supervisor {
    pub phase: Phase,
    /// The virtual terminal that the supervisor runs on.
    pub tty: u8,
}

/// The action that is pending in a phase.
pub open spec fn action_of(p: Phase, tty: u8) -> SupervisorAction {
    match p {
        Phase::Preparing => SupervisorAction::ApplyEnvironment,
        Phase::BindingInbox => SupervisorAction::BindInbox,
        Phase::StartingDisplay => SupervisorAction::StartDisplayServer,
        Phase::StartingDesktop => SupervisorAction::StartDesktop,
        Phase::AwaitingLogout => SupervisorAction::AwaitLogout,
        Phase::SwitchingTerminal(_) => SupervisorAction::SwitchTerminal(tty),
        Phase::StoppingDesktop(_) => SupervisorAction::StopDesktop,
        Phase::StoppingDisplay(_) => SupervisorAction::StopDisplayServer,
        Phase::Invalidating(_) => SupervisorAction::InvalidateCredentials,
        Phase::Done(_) => SupervisorAction::Finish,
    }
}

/// The phase that follows once the pending action has succeeded or failed.
/// A failed setup step tears down exactly what was started before it;
/// teardown steps go on whether or not they succeed; credentials are
/// invalidated on every path.
pub open spec fn next_phase(p: Phase, succeeded: bool) -> Phase {
    match p {
        Phase::Preparing => if succeeded {
            Phase::BindingInbox
        } else {
            Phase::Invalidating(Some(EnvironmentStartError::SetEnvironment))
        },
        Phase::BindingInbox => if succeeded {
            Phase::StartingDisplay
        } else {
            Phase::Invalidating(Some(EnvironmentStartError::OpenInbox))
        },
        Phase::StartingDisplay => if succeeded {
            Phase::StartingDesktop
        } else {
            Phase::Invalidating(Some(EnvironmentStartError::XSetupError))
        },
        Phase::StartingDesktop => if succeeded {
            Phase::AwaitingLogout
        } else {
            Phase::StoppingDisplay(Some(EnvironmentStartError::XStartEnvError))
        },
        Phase::AwaitingLogout => if succeeded {
            Phase::SwitchingTerminal(None)
        } else {
            Phase::SwitchingTerminal(Some(EnvironmentStartError::HandleLogout))
        },
        Phase::SwitchingTerminal(e) => Phase::StoppingDesktop(e),
        Phase::StoppingDesktop(e) => Phase::StoppingDisplay(e),
        Phase::StoppingDisplay(e) => Phase::Invalidating(e),
        Phase::Invalidating(e) => Phase::Done(e),
        Phase::Done(e) => Phase::Done(e),
    }
}

/// The result of a finished session, `None` while it is not finished.
pub open spec fn outcome_of(p: Phase) -> Option<Result<(), EnvironmentStartError>> {
    match p {
        Phase::Done(None) => Some(Ok(())),
        Phase::Done(Some(e)) => Some(Err(e)),
        _ => None,
    }
}

/// How many steps a phase is at most away from `Done`.
pub open spec fn steps_left(p: Phase) -> nat {
    match p {
        Phase::Preparing => 9,
        Phase::BindingInbox => 8,
        Phase::StartingDisplay => 7,
        Phase::StartingDesktop => 6,
        Phase::AwaitingLogout => 5,
        Phase::SwitchingTerminal(_) => 4,
        Phase::StoppingDesktop(_) => 3,
        Phase::StoppingDisplay(_) => 2,
        Phase::Invalidating(_) => 1,
        Phase::Done(_) => 0,
    }
}

impl PostLoginEnvironment {
    /// Begins a session of this kind on terminal `tty`. Only `X` sessions run
    /// the full lifecycle; the others go straight to invalidating the
    /// credentials and then finish with `NotSupported`.
    pub fn start(&self, tty: u8) -> (r: Supervisor)
        ensures
            r.tty == tty,
            self is X ==> r.phase == Phase::Preparing,
            !(self is X) ==> r.phase == Phase::Invalidating(
                Some(EnvironmentStartError::NotSupported),
            ),
    {
        match self {
            PostLoginEnvironment::X { .. } => Supervisor { phase: Phase::Preparing, tty },
            _ => Supervisor {
                phase: Phase::Invalidating(Some(EnvironmentStartError::NotSupported)),
                tty,
            },
        }
    }
}

/// Begins a session of the given kind on terminal `tty`.
pub fn post_login_env_start(post_login_env: &PostLoginEnvironment, tty: u8) -> (r: Supervisor)
    ensures
        r.tty == tty,
        post_login_env is X ==> r.phase == Phase::Preparing,
        !(post_login_env is X) ==> r.phase == Phase::Invalidating(
            Some(EnvironmentStartError::NotSupported),
        ),
{
    post_login_env.start(tty)
}

impl Supervisor {
    /// The action that the driver has to perform next.
    pub fn pending(&self) -> (r: SupervisorAction)
        ensures
            r == action_of(self.phase, self.tty),
    {
        match self.phase {
            Phase::Preparing => SupervisorAction::ApplyEnvironment,
            Phase::BindingInbox => SupervisorAction::BindInbox,
            Phase::StartingDisplay => SupervisorAction::StartDisplayServer,
            Phase::StartingDesktop => SupervisorAction::StartDesktop,
            Phase::AwaitingLogout => SupervisorAction::AwaitLogout,
            Phase::SwitchingTerminal(_) => SupervisorAction::SwitchTerminal(self.tty),
            Phase::StoppingDesktop(_) => SupervisorAction::StopDesktop,
            Phase::StoppingDisplay(_) => SupervisorAction::StopDisplayServer,
            Phase::Invalidating(_) => SupervisorAction::InvalidateCredentials,
            Phase::Done(_) => SupervisorAction::Finish,
        }
    }

    /// Records whether the pending action succeeded and returns the next one.
    pub fn step(&mut self, succeeded: bool) -> (r: SupervisorAction)
        ensures
            final(self).phase == next_phase(old(self).phase, succeeded),
            final(self).tty == old(self).tty,
            r == action_of(final(self).phase, final(self).tty),
    {
        self.phase = match self.phase {
            Phase::Preparing => if succeeded {
                Phase::BindingInbox
            } else {
                Phase::Invalidating(Some(EnvironmentStartError::SetEnvironment))
            },
            Phase::BindingInbox => if succeeded {
                Phase::StartingDisplay
            } else {
                Phase::Invalidating(Some(EnvironmentStartError::OpenInbox))
            },
            Phase::StartingDisplay => if succeeded {
                Phase::StartingDesktop
            } else {
                Phase::Invalidating(Some(EnvironmentStartError::XSetupError))
            },
            Phase::StartingDesktop => if succeeded {
                Phase::AwaitingLogout
            } else {
                Phase::StoppingDisplay(Some(EnvironmentStartError::XStartEnvError))
            },
            Phase::AwaitingLogout => if succeeded {
                Phase::SwitchingTerminal(None)
            } else {
                Phase::SwitchingTerminal(Some(EnvironmentStartError::HandleLogout))
            },
            Phase::SwitchingTerminal(e) => Phase::StoppingDesktop(e),
            Phase::StoppingDesktop(e) => Phase::StoppingDisplay(e),
            Phase::StoppingDisplay(e) => Phase::Invalidating(e),
            Phase::Invalidating(e) => Phase::Done(e),
            Phase::Done(e) => Phase::Done(e),
        };
        self.pending()
    }

    /// The session's result once it has finished.
    pub fn outcome(&self) -> (r: Option<Result<(), EnvironmentStartError>>)
        ensures
            r == outcome_of(self.phase),
    {
        match self.phase {
            Phase::Done(None) => Some(Ok(())),
            Phase::Done(Some(e)) => Some(Err(e)),
            _ => None,
        }
    }
}

/// A session whose display server started but whose desktop failed to start
/// stops the display server, then invalidates the credentials, and only then
/// finishes with the desktop error, whatever the teardown steps report.
pub proof fn lemma_desktop_failure_stops_display(tty: u8, stop_ok: bool, invalidate_ok: bool)
    ensures
        ({
            let p1 = next_phase(Phase::Preparing, true);
            let p2 = next_phase(p1, true);
            let p3 = next_phase(p2, true);
            let p4 = next_phase(p3, false);
            let p5 = next_phase(p4, stop_ok);
            let p6 = next_phase(p5, invalidate_ok);
            &&& action_of(p2, tty) == SupervisorAction::StartDisplayServer
            &&& action_of(p3, tty) == SupervisorAction::StartDesktop
            &&& action_of(p4, tty) == SupervisorAction::StopDisplayServer
            &&& outcome_of(p4) is None
            &&& action_of(p5, tty) == SupervisorAction::InvalidateCredentials
            &&& outcome_of(p5) is None
            &&& outcome_of(p6) == Some(
                Err::<(), EnvironmentStartError>(EnvironmentStartError::XStartEnvError),
            )
        }),
{
}

/// Every lifecycle ends: each step from an unfinished phase brings it closer
/// to `Done`, and the only way into `Done` is from invalidating the
/// credentials, so no path finishes without that step.
pub proof fn lemma_every_path_invalidates_then_finishes(p: Phase, succeeded: bool)
    ensures
        !(p is Done) ==> steps_left(next_phase(p, succeeded)) < steps_left(p),
        !(p is Done) && next_phase(p, succeeded) is Done ==> p is Invalidating,
        steps_left(p) <= 9,
{
}

/// Once the desktop runs, the teardown after the wait for logout switches the
/// terminal, stops the desktop, stops the display server and invalidates the
/// credentials, in that order, whether or not each of those steps succeeds.
pub proof fn lemma_teardown_order(wait_ok: bool, a: bool, b: bool, c: bool, d: bool, tty: u8)
    ensures
        ({
            let p1 = next_phase(Phase::AwaitingLogout, wait_ok);
            let p2 = next_phase(p1, a);
            let p3 = next_phase(p2, b);
            let p4 = next_phase(p3, c);
            let p5 = next_phase(p4, d);
            &&& action_of(p1, tty) == SupervisorAction::SwitchTerminal(tty)
            &&& action_of(p2, tty) == SupervisorAction::StopDesktop
            &&& action_of(p3, tty) == SupervisorAction::StopDisplayServer
            &&& action_of(p4, tty) == SupervisorAction::InvalidateCredentials
            &&& outcome_of(p5) == if wait_ok {
                Some(Ok::<(), EnvironmentStartError>(()))
            } else {
                Some(Err::<(), EnvironmentStartError>(EnvironmentStartError::HandleLogout))
            }
        }),
{
}

} // verus!
