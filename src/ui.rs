use vstd::prelude::*;

use crate::post_login::EnvironmentStartError;

verus! {

/// How a status message is shown.
#[derive(Clone, Copy, Debug, PartialEq, Eq, Structural)]
pub enum StatusLevel {
    Error,
    Info,
}

/// Progress of a login attempt, as reported to the foreground loop.
#[derive(Clone, Debug, PartialEq, Eq)]
pub enum StatusMessage {
    /// Authentication failed, with the reason that was given.
    PamError(String),
    Authenticating,
    LoggingIn,
    FailedGraphicalEnvironment,
    FailedDesktop,
    /// The session ran and was torn down; the attempt is over.
    Cleared,
}

/// Whether a status message ends its attempt.
pub open spec fn is_terminal(m: StatusMessage) -> bool {
    match m {
        StatusMessage::Authenticating | StatusMessage::LoggingIn => false,
        _ => true,
    }
}

/// The level at which a status message is shown.
pub open spec fn level_spec(m: StatusMessage) -> StatusLevel {
    match m {
        StatusMessage::PamError(_)
        | StatusMessage::FailedGraphicalEnvironment
        | StatusMessage::FailedDesktop => StatusLevel::Error,
        _ => StatusLevel::Info,
    }
}

impl StatusMessage {
    /// Failures are errors; progress and the end of a session are information.
    pub fn level(status_message: &Self) -> (r: StatusLevel)
        ensures
            r == level_spec(*status_message),
    {
        match status_message {
            StatusMessage::PamError(_)
            | StatusMessage::FailedGraphicalEnvironment
            | StatusMessage::FailedDesktop => StatusLevel::Error,
            _ => StatusLevel::Info,
        }
    }
}

/// The field of the login form that has the input focus.
#[derive(Clone, Copy, Debug, PartialEq, Eq, Structural)]
pub enum InputMode {
    WMSelect,
    Username,
    Password,
    Normal,
}

/// One forward move of the focus: Normal, WMSelect, Username, Password,
/// where Password stays.
pub open spec fn next_spec(m: InputMode) -> InputMode {
    match m {
        InputMode::Normal => InputMode::WMSelect,
        InputMode::WMSelect => InputMode::Username,
        InputMode::Username => InputMode::Password,
        InputMode::Password => InputMode::Password,
    }
}

/// One backward move of the focus, the reverse order, where Normal stays.
pub open spec fn prev_spec(m: InputMode) -> InputMode {
    match m {
        InputMode::Normal => InputMode::Normal,
        InputMode::WMSelect => InputMode::Normal,
        InputMode::Username => InputMode::WMSelect,
        InputMode::Password => InputMode::Username,
    }
}

impl InputMode {
    pub fn next(&mut self)
        ensures
            *final(self) == next_spec(*old(self)),
    {
        *self = match *self {
            InputMode::Normal => InputMode::WMSelect,
            InputMode::WMSelect => InputMode::Username,
            InputMode::Username => InputMode::Password,
            InputMode::Password => InputMode::Password,
        }
    }

    pub fn prev(&mut self)
        ensures
            *final(self) == prev_spec(*old(self)),
    {
        *self = match *self {
            InputMode::Normal => InputMode::Normal,
            InputMode::WMSelect => InputMode::Normal,
            InputMode::Username => InputMode::WMSelect,
            InputMode::Password => InputMode::Username,
        }
    }
}

/// Three forward moves take the focus from Normal to Password and three
/// backward moves take it back; Password absorbs forward moves and Normal
/// absorbs backward ones; a backward move undoes a forward move that changed
/// the focus.
pub proof fn lemma_focus_order(m: InputMode)
    ensures
        next_spec(next_spec(next_spec(InputMode::Normal))) == InputMode::Password,
        prev_spec(prev_spec(prev_spec(InputMode::Password))) == InputMode::Normal,
        next_spec(InputMode::Password) == InputMode::Password,
        prev_spec(InputMode::Normal) == InputMode::Normal,
        m != InputMode::Password ==> prev_spec(next_spec(m)) == m,
        m != InputMode::Normal ==> next_spec(prev_spec(m)) == m,
{
}

/// What the driver of a login attempt reports back to it.
#[derive(Debug)]
pub enum LoginEvent {
    /// The credentials were accepted.
    AuthSucceeded,
    /// The credentials were refused, with the reason.
    AuthFailed(String),
    /// The supervised session has returned.
    SessionEnded(Result<(), EnvironmentStartError>),
}

/// The outside work that a login attempt asks of its driver next.
#[derive(Clone, Copy, Debug, PartialEq, Eq, Structural)]
pub enum LoginCommand {
    /// Check the attempt's username and password.
    Authenticate,
    /// Start and supervise the session with the attempt's init script.
    Supervise,
    /// The attempt is over.
    End,
}

#[derive(Clone, Copy, Debug, PartialEq, Eq, Structural)]
pub enum LoginPhase {
    Authenticating,
    Supervising,
    Finished,
}

/// One login attempt: the captured credentials and the selected session's
/// init script, and how far the attempt has come.
#[derive(Clone, Debug)]
pub struct LoginAttempt {
    pub username: String,
    pub password: String,
    pub initrc_path: String,
    pub phase: LoginPhase,
}

/// What one step of a login attempt yields: a notification for the
/// foreground loop, if any, and the next command.
#[derive(Clone, Debug)]
pub struct LoginStep {
    pub notify: Option<StatusMessage>,
    pub command: LoginCommand,
}

/// The notification that ends a supervised session: a display server that
/// could not be brought up, or anything before it, is a failed graphical
/// environment; a desktop that did not start is a failed desktop; a session
/// that ran and was torn down is cleared.
pub open spec fn session_status(res: Result<(), EnvironmentStartError>) -> StatusMessage {
    match res {
        Ok(()) => StatusMessage::Cleared,
        Err(EnvironmentStartError::XStartEnvError) => StatusMessage::FailedDesktop,
        Err(EnvironmentStartError::HandleLogout) => StatusMessage::Cleared,
        Err(_) => StatusMessage::FailedGraphicalEnvironment,
    }
}

/// The command pending in a phase.
pub open spec fn command_of(p: LoginPhase) -> LoginCommand {
    match p {
        LoginPhase::Authenticating => LoginCommand::Authenticate,
        LoginPhase::Supervising => LoginCommand::Supervise,
        LoginPhase::Finished => LoginCommand::End,
    }
}

/// The phase after an event; an event that does not answer the pending
/// command changes nothing.
pub open spec fn login_next(p: LoginPhase, e: LoginEvent) -> LoginPhase {
    match (p, e) {
        (LoginPhase::Authenticating, LoginEvent::AuthSucceeded) => LoginPhase::Supervising,
        (LoginPhase::Authenticating, LoginEvent::AuthFailed(_)) => LoginPhase::Finished,
        (LoginPhase::Supervising, LoginEvent::SessionEnded(_)) => LoginPhase::Finished,
        _ => p,
    }
}

/// The notification that an event yields in a phase.
pub open spec fn login_notification(p: LoginPhase, e: LoginEvent) -> Option<StatusMessage> {
    match (p, e) {
        (LoginPhase::Authenticating, LoginEvent::AuthSucceeded) => Some(StatusMessage::LoggingIn),
        (LoginPhase::Authenticating, LoginEvent::AuthFailed(reason)) => Some(
            StatusMessage::PamError(reason),
        ),
        (LoginPhase::Supervising, LoginEvent::SessionEnded(res)) => Some(session_status(res)),
        _ => None,
    }
}

/// The notifications that a sequence of events yields from a phase.
pub open spec fn notifications(p: LoginPhase, es: Seq<LoginEvent>) -> Seq<StatusMessage>
    decreases es.len(),
{
    if es.len() == 0 {
        seq![]
    } else {
        let here = match login_notification(p, es[0]) {
            Some(m) => seq![m],
            None => seq![],
        };
        here + notifications(login_next(p, es[0]), es.drop_first())
    }
}

/// All notifications of an attempt whose driver reports these events.
pub open spec fn attempt_notifications(es: Seq<LoginEvent>) -> Seq<StatusMessage> {
    seq![StatusMessage::Authenticating] + notifications(LoginPhase::Authenticating, es)
}

/// Begins a login attempt with the captured credentials and init script.
/// Its first notification is `Authenticating`, and it first asks for the
/// credentials to be checked.
pub fn login(username: String, password: String, initrc_path: String) -> (r: (
    LoginAttempt,
    LoginStep,
))
    ensures
        r.0.username == username,
        r.0.password == password,
        r.0.initrc_path == initrc_path,
        r.0.phase == LoginPhase::Authenticating,
        r.1.notify == Some(StatusMessage::Authenticating),
        r.1.command == LoginCommand::Authenticate,
{
    let attempt = LoginAttempt { username, password, initrc_path, phase: LoginPhase::Authenticating };
    (attempt, LoginStep { notify: Some(StatusMessage::Authenticating), command: LoginCommand::Authenticate })
}

impl LoginAttempt {
    /// Takes the driver's report and says what to notify and do next. Once
    /// authentication has answered, the password is no longer held.
    pub fn step(&mut self, event: LoginEvent) -> (r: LoginStep)
        ensures
            final(self).phase == login_next(old(self).phase, event),
            r.notify == login_notification(old(self).phase, event),
            r.command == command_of(final(self).phase),
            final(self).username == old(self).username,
            final(self).initrc_path == old(self).initrc_path,
            final(self).password@ == if old(self).phase == LoginPhase::Authenticating
                && final(self).phase != LoginPhase::Authenticating {
                Seq::<char>::empty()
            } else {
                old(self).password@
            },
    {
        match (self.phase, event) {
            (LoginPhase::Authenticating, LoginEvent::AuthSucceeded) => {
                self.phase = LoginPhase::Supervising;
                self.password = String::new();
                LoginStep { notify: Some(StatusMessage::LoggingIn), command: LoginCommand::Supervise }
            },
            (LoginPhase::Authenticating, LoginEvent::AuthFailed(reason)) => {
                self.phase = LoginPhase::Finished;
                self.password = String::new();
                LoginStep { notify: Some(StatusMessage::PamError(reason)), command: LoginCommand::End }
            },
            (LoginPhase::Supervising, LoginEvent::SessionEnded(res)) => {
                self.phase = LoginPhase::Finished;
                let m = match res {
                    Ok(()) => StatusMessage::Cleared,
                    Err(EnvironmentStartError::XStartEnvError) => StatusMessage::FailedDesktop,
                    Err(EnvironmentStartError::HandleLogout) => StatusMessage::Cleared,
                    Err(_) => StatusMessage::FailedGraphicalEnvironment,
                };
                LoginStep { notify: Some(m), command: LoginCommand::End }
            },
            (LoginPhase::Authenticating, _) => LoginStep {
                notify: None,
                command: LoginCommand::Authenticate,
            },
            (LoginPhase::Supervising, _) => LoginStep {
                notify: None,
                command: LoginCommand::Supervise,
            },
            (LoginPhase::Finished, _) => LoginStep { notify: None, command: LoginCommand::End },
        }
    }
}

/// A finished attempt notifies nothing more.
proof fn lemma_finished_is_silent(es: Seq<LoginEvent>)
    ensures
        notifications(LoginPhase::Finished, es) == Seq::<StatusMessage>::empty(),
    decreases es.len(),
{
    if es.len() > 0 {
        lemma_finished_is_silent(es.drop_first());
    }
}

/// From any phase, a terminal notification is the last one.
proof fn lemma_terminal_is_last(p: LoginPhase, es: Seq<LoginEvent>)
    ensures
        forall|i: int|
            0 <= i < notifications(p, es).len() && is_terminal(#[trigger] notifications(p, es)[i])
                ==> i == notifications(p, es).len() - 1,
    decreases es.len(),
{
    if es.len() > 0 {
        let q = login_next(p, es[0]);
        let rest = es.drop_first();
        lemma_terminal_is_last(q, rest);
        let ns = notifications(p, es);
        match login_notification(p, es[0]) {
            Some(m) => {
                if is_terminal(m) {
                    assert(q == LoginPhase::Finished);
                    lemma_finished_is_silent(rest);
                    assert(ns =~= seq![m]);
                } else {
                    assert forall|i: int|
                        0 <= i < ns.len() && is_terminal(#[trigger] ns[i]) implies i == ns.len()
                        - 1 by {
                        assert(i > 0);
                        assert(ns[i] == notifications(q, rest)[i - 1]);
                    }
                }
            },
            None => {
                assert(ns =~= notifications(q, rest));
            },
        }
    }
}

/// Whatever the driver reports, an attempt notifies `Authenticating` first,
/// strictly before any terminal notification, and nothing follows a terminal
/// notification. An attempt whose credentials are refused ends with
/// `PamError` and notifies nothing after it.
pub proof fn lemma_attempt_notification_order(es: Seq<LoginEvent>, reason: String)
    ensures
        attempt_notifications(es)[0] == StatusMessage::Authenticating,
        forall|i: int|
            0 <= i < attempt_notifications(es).len() && is_terminal(
                #[trigger] attempt_notifications(es)[i],
            ) ==> 0 < i && i == attempt_notifications(es).len() - 1,
        es.len() > 0 && es[0] == LoginEvent::AuthFailed(reason) ==> attempt_notifications(es)
            == seq![StatusMessage::Authenticating, StatusMessage::PamError(reason)],
{
    let ns = attempt_notifications(es);
    let tail = notifications(LoginPhase::Authenticating, es);
    lemma_terminal_is_last(LoginPhase::Authenticating, es);
    assert forall|i: int| 0 <= i < ns.len() && is_terminal(#[trigger] ns[i]) implies 0 < i && i
        == ns.len() - 1 by {
        assert(i != 0);
        assert(ns[i] == tail[i - 1]);
    }
    if es.len() > 0 && es[0] == LoginEvent::AuthFailed(reason) {
        lemma_finished_is_silent(es.drop_first());
        assert(tail =~= seq![StatusMessage::PamError(reason)]);
        assert(ns =~= seq![StatusMessage::Authenticating, StatusMessage::PamError(reason)]);
    }
}

/// The keys that the login form tells apart; every other key goes to the
/// widget that has the focus.
#[derive(Clone, Copy, Debug, PartialEq, Eq, Structural)]
pub enum KeyCode {
    Enter,
    Down,
    Up,
    Tab,
    Esc,
    Other,
}

/// A key press, with whether the secondary modifier (shift) was held.
#[derive(Clone, Copy, Debug, PartialEq, Eq, Structural)]
pub struct KeyInput {
    pub code: KeyCode,
    pub shift: bool,
}

/// What the foreground loop does with a key press.
#[derive(Clone, Copy, Debug, PartialEq, Eq, Structural)]
pub enum KeyOutcome {
    /// Start a login attempt with the form's contents. `abandoned` tells
    /// whether an earlier attempt was still observed and is now left alone.
    Submit { abandoned: bool },
    /// The focus moved, or stayed where the move was absorbed.
    Focus,
    /// Hand the key to the widget of this field.
    ToWidget(InputMode),
    Ignored,
}

/// What a non-blocking look at the current attempt's channel found.
#[derive(Clone, Debug)]
pub enum Poll {
    Empty,
    Received(StatusMessage),
    Closed,
}

/// The state of the login form that the foreground loop keeps.
#[derive(Debug)]
pub struct App {
    pub input_mode: InputMode,
    /// The status shown under the form.
    pub status_message: Option<StatusMessage>,
    /// Whether an attempt's progress is being observed.
    pub observing: bool,
}

/// Whether a key moves the focus forward, were no modifier held.
pub open spec fn is_forward_key(c: KeyCode) -> bool {
    c == KeyCode::Enter || c == KeyCode::Down || c == KeyCode::Tab
}

/// Enter on the password field submits; a forward key moves forward, or
/// backward with shift held; Up moves backward; Esc goes back to Normal.
pub open spec fn key_outcome(m: InputMode, k: KeyInput, observing: bool) -> KeyOutcome {
    if k.code == KeyCode::Enter && m == InputMode::Password {
        KeyOutcome::Submit { abandoned: observing }
    } else if is_forward_key(k.code) || k.code == KeyCode::Up || k.code == KeyCode::Esc {
        KeyOutcome::Focus
    } else if m == InputMode::Normal {
        KeyOutcome::Ignored
    } else {
        KeyOutcome::ToWidget(m)
    }
}

/// The focus after a key press.
pub open spec fn focus_after(m: InputMode, k: KeyInput) -> InputMode {
    if k.code == KeyCode::Enter && m == InputMode::Password {
        m
    } else if is_forward_key(k.code) {
        if k.shift {
            prev_spec(m)
        } else {
            next_spec(m)
        }
    } else if k.code == KeyCode::Up {
        prev_spec(m)
    } else if k.code == KeyCode::Esc {
        InputMode::Normal
    } else {
        m
    }
}

impl Default for App {
    fn default() -> (r: App)
        ensures
            r.input_mode == InputMode::Normal,
            r.status_message is None,
            !r.observing,
    {
        App { input_mode: InputMode::Normal, status_message: None, observing: false }
    }
}

impl App {
    /// Dispatches a key press through the focus order. A submission starts
    /// observing the new attempt in place of any earlier one.
    pub fn handle_key(&mut self, key: KeyInput) -> (r: KeyOutcome)
        ensures
            r == key_outcome(old(self).input_mode, key, old(self).observing),
            final(self).input_mode == focus_after(old(self).input_mode, key),
            final(self).observing == (old(self).observing || r is Submit),
            final(self).status_message == old(self).status_message,
    {
        if key.code == KeyCode::Enter && self.input_mode == InputMode::Password {
            let abandoned = self.observing;
            self.observing = true;
            return KeyOutcome::Submit { abandoned };
        }
        match key.code {
            KeyCode::Enter | KeyCode::Down | KeyCode::Tab => {
                if key.shift {
                    self.input_mode.prev();
                } else {
                    self.input_mode.next();
                }
                KeyOutcome::Focus
            },
            KeyCode::Up => {
                self.input_mode.prev();
                KeyOutcome::Focus
            },
            KeyCode::Esc => {
                self.input_mode = InputMode::Normal;
                KeyOutcome::Focus
            },
            KeyCode::Other => {
                if self.input_mode == InputMode::Normal {
                    KeyOutcome::Ignored
                } else {
                    KeyOutcome::ToWidget(self.input_mode)
                }
            },
        }
    }

    /// Takes what a look at the observed attempt's channel found. A new
    /// status is shown; `Cleared` clears the display and, like a closed
    /// channel, ends the observation. Without an observed attempt nothing
    /// changes.
    pub fn receive(&mut self, poll: Poll)
        ensures
            final(self).input_mode == old(self).input_mode,
            !old(self).observing ==> final(self).status_message == old(self).status_message
                && !final(self).observing,
            old(self).observing ==> match poll {
                Poll::Empty => final(self).status_message == old(self).status_message
                    && final(self).observing,
                Poll::Closed => final(self).status_message == old(self).status_message
                    && !final(self).observing,
                Poll::Received(m) => if m == StatusMessage::Cleared {
                    final(self).status_message is None && !final(self).observing
                } else {
                    final(self).status_message == Some(m) && final(self).observing
                },
            },
    {
        if !self.observing {
            return;
        }
        match poll {
            Poll::Empty => {},
            Poll::Closed => {
                self.observing = false;
            },
            Poll::Received(StatusMessage::Cleared) => {
                self.status_message = None;
                self.observing = false;
            },
            Poll::Received(m) => {
                self.status_message = Some(m);
            },
        }
    }
}

} // verus!
