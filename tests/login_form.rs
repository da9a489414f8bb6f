use lemurs::post_login::EnvironmentStartError;
use lemurs::ui::{
    login, App, InputMode, KeyCode, KeyInput, KeyOutcome, LoginCommand, LoginEvent, Poll,
    StatusLevel, StatusMessage,
};

fn key(code: KeyCode) -> KeyInput {
    KeyInput { code, shift: false }
}

#[test]
fn three_forward_moves_reach_password() {
    let mut m = InputMode::Normal;
    m.next();
    assert_eq!(m, InputMode::WMSelect);
    m.next();
    assert_eq!(m, InputMode::Username);
    m.next();
    assert_eq!(m, InputMode::Password);
    m.next();
    assert_eq!(m, InputMode::Password);
}

#[test]
fn three_backward_moves_reach_normal() {
    let mut m = InputMode::Password;
    m.prev();
    m.prev();
    m.prev();
    assert_eq!(m, InputMode::Normal);
    m.prev();
    assert_eq!(m, InputMode::Normal);
}

#[test]
fn shift_turns_forward_keys_backward() {
    let mut app = App::default();
    app.input_mode = InputMode::Username;
    for code in [KeyCode::Tab, KeyCode::Down] {
        app.input_mode = InputMode::Username;
        assert_eq!(app.handle_key(KeyInput { code, shift: true }), KeyOutcome::Focus);
        assert_eq!(app.input_mode, InputMode::WMSelect);
    }
    assert_eq!(app.handle_key(KeyInput { code: KeyCode::Enter, shift: true }), KeyOutcome::Focus);
    assert_eq!(app.input_mode, InputMode::Normal);
}

#[test]
fn keys_move_focus_and_reach_widgets() {
    let mut app = App::default();
    assert_eq!(app.handle_key(key(KeyCode::Other)), KeyOutcome::Ignored);
    app.handle_key(key(KeyCode::Down));
    assert_eq!(app.handle_key(key(KeyCode::Other)), KeyOutcome::ToWidget(InputMode::WMSelect));
    app.handle_key(key(KeyCode::Tab));
    app.handle_key(key(KeyCode::Enter));
    assert_eq!(app.input_mode, InputMode::Password);
    app.handle_key(key(KeyCode::Up));
    assert_eq!(app.input_mode, InputMode::Username);
    app.handle_key(key(KeyCode::Esc));
    assert_eq!(app.input_mode, InputMode::Normal);
}

#[test]
fn enter_on_password_submits() {
    let mut app = App::default();
    app.input_mode = InputMode::Password;
    assert_eq!(app.handle_key(key(KeyCode::Enter)), KeyOutcome::Submit { abandoned: false });
    assert!(app.observing);
    assert_eq!(app.input_mode, InputMode::Password);
    assert_eq!(app.handle_key(key(KeyCode::Enter)), KeyOutcome::Submit { abandoned: true });
}

#[test]
fn polling_updates_and_forgets() {
    let mut app = App::default();
    app.receive(Poll::Received(StatusMessage::LoggingIn));
    assert_eq!(app.status_message, None);
    app.observing = true;
    app.receive(Poll::Received(StatusMessage::Authenticating));
    assert_eq!(app.status_message, Some(StatusMessage::Authenticating));
    app.receive(Poll::Empty);
    assert!(app.observing);
    app.receive(Poll::Received(StatusMessage::Cleared));
    assert_eq!(app.status_message, None);
    assert!(!app.observing);
    app.observing = true;
    app.receive(Poll::Received(StatusMessage::FailedDesktop));
    app.receive(Poll::Closed);
    assert!(!app.observing);
    assert_eq!(app.status_message, Some(StatusMessage::FailedDesktop));
}

#[test]
fn status_levels() {
    assert_eq!(StatusMessage::level(&StatusMessage::PamError(String::from("x"))), StatusLevel::Error);
    assert_eq!(StatusMessage::level(&StatusMessage::FailedDesktop), StatusLevel::Error);
    assert_eq!(StatusMessage::level(&StatusMessage::FailedGraphicalEnvironment), StatusLevel::Error);
    assert_eq!(StatusMessage::level(&StatusMessage::Authenticating), StatusLevel::Info);
    assert_eq!(StatusMessage::level(&StatusMessage::LoggingIn), StatusLevel::Info);
}

fn start_attempt() -> lemurs::ui::LoginAttempt {
    let (attempt, first) = login(
        String::from("alice"),
        String::from("secret"),
        String::from("/etc/lemurs/wms/i3"),
    );
    assert_eq!(first.notify, Some(StatusMessage::Authenticating));
    assert_eq!(first.command, LoginCommand::Authenticate);
    attempt
}

#[test]
fn refused_credentials_end_with_pam_error() {
    let mut attempt = start_attempt();
    let step = attempt.step(LoginEvent::AuthFailed(String::from("bad password")));
    assert_eq!(step.notify, Some(StatusMessage::PamError(String::from("bad password"))));
    assert_eq!(step.command, LoginCommand::End);
    assert!(attempt.password.is_empty());
    let after = attempt.step(LoginEvent::SessionEnded(Err(EnvironmentStartError::XStartEnvError)));
    assert_eq!(after.notify, None);
    assert_eq!(after.command, LoginCommand::End);
}

#[test]
fn successful_session_is_cleared() {
    let mut attempt = start_attempt();
    let step = attempt.step(LoginEvent::AuthSucceeded);
    assert_eq!(step.notify, Some(StatusMessage::LoggingIn));
    assert_eq!(step.command, LoginCommand::Supervise);
    assert!(attempt.password.is_empty());
    assert_eq!(attempt.initrc_path, "/etc/lemurs/wms/i3");
    let end = attempt.step(LoginEvent::SessionEnded(Ok(())));
    assert_eq!(end.notify, Some(StatusMessage::Cleared));
    assert_eq!(end.command, LoginCommand::End);
}

#[test]
fn session_failures_map_to_statuses() {
    let cases = [
        (EnvironmentStartError::XSetupError, StatusMessage::FailedGraphicalEnvironment),
        (EnvironmentStartError::XStartEnvError, StatusMessage::FailedDesktop),
        (EnvironmentStartError::OpenInbox, StatusMessage::FailedGraphicalEnvironment),
        (EnvironmentStartError::HandleLogout, StatusMessage::Cleared),
    ];
    for (err, status) in cases {
        let mut attempt = start_attempt();
        attempt.step(LoginEvent::AuthSucceeded);
        assert_eq!(attempt.step(LoginEvent::SessionEnded(Err(err))).notify, Some(status));
    }
}

#[test]
fn out_of_order_events_are_ignored() {
    let mut attempt = start_attempt();
    let step = attempt.step(LoginEvent::SessionEnded(Ok(())));
    assert_eq!(step.notify, None);
    assert_eq!(step.command, LoginCommand::Authenticate);
    assert_eq!(attempt.password, "secret");
}
