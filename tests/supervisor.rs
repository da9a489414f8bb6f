use lemurs::post_login::{
    post_login_env_start, EnvironmentStartError, Phase, PostLoginEnvironment, SupervisorAction,
};

fn x_session() -> PostLoginEnvironment {
    PostLoginEnvironment::X { xinitrc_path: String::from("/etc/lemurs/wms/i3") }
}

#[test]
fn normal_session_runs_and_tears_down_in_order() {
    let mut s = x_session().start(2);
    assert_eq!(s.pending(), SupervisorAction::ApplyEnvironment);
    let mut actions = Vec::new();
    for _ in 0..9 {
        actions.push(s.step(true));
    }
    assert_eq!(
        actions,
        vec![
            SupervisorAction::BindInbox,
            SupervisorAction::StartDisplayServer,
            SupervisorAction::StartDesktop,
            SupervisorAction::AwaitLogout,
            SupervisorAction::SwitchTerminal(2),
            SupervisorAction::StopDesktop,
            SupervisorAction::StopDisplayServer,
            SupervisorAction::InvalidateCredentials,
            SupervisorAction::Finish,
        ]
    );
    assert_eq!(s.outcome(), Some(Ok(())));
}

#[test]
fn desktop_failure_stops_display_server() {
    let mut s = x_session().start(2);
    s.step(true);
    s.step(true);
    s.step(true);
    assert_eq!(s.step(false), SupervisorAction::StopDisplayServer);
    assert_eq!(s.outcome(), None);
    assert_eq!(s.step(false), SupervisorAction::InvalidateCredentials);
    assert_eq!(s.step(true), SupervisorAction::Finish);
    assert_eq!(s.outcome(), Some(Err(EnvironmentStartError::XStartEnvError)));
}

#[test]
fn display_failure_tears_down_nothing() {
    let mut s = x_session().start(1);
    s.step(true);
    s.step(true);
    assert_eq!(s.step(false), SupervisorAction::InvalidateCredentials);
    assert_eq!(s.step(true), SupervisorAction::Finish);
    assert_eq!(s.outcome(), Some(Err(EnvironmentStartError::XSetupError)));
}

#[test]
fn inbox_failure_is_distinct() {
    let mut s = x_session().start(1);
    s.step(true);
    assert_eq!(s.step(false), SupervisorAction::InvalidateCredentials);
    s.step(true);
    assert_eq!(s.outcome(), Some(Err(EnvironmentStartError::OpenInbox)));
}

#[test]
fn environment_failure_is_distinct() {
    let mut s = x_session().start(1);
    assert_eq!(s.step(false), SupervisorAction::InvalidateCredentials);
    s.step(true);
    assert_eq!(s.outcome(), Some(Err(EnvironmentStartError::SetEnvironment)));
}

#[test]
fn failed_wait_still_tears_down() {
    let mut s = x_session().start(3);
    for _ in 0..4 {
        s.step(true);
    }
    assert_eq!(s.step(false), SupervisorAction::SwitchTerminal(3));
    assert_eq!(s.step(false), SupervisorAction::StopDesktop);
    assert_eq!(s.step(false), SupervisorAction::StopDisplayServer);
    assert_eq!(s.step(false), SupervisorAction::InvalidateCredentials);
    assert_eq!(s.step(false), SupervisorAction::Finish);
    assert_eq!(s.outcome(), Some(Err(EnvironmentStartError::HandleLogout)));
}

#[test]
fn unsupported_kinds_fail_explicitly() {
    let wayland = PostLoginEnvironment::Wayland { script_path: String::from("/w") };
    for env in [wayland, PostLoginEnvironment::Shell] {
        let mut s = post_login_env_start(&env, 1);
        assert_eq!(s.phase, Phase::Invalidating(Some(EnvironmentStartError::NotSupported)));
        assert_eq!(s.pending(), SupervisorAction::InvalidateCredentials);
        assert_eq!(s.step(true), SupervisorAction::Finish);
        assert_eq!(s.outcome(), Some(Err(EnvironmentStartError::NotSupported)));
    }
}

#[test]
fn finished_session_stays_finished() {
    let mut s = x_session().start(1);
    s.step(false);
    s.step(true);
    assert_eq!(s.step(true), SupervisorAction::Finish);
    assert_eq!(s.outcome(), Some(Err(EnvironmentStartError::SetEnvironment)));
}
