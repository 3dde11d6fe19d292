use linkura::login::{LoginAction, LoginEvent, LoginFailure, LoginFlow, LoginPhase};

#[test]
fn stored_token_that_works() {
    let mut f = LoginFlow::new(Some("tok".to_string()));
    assert_eq!(f.phase(), LoginPhase::Start);
    assert_eq!(f.step(LoginEvent::Begin), LoginAction::InstallAndProbe("tok".to_string()));
    assert_eq!(f.step(LoginEvent::ProbeSucceeded), LoginAction::Finish("tok".to_string()));
    assert_eq!(f.phase(), LoginPhase::Finished);
    assert_eq!(f.session_token(), Some(&"tok".to_string()));
}

#[test]
fn no_stored_token_logs_in() {
    let mut f = LoginFlow::new(None);
    assert_eq!(f.step(LoginEvent::Begin), LoginAction::RequestLogin);
    assert_eq!(f.phase(), LoginPhase::FirstLogin);
    assert_eq!(f.step(LoginEvent::LoggedIn("new".to_string())), LoginAction::InstallAndProbe("new".to_string()));
    assert_eq!(f.session_token(), Some(&"new".to_string()));
    assert_eq!(f.step(LoginEvent::ProbeSucceeded), LoginAction::Finish("new".to_string()));
}

#[test]
fn refused_token_is_replaced() {
    let mut f = LoginFlow::new(Some("old".to_string()));
    f.step(LoginEvent::Begin);
    assert_eq!(f.step(LoginEvent::ProbeFailed), LoginAction::ClearAndRelogin);
    assert_eq!(f.phase(), LoginPhase::Relogin);
    assert_eq!(
        f.step(LoginEvent::LoggedIn("fresh".to_string())),
        LoginAction::InstallAndFinish("fresh".to_string(), "old".to_string())
    );
    assert_eq!(f.session_token(), Some(&"fresh".to_string()));
    assert_eq!(f.phase(), LoginPhase::Finished);
}

#[test]
fn login_failures() {
    let mut f = LoginFlow::new(None);
    f.step(LoginEvent::Begin);
    assert_eq!(f.step(LoginEvent::LoginRejected), LoginAction::Abort(LoginFailure::FirstLogin));
    assert_eq!(f.phase(), LoginPhase::Failed);

    let mut f = LoginFlow::new(Some("old".to_string()));
    f.step(LoginEvent::Begin);
    f.step(LoginEvent::ProbeFailed);
    assert_eq!(f.step(LoginEvent::LoginRejected), LoginAction::Abort(LoginFailure::Relogin));
    assert_eq!(f.phase(), LoginPhase::Failed);
}

#[test]
fn finished_login_ignores_events() {
    let mut f = LoginFlow::new(Some("t".to_string()));
    f.step(LoginEvent::Begin);
    f.step(LoginEvent::ProbeSucceeded);
    assert_eq!(f.step(LoginEvent::ProbeFailed), LoginAction::Ignore);
    assert_eq!(f.step(LoginEvent::LoggedIn("x".to_string())), LoginAction::Ignore);
    assert_eq!(f.session_token(), Some(&"t".to_string()));
    assert_eq!(f.phase(), LoginPhase::Finished);
}

#[test]
fn unexpected_events_are_ignored() {
    let mut f = LoginFlow::new(None);
    assert_eq!(f.step(LoginEvent::ProbeSucceeded), LoginAction::Ignore);
    assert_eq!(f.phase(), LoginPhase::Start);
}
