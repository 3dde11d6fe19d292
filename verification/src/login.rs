use vstd::prelude::*;
use crate::text::opt_text;

verus! {

/// Where the start-up login stands.
#[derive(Clone, Copy, PartialEq, Eq, Debug)]
pub enum LoginPhase {
    /// Nothing has happened yet.
    Start,
    /// Logging in because no session token was stored.
    FirstLogin,
    /// A token is installed; the plan list is being fetched to test it.
    Probing,
    /// The token was refused; logging in again.
    Relogin,
    /// Logged in.
    Finished,
    /// Logging in failed.
    Failed,
}

/// What the outside world reports to the login flow.
#[derive(Debug, PartialEq, Eq)]
pub enum LoginEvent {
    /// The flow is started.
    Begin,
    /// A device-id login returned this session token.
    LoggedIn(String),
    /// A device-id login failed.
    LoginRejected,
    /// The plan list could be fetched with the installed token.
    ProbeSucceeded,
    /// The plan list could not be fetched with the installed token.
    ProbeFailed,
}

/// Which login failed.
#[derive(Clone, Copy, PartialEq, Eq, Debug)]
pub enum LoginFailure {
    /// The login made because no token was stored.
    FirstLogin,
    /// The login made after the probe refused the token.
    Relogin,
}

/// What the flow asks the outside world to do next.
#[derive(Debug, PartialEq, Eq)]
pub enum LoginAction {
    /// Log in with the player id and the device-specific id.
    RequestLogin,
    /// Give the API client this session token, then fetch the plan list.
    InstallAndProbe(String),
    /// Take the session token away from the API client and log in again.
    ClearAndRelogin,
    /// Give the API client this session token; logging in is over and the
    /// second text is the token to announce.
    InstallAndFinish(String, String),
    /// Logging in is over; announce this token.
    Finish(String),
    /// Logging in failed.
    Abort(LoginFailure),
    /// The event does not fit the phase; nothing to do.
    Ignore,
}

/// The start-up login: use the stored session token if there is one, else log
/// in; test the token by fetching the plan list, and log in once more if that
/// fails. The token to announce is the first one used.
pub struct LoginFlow {
    /// The session token kept in the configuration.
    session_token: Option<String>,
    /// The session token the API client holds.
    installed: Option<String>,
    /// The token that the success message names.
    announced: Option<String>,
    phase: LoginPhase,
}

/// The login flow's state with texts in place of strings.
pub struct LoginState {
    pub session_token: Option<Seq<char>>,
    pub installed: Option<Seq<char>>,
    pub announced: Option<Seq<char>>,
    pub phase: LoginPhase,
}

/// A login event with texts in place of strings.
pub enum LoginEventView {
    Begin,
    LoggedIn(Seq<char>),
    LoginRejected,
    ProbeSucceeded,
    ProbeFailed,
}

/// A login action with texts in place of strings.
pub enum LoginActionView {
    RequestLogin,
    InstallAndProbe(Seq<char>),
    ClearAndRelogin,
    InstallAndFinish(Seq<char>, Seq<char>),
    Finish(Seq<char>),
    Abort(LoginFailure),
    Ignore,
}

impl View for LoginFlow {
    type V = LoginState;

    closed spec fn view(&self) -> LoginState {
        LoginState {
            session_token: opt_text(self.session_token),
            installed: opt_text(self.installed),
            announced: opt_text(self.announced),
            phase: self.phase,
        }
    }
}

impl View for LoginEvent {
    type V = LoginEventView;

    open spec fn view(&self) -> LoginEventView {
        match self {
            LoginEvent::Begin => LoginEventView::Begin,
            LoginEvent::LoggedIn(t) => LoginEventView::LoggedIn(t@),
            LoginEvent::LoginRejected => LoginEventView::LoginRejected,
            LoginEvent::ProbeSucceeded => LoginEventView::ProbeSucceeded,
            LoginEvent::ProbeFailed => LoginEventView::ProbeFailed,
        }
    }
}

impl View for LoginAction {
    type V = LoginActionView;

    open spec fn view(&self) -> LoginActionView {
        match self {
            LoginAction::RequestLogin => LoginActionView::RequestLogin,
            LoginAction::InstallAndProbe(t) => LoginActionView::InstallAndProbe(t@),
            LoginAction::ClearAndRelogin => LoginActionView::ClearAndRelogin,
            LoginAction::InstallAndFinish(t, a) => LoginActionView::InstallAndFinish(t@, a@),
            LoginAction::Finish(a) => LoginActionView::Finish(a@),
            LoginAction::Abort(f) => LoginActionView::Abort(*f),
            LoginAction::Ignore => LoginActionView::Ignore,
        }
    }
}

/// The state a flow starts in, given the stored session token.
pub open spec fn initial_login_state(session_token: Option<Seq<char>>) -> LoginState {
    LoginState { session_token, installed: None, announced: None, phase: LoginPhase::Start }
}

/// One step of the login flow: the next state and the action to perform.
pub open spec fn login_step(s: LoginState, e: LoginEventView) -> (LoginState, LoginActionView) {
    match (s.phase, e) {
        (LoginPhase::Start, LoginEventView::Begin) => match s.session_token {
            Some(t) => (
                LoginState { installed: Some(t), announced: Some(t), phase: LoginPhase::Probing, ..s },
                LoginActionView::InstallAndProbe(t),
            ),
            None => (LoginState { phase: LoginPhase::FirstLogin, ..s }, LoginActionView::RequestLogin),
        },
        (LoginPhase::FirstLogin, LoginEventView::LoggedIn(t)) => (
            LoginState {
                session_token: Some(t),
                installed: Some(t),
                announced: Some(t),
                phase: LoginPhase::Probing,
            },
            LoginActionView::InstallAndProbe(t),
        ),
        (LoginPhase::FirstLogin, LoginEventView::LoginRejected) => (
            LoginState { phase: LoginPhase::Failed, ..s },
            LoginActionView::Abort(LoginFailure::FirstLogin),
        ),
        (LoginPhase::Probing, LoginEventView::ProbeSucceeded) => (
            LoginState { phase: LoginPhase::Finished, ..s },
            LoginActionView::Finish(s.announced.unwrap()),
        ),
        (LoginPhase::Probing, LoginEventView::ProbeFailed) => (
            LoginState { installed: None, phase: LoginPhase::Relogin, ..s },
            LoginActionView::ClearAndRelogin,
        ),
        (LoginPhase::Relogin, LoginEventView::LoggedIn(t)) => (
            LoginState { session_token: Some(t), installed: Some(t), phase: LoginPhase::Finished, ..s },
            LoginActionView::InstallAndFinish(t, s.announced.unwrap()),
        ),
        (LoginPhase::Relogin, LoginEventView::LoginRejected) => (
            LoginState { phase: LoginPhase::Failed, ..s },
            LoginActionView::Abort(LoginFailure::Relogin),
        ),
        _ => (s, LoginActionView::Ignore),
    }
}

/// What holds of the flow in every phase: before a token is installed the API
/// client holds none; while probing and once finished it holds exactly the
/// token kept in the configuration; from probing on there is a token to announce.
pub open spec fn login_invariant(s: LoginState) -> bool {
    match s.phase {
        LoginPhase::Start => s.installed is None && s.announced is None,
        LoginPhase::FirstLogin => s.installed is None && s.announced is None && s.session_token is None,
        LoginPhase::Probing => s.installed is Some && s.installed == s.session_token && s.announced is Some,
        LoginPhase::Relogin => s.installed is None && s.announced is Some,
        LoginPhase::Finished => s.installed is Some && s.installed == s.session_token && s.announced is Some,
        LoginPhase::Failed => true,
    }
}

fn clone_opt(s: &Option<String>) -> (r: Option<String>)
    ensures
        r == *s,
{
    match s {
        Some(t) => Some(t.clone()),
        None => None,
    }
}

impl LoginFlow {
    /// A flow that has not started, given the stored session token.
    pub fn new(session_token: Option<String>) -> (f: Self)
        ensures
            f@ == initial_login_state(opt_text(session_token)),
            login_invariant(f@),
    {
        LoginFlow { session_token, installed: None, announced: None, phase: LoginPhase::Start }
    }

    /// Advances the flow by one event and returns the action to perform.
    pub fn step(&mut self, event: LoginEvent) -> (action: LoginAction)
        requires
            login_invariant(old(self)@),
        ensures
            (final(self)@, action@) == login_step(old(self)@, event@),
            login_invariant(final(self)@),
    {
        match (self.phase, event) {
            (LoginPhase::Start, LoginEvent::Begin) => match clone_opt(&self.session_token) {
                Some(t) => {
                    self.installed = Some(t.clone());
                    self.announced = Some(t.clone());
                    self.phase = LoginPhase::Probing;
                    LoginAction::InstallAndProbe(t)
                },
                None => {
                    self.phase = LoginPhase::FirstLogin;
                    LoginAction::RequestLogin
                },
            },
            (LoginPhase::FirstLogin, LoginEvent::LoggedIn(t)) => {
                self.session_token = Some(t.clone());
                self.installed = Some(t.clone());
                self.announced = Some(t.clone());
                self.phase = LoginPhase::Probing;
                LoginAction::InstallAndProbe(t)
            },
            (LoginPhase::FirstLogin, LoginEvent::LoginRejected) => {
                self.phase = LoginPhase::Failed;
                LoginAction::Abort(LoginFailure::FirstLogin)
            },
            (LoginPhase::Probing, LoginEvent::ProbeSucceeded) => {
                self.phase = LoginPhase::Finished;
                match &self.announced {
                    Some(a) => LoginAction::Finish(a.clone()),
                    None => LoginAction::Finish(String::new()),
                }
            },
            (LoginPhase::Probing, LoginEvent::ProbeFailed) => {
                self.installed = None;
                self.phase = LoginPhase::Relogin;
                LoginAction::ClearAndRelogin
            },
            (LoginPhase::Relogin, LoginEvent::LoggedIn(t)) => {
                self.session_token = Some(t.clone());
                self.installed = Some(t.clone());
                self.phase = LoginPhase::Finished;
                match &self.announced {
                    Some(a) => LoginAction::InstallAndFinish(t, a.clone()),
                    None => LoginAction::InstallAndFinish(t, String::new()),
                }
            },
            (LoginPhase::Relogin, LoginEvent::LoginRejected) => {
                self.phase = LoginPhase::Failed;
                LoginAction::Abort(LoginFailure::Relogin)
            },
            _ => LoginAction::Ignore,
        }
    }

    /// The session token to keep in the configuration.
    pub fn session_token(&self) -> (t: Option<&String>)
        ensures
            match t {
                Some(s) => self@.session_token == Some(s@),
                None => self@.session_token is None,
            },
    {
        match &self.session_token {
            Some(s) => Some(s),
            None => None,
        }
    }

    /// Where the flow stands.
    pub fn phase(&self) -> (p: LoginPhase)
        ensures
            p == self@.phase,
    {
        self.phase
    }
}

} // verus!
