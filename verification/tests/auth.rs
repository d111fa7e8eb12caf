use tj2::db::ids::UserId;
use tj2::router::auth::{
    logout_deletes, InviteState, LoginFailed, LoginPage, LoginQuery, LoginResult, LoginStatus,
    LogoutSession, RegisterBody, RegisterError, SessionLookup,
};
use tj2::router::handles::login::{
    login_outcome, LoginError, LoginResult as NewLoginResult, LoginSession, LoginSessionOptions,
    SessionStep,
};

#[test]
fn login_results() {
    assert_eq!(LoginResult::decide(false, true), LoginResult::Failed(LoginFailed::UsernameNotFound));
    assert_eq!(LoginResult::decide(true, false), LoginResult::Failed(LoginFailed::InvalidPassword));
    assert_eq!(LoginResult::decide(true, true), LoginResult::Success);
    assert_eq!(LoginResult::Success.status(), 200);
    assert_eq!(LoginResult::Failed(LoginFailed::UsernameNotFound).status(), 404);
    assert_eq!(LoginResult::Failed(LoginFailed::InvalidPassword).status(), 403);
}

#[test]
fn login_query_prev() {
    let q = LoginQuery { prev: Some(String::from("%2Fjournals%3Fa%3D1")) };
    assert_eq!(q.get_prev(), Some(String::from("/journals?a=1")));
    let q = LoginQuery { prev: Some(String::from("%C3%28")) };
    assert_eq!(q.get_prev(), None);
    let q = LoginQuery { prev: None };
    assert_eq!(q.get_prev(), None);
}

#[test]
fn login_page_answers() {
    let q = LoginQuery { prev: Some(String::from("%2Fhome")) };
    assert!(matches!(LoginPage::decide(true, SessionLookup::Found, &q), LoginPage::Redirect(ref t) if t == "/home"));
    let none = LoginQuery { prev: None };
    assert!(matches!(LoginPage::decide(true, SessionLookup::Found, &none), LoginPage::Redirect(ref t) if t == "/"));
    assert!(matches!(LoginPage::decide(true, SessionLookup::Invalid, &q), LoginPage::App));
    assert!(matches!(LoginPage::decide(true, SessionLookup::DbFailed, &q), LoginPage::App));
    assert!(matches!(LoginPage::decide(false, SessionLookup::Found, &q), LoginPage::Check(c) if c.status == LoginStatus::Active));
    assert!(matches!(LoginPage::decide(false, SessionLookup::Invalid, &q), LoginPage::Check(c) if c.status == LoginStatus::Inactive));
    assert!(matches!(LoginPage::decide(false, SessionLookup::DbFailed, &q), LoginPage::Fail));
}

fn body(password: &str, confirm: &str) -> RegisterBody {
    RegisterBody {
        token: String::from("t"),
        username: String::from("u"),
        password: password.to_string(),
        confirm: confirm.to_string(),
    }
}

#[test]
fn registration_checks() {
    let ok = InviteState { pending: true, expired: false };
    assert!(RegisterError::check(Some(ok), &body("pw", "pw")).is_ok());
    assert!(matches!(RegisterError::check(None, &body("pw", "pw")), Err(RegisterError::InviteNotFound)));
    assert!(matches!(
        RegisterError::check(Some(InviteState { pending: false, expired: true }), &body("pw", "pw")),
        Err(RegisterError::InviteUsed)
    ));
    assert!(matches!(
        RegisterError::check(Some(InviteState { pending: true, expired: true }), &body("pw", "pw")),
        Err(RegisterError::InviteExpired)
    ));
    assert!(matches!(RegisterError::check(Some(ok), &body("pw", "px")), Err(RegisterError::InvalidConfirm)));
    assert_eq!(RegisterError::InviteNotFound.status(), 404);
    assert_eq!(RegisterError::InvalidConfirm.status(), 400);
    assert_eq!(RegisterError::UsernameExists.status(), 400);
}

#[test]
fn logout_sessions() {
    assert_eq!(logout_deletes(LogoutSession::Known), Some(true));
    assert_eq!(logout_deletes(LogoutSession::Unknown), Some(false));
    assert_eq!(logout_deletes(LogoutSession::DbFailed), None);
}

#[test]
fn login_session_steps() {
    assert_eq!(SessionStep::decide(LoginSession::Authenticated), SessionStep::Refuse(LoginError::AlreadyAuthenticated));
    assert_eq!(SessionStep::decide(LoginSession::NoSession), SessionStep::Proceed { delete_session: false });
    assert_eq!(SessionStep::decide(LoginSession::Unverified), SessionStep::Proceed { delete_session: true });
    assert_eq!(SessionStep::decide(LoginSession::DbFailed), SessionStep::Fail);
    assert_eq!(SessionStep::decide(LoginSession::Invalid), SessionStep::Refuse(LoginError::InvalidSession));
}

#[test]
fn login_outcomes() {
    let id = UserId::new(7).unwrap();
    assert!(matches!(login_outcome(None, true, false), Err(LoginError::UsernameNotFound)));
    assert!(matches!(login_outcome(Some((id, String::from("ann"))), false, false), Err(LoginError::InvalidPassword)));
    let (opts, result) = login_outcome(Some((id, String::from("ann"))), true, true).unwrap();
    assert_eq!(opts, LoginSessionOptions { user: id, authenticated: true, verified: false });
    assert!(matches!(result, NewLoginResult::Verify));
    let (opts, result) = login_outcome(Some((id, String::from("ann"))), true, false).unwrap();
    assert!(opts.verified);
    assert!(matches!(result, NewLoginResult::Success { id: rid, ref username } if rid == id && username == "ann"));
}

#[test]
fn login_error_statuses_and_names() {
    assert_eq!(LoginError::AlreadyAuthenticated.status(), 400);
    assert_eq!(LoginError::UsernameNotFound.status(), 404);
    assert_eq!(LoginError::InvalidPassword.status(), 403);
    assert_eq!(LoginError::InvalidSession.status(), 403);
    assert_eq!(LoginError::InvalidSession.as_str(), "InvalidSession");
}
