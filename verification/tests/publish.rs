use plugin_cli::publish::{start, step, Notice, PublishAction, PublishEvent, PublishStage, PublishStep};
use plugin_cli::store_api::ClientError;

fn drive(user: Option<&str>, events: Vec<PublishEvent>) -> (Vec<PublishAction>, PublishStep) {
    let first = start(user.map(|u| u.to_string()), None);
    assert!(matches!(first.action, PublishAction::Package));
    let mut cur = step(first.state, PublishEvent::Packaged { ok: true });
    let mut actions = vec![cur.action.clone()];
    for e in events {
        cur = step(cur.state.clone(), e);
        actions.push(cur.action.clone());
    }
    (actions, cur)
}

fn uploads(actions: &[PublishAction]) -> usize {
    actions.iter().filter(|a| matches!(a, PublishAction::Publish)).count()
}

#[test]
fn configured_user_with_stored_session() {
    let (actions, last) = drive(
        Some("ann@example.org"),
        vec![
            PublishEvent::ClientOpened { ok: true },
            PublishEvent::LoginChecked { logged_in: true },
            PublishEvent::LoginDone(Ok(())),
            PublishEvent::PublishDone(Ok(())),
        ],
    );
    match &actions[0] {
        PublishAction::OpenClient { remote, email } => {
            assert_eq!(remote, "http://localhost:5000");
            assert_eq!(email, "ann@example.org");
        }
        other => panic!("{other:?}"),
    }
    assert!(matches!(actions[1], PublishAction::CheckLogin));
    match &actions[2] {
        PublishAction::Login { email, password } => {
            assert_eq!(email, "ann@example.org");
            assert!(password.is_none());
        }
        other => panic!("{other:?}"),
    }
    assert!(matches!(actions[3], PublishAction::Publish));
    assert!(matches!(actions[4], PublishAction::Done));
    assert_eq!(last.state.stage, PublishStage::Finished { published: true });
    assert!(matches!(last.notices[..], [Notice::Published]));
}

#[test]
fn first_run_asks_and_saves_email() {
    let packaging = start(None, Some("https://store.example".to_string()));
    let first = step(packaging.state, PublishEvent::Packaged { ok: true });
    assert!(matches!(first.action, PublishAction::PromptEmail));
    assert!(matches!(first.notices[..], [Notice::PublishingPlugin]));
    let next = step(first.state, PublishEvent::Entered("bob@example.org".to_string()));
    match &next.action {
        PublishAction::SaveConfig { user } => assert_eq!(user, "bob@example.org"),
        other => panic!("{other:?}"),
    }
    let next = step(next.state, PublishEvent::ConfigSaved);
    assert!(matches!(next.notices[..], [Notice::Blank]));
    match &next.action {
        PublishAction::OpenClient { remote, email } => {
            assert_eq!(remote, "https://store.example");
            assert_eq!(email, "bob@example.org");
        }
        other => panic!("{other:?}"),
    }
}

#[test]
fn email_prompt_failure_aborts() {
    let packaging = start(None, None);
    let first = step(packaging.state, PublishEvent::Packaged { ok: true });
    let next = step(first.state, PublishEvent::PromptFailed);
    assert!(matches!(next.action, PublishAction::Abort { message: "Email is required" }));
}

#[test]
fn password_asked_without_session() {
    let (actions, _) = drive(
        Some("a@b"),
        vec![
            PublishEvent::ClientOpened { ok: true },
            PublishEvent::LoginChecked { logged_in: false },
            PublishEvent::Entered("secret".to_string()),
        ],
    );
    assert!(matches!(actions[2], PublishAction::PromptPassword));
    match &actions[3] {
        PublishAction::Login { password, .. } => assert_eq!(password.as_deref(), Some("secret")),
        other => panic!("{other:?}"),
    }
}

#[test]
fn missing_credential_entry_exits() {
    let (actions, last) = drive(Some("a@b"), vec![PublishEvent::ClientOpened { ok: false }]);
    assert!(matches!(actions[1], PublishAction::Exit { code: 1 }));
    assert!(matches!(last.notices[..], [Notice::Missing("Could not create entry")]));
}

#[test]
fn failed_login_exits() {
    let (actions, last) = drive(
        Some("a@b"),
        vec![
            PublishEvent::ClientOpened { ok: true },
            PublishEvent::LoginChecked { logged_in: true },
            PublishEvent::LoginDone(Err(ClientError::LoginFailed)),
        ],
    );
    assert!(matches!(actions[3], PublishAction::Exit { code: 1 }));
    assert!(matches!(last.notices[..], [Notice::CouldNotLogin(ClientError::LoginFailed)]));
    assert_eq!(last.state.stage, PublishStage::Finished { published: false });
}

#[test]
fn lost_session_is_retried_once() {
    let (actions, last) = drive(
        Some("a@b"),
        vec![
            PublishEvent::ClientOpened { ok: true },
            PublishEvent::LoginChecked { logged_in: true },
            PublishEvent::LoginDone(Ok(())),
            PublishEvent::PublishDone(Err(ClientError::NotLoggedIn)),
            PublishEvent::LogoutDone(Ok(())),
            PublishEvent::Entered("pw".to_string()),
            PublishEvent::LoginDone(Ok(())),
            PublishEvent::PublishDone(Err(ClientError::NotLoggedIn)),
        ],
    );
    assert!(matches!(actions[4], PublishAction::Logout));
    assert!(matches!(actions[5], PublishAction::PromptPassword));
    assert!(matches!(actions[7], PublishAction::Publish));
    assert!(matches!(actions[8], PublishAction::Exit { code: 1 }));
    assert_eq!(uploads(&actions), 2);
    assert!(matches!(last.notices[..], [Notice::CouldNotPublish(ClientError::NotLoggedIn)]));
}

#[test]
fn retry_password_failure_exits_softly() {
    let (actions, last) = drive(
        Some("a@b"),
        vec![
            PublishEvent::ClientOpened { ok: true },
            PublishEvent::LoginChecked { logged_in: true },
            PublishEvent::LoginDone(Ok(())),
            PublishEvent::PublishDone(Err(ClientError::NotLoggedIn)),
            PublishEvent::LogoutDone(Ok(())),
            PublishEvent::PromptFailed,
        ],
    );
    assert!(matches!(actions[6], PublishAction::Exit { code: 1 }));
    assert!(matches!(last.notices[..], [Notice::Missing("Password is required")]));
}

#[test]
fn failed_logout_exits() {
    let (actions, last) = drive(
        Some("a@b"),
        vec![
            PublishEvent::ClientOpened { ok: true },
            PublishEvent::LoginChecked { logged_in: true },
            PublishEvent::LoginDone(Ok(())),
            PublishEvent::PublishDone(Err(ClientError::NotLoggedIn)),
            PublishEvent::LogoutDone(Err(ClientError::NotLoggedIn)),
        ],
    );
    assert!(matches!(actions[5], PublishAction::Exit { code: 1 }));
    assert!(matches!(last.notices[..], [Notice::CouldNotRetry(_)]));
}

#[test]
fn other_publish_errors_are_not_retried() {
    let (actions, last) = drive(
        Some("a@b"),
        vec![
            PublishEvent::ClientOpened { ok: true },
            PublishEvent::LoginChecked { logged_in: true },
            PublishEvent::LoginDone(Ok(())),
            PublishEvent::PublishDone(Err(ClientError::InvalidCredentials)),
        ],
    );
    assert!(matches!(actions[4], PublishAction::Exit { code: 1 }));
    assert_eq!(uploads(&actions), 1);
    assert!(matches!(last.notices[..], [Notice::CouldNotPublish(ClientError::InvalidCredentials)]));
}

#[test]
fn first_password_prompt_failure_aborts() {
    let (actions, _) = drive(
        Some("a@b"),
        vec![
            PublishEvent::ClientOpened { ok: true },
            PublishEvent::LoginChecked { logged_in: false },
            PublishEvent::PromptFailed,
        ],
    );
    assert!(matches!(actions[3], PublishAction::Abort { message: "Password is required" }));
}

#[test]
fn unexpected_event_ends_the_run() {
    let first = start(Some("a@b".to_string()), None);
    let next = step(first.state.clone(), PublishEvent::ConfigSaved);
    assert_eq!(next.state.stage, PublishStage::Finished { published: false });
    assert!(next.notices.is_empty());
    assert!(matches!(next.action, PublishAction::Exit { code: 1 }));
}

#[test]
fn packaging_comes_first() {
    let first = start(Some("a@b".to_string()), None);
    assert_eq!(first.state.stage, PublishStage::Packaging);
    assert!(first.notices.is_empty());
    assert!(matches!(first.action, PublishAction::Package));
    let next = step(first.state, PublishEvent::Packaged { ok: true });
    assert!(matches!(next.notices[..], [Notice::PublishingPlugin, Notice::Blank]));
    assert!(matches!(next.action, PublishAction::OpenClient { .. }));
}

#[test]
fn failed_packaging_asks_and_sends_nothing() {
    let first = start(None, None);
    let next = step(first.state, PublishEvent::Packaged { ok: false });
    assert_eq!(next.state.stage, PublishStage::Finished { published: false });
    assert!(next.notices.is_empty());
    assert!(matches!(next.action, PublishAction::Exit { code: 1 }));
}
