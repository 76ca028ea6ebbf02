//! The publish workflow: which question to ask, which store operation to
//! run and what to tell the user next, given what happened so far.
//!
//! The caller performs each `PublishAction`, reports what came of it as a
//! `PublishEvent`, and hands it to `step` until the action ends the run.

use vstd::prelude::*;
use crate::store_api::{remote_or_default, ClientError, DEFAULT_REMOTE};

verus! {

/// Where the workflow stands.
#[derive(Debug, Clone, Copy, PartialEq, Eq)]
pub enum PublishStage {
    /// The plugin in the current directory is being packaged.
    Packaging,
    /// The user is being asked for their email.
    AwaitingEmail,
    /// The entered email is being saved to the configuration.
    SavingConfig,
    /// The store client is being created.
    OpeningClient,
    /// The credential store is being asked for a session token.
    CheckingLogin,
    /// The user is being asked for their password; `retry` after a publish
    /// attempt that found no session.
    AwaitingPassword { retry: bool },
    /// Logging in.
    LoggingIn { retry: bool },
    /// Uploading the archive.
    Publishing { retry: bool },
    /// Dropping the stored session before logging in again.
    LoggingOut,
    /// The run is over.
    Finished { published: bool },
}

/// The workflow's state: its stage, the store, and the user's email once
/// known.
#[derive(Debug, Clone)]
pub struct PublishState {
    pub stage: PublishStage,
    pub remote: String,
    pub email: Option<String>,
}

impl PublishState {
    /// The email is known from the moment it is no longer asked for until
    /// the run ends.
    pub open spec fn wf(self) -> bool {
        !(self.stage is Packaging || self.stage is AwaitingEmail || self.stage is Finished)
            ==> self.email is Some
    }
}

/// What happened to the last action.
#[derive(Debug)]
pub enum PublishEvent {
    /// Packaging ended; `ok` when the archive was written.
    Packaged { ok: bool },
    /// The user entered an email or a password.
    Entered(String),
    /// The user could not be asked.
    PromptFailed,
    /// The configuration was saved.
    ConfigSaved,
    /// The store client was created, or its credential entry could not be.
    ClientOpened { ok: bool },
    /// Whether a session token is stored.
    LoginChecked { logged_in: bool },
    LoginDone(Result<(), ClientError>),
    PublishDone(Result<(), ClientError>),
    LogoutDone(Result<(), ClientError>),
}

/// What to do next.
#[derive(Debug, Clone)]
pub enum PublishAction {
    /// Package the plugin in the current directory.
    Package,
    PromptEmail,
    SaveConfig { user: String },
    OpenClient { remote: String, email: String },
    CheckLogin,
    PromptPassword,
    /// Log in; without a password, with the stored session token.
    Login { email: String, password: Option<String> },
    Publish,
    Logout,
    /// Stop the program with this exit status.
    Exit { code: i32 },
    /// Stop the program by panicking with this message.
    Abort { message: &'static str },
    /// The run ended normally.
    Done,
}

/// What to tell the user before the next action.
#[derive(Debug, Clone)]
pub enum Notice {
    /// "Publishing plugin..."
    PublishingPlugin,
    /// An empty line.
    Blank,
    /// A required answer or resource is missing; the text says which.
    Missing(&'static str),
    CouldNotLogin(ClientError),
    /// "Publish failed," then "Retrying..."
    PublishFailedRetrying,
    CouldNotRetry(ClientError),
    CouldNotPublish(ClientError),
    /// The success banner with the plugin's name and version.
    Published,
}

/// The result of a step: the new state, what to tell the user, and the
/// next action.
pub struct PublishStep {
    pub state: PublishState,
    pub notices: Vec<Notice>,
    pub action: PublishAction,
}

pub open spec fn with_stage(s: PublishState, stage: PublishStage) -> PublishState {
    PublishState { stage, ..s }
}

pub open spec fn step_view(r: PublishStep) -> (PublishState, Seq<Notice>, PublishAction) {
    (r.state, r.notices@, r.action)
}

/// The start of a run: package the plugin first; the configured email, if
/// any, is kept for later.
pub open spec fn spec_start(user: Option<String>, remote: String) -> (
    PublishState,
    Seq<Notice>,
    PublishAction,
) {
    (
        PublishState { stage: PublishStage::Packaging, remote, email: user },
        Seq::empty(),
        PublishAction::Package,
    )
}

/// The events that each stage waits for.
pub open spec fn awaits(stage: PublishStage, e: PublishEvent) -> bool {
    match stage {
        PublishStage::Packaging => e is Packaged,
        PublishStage::AwaitingEmail => e is Entered || e is PromptFailed,
        PublishStage::SavingConfig => e is ConfigSaved,
        PublishStage::OpeningClient => e is ClientOpened,
        PublishStage::CheckingLogin => e is LoginChecked,
        PublishStage::AwaitingPassword { .. } => e is Entered || e is PromptFailed,
        PublishStage::LoggingIn { .. } => e is LoginDone,
        PublishStage::Publishing { .. } => e is PublishDone,
        PublishStage::LoggingOut => e is LogoutDone,
        PublishStage::Finished { .. } => false,
    }
}

/// Ends the run unsuccessfully.
pub open spec fn fail(s: PublishState, notices: Seq<Notice>, action: PublishAction) -> (
    PublishState,
    Seq<Notice>,
    PublishAction,
) {
    (with_stage(s, PublishStage::Finished { published: false }), notices, action)
}

/// One step of the workflow. After packaging, the email is asked for unless
/// it is configured. An event that the stage does not await ends the run
/// unsuccessfully.
pub open spec fn spec_step(s: PublishState, e: PublishEvent) -> (
    PublishState,
    Seq<Notice>,
    PublishAction,
) {
    match (s.stage, e) {
        (PublishStage::Packaging, PublishEvent::Packaged { ok: true }) => match s.email {
            Some(email) => (
                with_stage(s, PublishStage::OpeningClient),
                seq![Notice::PublishingPlugin, Notice::Blank],
                PublishAction::OpenClient { remote: s.remote, email },
            ),
            None => (
                with_stage(s, PublishStage::AwaitingEmail),
                seq![Notice::PublishingPlugin],
                PublishAction::PromptEmail,
            ),
        },
        (PublishStage::Packaging, PublishEvent::Packaged { ok: false }) => fail(
            s,
            Seq::empty(),
            PublishAction::Exit { code: 1 },
        ),
        (PublishStage::AwaitingEmail, PublishEvent::Entered(email)) => (
            PublishState { stage: PublishStage::SavingConfig, email: Some(email), ..s },
            Seq::empty(),
            PublishAction::SaveConfig { user: email },
        ),
        (PublishStage::AwaitingEmail, PublishEvent::PromptFailed) => fail(
            s,
            Seq::empty(),
            PublishAction::Abort { message: "Email is required" },
        ),
        (PublishStage::SavingConfig, PublishEvent::ConfigSaved) => (
            with_stage(s, PublishStage::OpeningClient),
            seq![Notice::Blank],
            PublishAction::OpenClient { remote: s.remote, email: s.email->0 },
        ),
        (PublishStage::OpeningClient, PublishEvent::ClientOpened { ok: true }) => (
            with_stage(s, PublishStage::CheckingLogin),
            Seq::empty(),
            PublishAction::CheckLogin,
        ),
        (PublishStage::OpeningClient, PublishEvent::ClientOpened { ok: false }) => fail(
            s,
            seq![Notice::Missing("Could not create entry")],
            PublishAction::Exit { code: 1 },
        ),
        (PublishStage::CheckingLogin, PublishEvent::LoginChecked { logged_in: true }) => (
            with_stage(s, PublishStage::LoggingIn { retry: false }),
            Seq::empty(),
            PublishAction::Login { email: s.email->0, password: None },
        ),
        (PublishStage::CheckingLogin, PublishEvent::LoginChecked { logged_in: false }) => (
            with_stage(s, PublishStage::AwaitingPassword { retry: false }),
            Seq::empty(),
            PublishAction::PromptPassword,
        ),
        (PublishStage::AwaitingPassword { retry }, PublishEvent::Entered(password)) => (
            with_stage(s, PublishStage::LoggingIn { retry }),
            seq![Notice::Blank],
            PublishAction::Login { email: s.email->0, password: Some(password) },
        ),
        (PublishStage::AwaitingPassword { retry: false }, PublishEvent::PromptFailed) => fail(
            s,
            Seq::empty(),
            PublishAction::Abort { message: "Password is required" },
        ),
        (PublishStage::AwaitingPassword { retry: true }, PublishEvent::PromptFailed) => fail(
            s,
            seq![Notice::Missing("Password is required")],
            PublishAction::Exit { code: 1 },
        ),
        (PublishStage::LoggingIn { retry }, PublishEvent::LoginDone(Ok(()))) => (
            with_stage(s, PublishStage::Publishing { retry }),
            Seq::empty(),
            PublishAction::Publish,
        ),
        (PublishStage::LoggingIn { .. }, PublishEvent::LoginDone(Err(err))) => fail(
            s,
            seq![Notice::CouldNotLogin(err)],
            PublishAction::Exit { code: 1 },
        ),
        (PublishStage::Publishing { .. }, PublishEvent::PublishDone(Ok(()))) => (
            with_stage(s, PublishStage::Finished { published: true }),
            seq![Notice::Published],
            PublishAction::Done,
        ),
        (
            PublishStage::Publishing { retry: false },
            PublishEvent::PublishDone(Err(ClientError::NotLoggedIn)),
        ) => (
            with_stage(s, PublishStage::LoggingOut),
            seq![Notice::PublishFailedRetrying],
            PublishAction::Logout,
        ),
        (PublishStage::Publishing { .. }, PublishEvent::PublishDone(Err(err))) => fail(
            s,
            seq![Notice::CouldNotPublish(err)],
            PublishAction::Exit { code: 1 },
        ),
        (PublishStage::LoggingOut, PublishEvent::LogoutDone(Ok(()))) => (
            with_stage(s, PublishStage::AwaitingPassword { retry: true }),
            Seq::empty(),
            PublishAction::PromptPassword,
        ),
        (PublishStage::LoggingOut, PublishEvent::LogoutDone(Err(err))) => fail(
            s,
            seq![Notice::CouldNotRetry(err)],
            PublishAction::Exit { code: 1 },
        ),
        _ => fail(s, Seq::empty(), PublishAction::Exit { code: 1 }),
    }
}

fn finish(s: PublishState, notices: Vec<Notice>, action: PublishAction) -> (r: PublishStep)
    ensures
        step_view(r) == fail(s, notices@, action),
{
    PublishStep {
        state: PublishState { stage: PublishStage::Finished { published: false }, ..s },
        notices,
        action,
    }
}

fn advance(s: PublishState, stage: PublishStage, notices: Vec<Notice>, action: PublishAction) -> (r:
    PublishStep)
    ensures
        step_view(r) == (with_stage(s, stage), notices@, action),
{
    PublishStep { state: PublishState { stage, ..s }, notices, action }
}

fn one(n: Notice) -> (r: Vec<Notice>)
    ensures
        r@ == seq![n],
{
    let mut v = Vec::new();
    v.push(n);
    v
}

/// Starts a run for the email configured (if any) and the remote given (if
/// any): the plugin is packaged first.
pub fn start(user: Option<String>, remote: Option<String>) -> (r: PublishStep)
    ensures
        r.state.wf(),
        r.state.remote@ == match remote {
            Some(s) => s@,
            None => DEFAULT_REMOTE@,
        },
        step_view(r) == spec_start(user, r.state.remote),
{
    let remote = remote_or_default(remote);
    PublishStep {
        state: PublishState { stage: PublishStage::Packaging, remote, email: user },
        notices: Vec::new(),
        action: PublishAction::Package,
    }
}

/// Takes the workflow one step further, given what came of the last action.
pub fn step(s: PublishState, e: PublishEvent) -> (r: PublishStep)
    requires
        s.wf(),
    ensures
        step_view(r) == spec_step(s, e),
        r.state.wf(),
{
    match (s.stage, e) {
        (PublishStage::Packaging, PublishEvent::Packaged { ok: true }) => {
            match &s.email {
                Some(email) => {
                    let action = PublishAction::OpenClient {
                        remote: s.remote.clone(),
                        email: email.clone(),
                    };
                    let mut notices = one(Notice::PublishingPlugin);
                    notices.push(Notice::Blank);
                    advance(s, PublishStage::OpeningClient, notices, action)
                },
                None => advance(
                    s,
                    PublishStage::AwaitingEmail,
                    one(Notice::PublishingPlugin),
                    PublishAction::PromptEmail,
                ),
            }
        },
        (PublishStage::Packaging, PublishEvent::Packaged { ok: false }) => finish(
            s,
            Vec::new(),
            PublishAction::Exit { code: 1 },
        ),
        (PublishStage::AwaitingEmail, PublishEvent::Entered(email)) => {
            let action = PublishAction::SaveConfig { user: email.clone() };
            PublishStep {
                state: PublishState { stage: PublishStage::SavingConfig, email: Some(email), ..s },
                notices: Vec::new(),
                action,
            }
        },
        (PublishStage::AwaitingEmail, PublishEvent::PromptFailed) => finish(
            s,
            Vec::new(),
            PublishAction::Abort { message: "Email is required" },
        ),
        (PublishStage::SavingConfig, PublishEvent::ConfigSaved) => {
            let action = PublishAction::OpenClient {
                remote: s.remote.clone(),
                email: email_of(&s),
            };
            advance(s, PublishStage::OpeningClient, one(Notice::Blank), action)
        },
        (PublishStage::OpeningClient, PublishEvent::ClientOpened { ok: true }) => advance(
            s,
            PublishStage::CheckingLogin,
            Vec::new(),
            PublishAction::CheckLogin,
        ),
        (PublishStage::OpeningClient, PublishEvent::ClientOpened { ok: false }) => finish(
            s,
            one(Notice::Missing("Could not create entry")),
            PublishAction::Exit { code: 1 },
        ),
        (PublishStage::CheckingLogin, PublishEvent::LoginChecked { logged_in: true }) => {
            let action = PublishAction::Login { email: email_of(&s), password: None };
            advance(s, PublishStage::LoggingIn { retry: false }, Vec::new(), action)
        },
        (PublishStage::CheckingLogin, PublishEvent::LoginChecked { logged_in: false }) => advance(
            s,
            PublishStage::AwaitingPassword { retry: false },
            Vec::new(),
            PublishAction::PromptPassword,
        ),
        (PublishStage::AwaitingPassword { retry }, PublishEvent::Entered(password)) => {
            let action = PublishAction::Login { email: email_of(&s), password: Some(password) };
            advance(s, PublishStage::LoggingIn { retry }, one(Notice::Blank), action)
        },
        (PublishStage::AwaitingPassword { retry: false }, PublishEvent::PromptFailed) => finish(
            s,
            Vec::new(),
            PublishAction::Abort { message: "Password is required" },
        ),
        (PublishStage::AwaitingPassword { retry: true }, PublishEvent::PromptFailed) => finish(
            s,
            one(Notice::Missing("Password is required")),
            PublishAction::Exit { code: 1 },
        ),
        (PublishStage::LoggingIn { retry }, PublishEvent::LoginDone(Ok(()))) => advance(
            s,
            PublishStage::Publishing { retry },
            Vec::new(),
            PublishAction::Publish,
        ),
        (PublishStage::LoggingIn { .. }, PublishEvent::LoginDone(Err(err))) => finish(
            s,
            one(Notice::CouldNotLogin(err)),
            PublishAction::Exit { code: 1 },
        ),
        (PublishStage::Publishing { .. }, PublishEvent::PublishDone(Ok(()))) => advance(
            s,
            PublishStage::Finished { published: true },
            one(Notice::Published),
            PublishAction::Done,
        ),
        (
            PublishStage::Publishing { retry: false },
            PublishEvent::PublishDone(Err(ClientError::NotLoggedIn)),
        ) => advance(
            s,
            PublishStage::LoggingOut,
            one(Notice::PublishFailedRetrying),
            PublishAction::Logout,
        ),
        (PublishStage::Publishing { .. }, PublishEvent::PublishDone(Err(err))) => finish(
            s,
            one(Notice::CouldNotPublish(err)),
            PublishAction::Exit { code: 1 },
        ),
        (PublishStage::LoggingOut, PublishEvent::LogoutDone(Ok(()))) => advance(
            s,
            PublishStage::AwaitingPassword { retry: true },
            Vec::new(),
            PublishAction::PromptPassword,
        ),
        (PublishStage::LoggingOut, PublishEvent::LogoutDone(Err(err))) => finish(
            s,
            one(Notice::CouldNotRetry(err)),
            PublishAction::Exit { code: 1 },
        ),
        _ => finish(s, Vec::new(), PublishAction::Exit { code: 1 }),
    }
}

fn email_of(s: &PublishState) -> (r: String)
    requires
        s.email is Some,
    ensures
        r == s.email->0,
{
    match &s.email {
        Some(e) => e.clone(),
        None => String::new(),
    }
}

/// An upper bound on the steps left before a run from `stage` ends.
pub open spec fn steps_left(stage: PublishStage) -> nat {
    match stage {
        PublishStage::Packaging => 12,
        PublishStage::AwaitingEmail => 11,
        PublishStage::SavingConfig => 10,
        PublishStage::OpeningClient => 9,
        PublishStage::CheckingLogin => 8,
        PublishStage::AwaitingPassword { retry: false } => 7,
        PublishStage::LoggingIn { retry: false } => 6,
        PublishStage::Publishing { retry: false } => 5,
        PublishStage::LoggingOut => 4,
        PublishStage::AwaitingPassword { retry: true } => 3,
        PublishStage::LoggingIn { retry: true } => 2,
        PublishStage::Publishing { retry: true } => 1,
        PublishStage::Finished { .. } => 0,
    }
}

/// Every step gets closer to the end, and a finished run awaits nothing: a
/// run ends after at most twelve steps.
pub proof fn publish_run_ends(s: PublishState, e: PublishEvent)
    requires
        awaits(s.stage, e),
    ensures
        steps_left(spec_step(s, e).0.stage) < steps_left(s.stage),
        steps_left(s.stage) <= 12,
        forall|f: PublishEvent| !awaits(PublishStage::Finished { published: false }, f),
        forall|f: PublishEvent| !awaits(PublishStage::Finished { published: true }, f),
{
}

/// An event that the stage does not await ends the run unsuccessfully,
/// without telling the user anything more.
pub proof fn publish_fails_on_unexpected_events(s: PublishState, e: PublishEvent)
    requires
        !awaits(s.stage, e),
    ensures
        spec_step(s, e) == fail(s, Seq::empty(), PublishAction::Exit { code: 1 }),
{
}

/// The actions of a run from `s` that is fed the events `es`, up to the
/// first event that the run does not await.
pub open spec fn run(s: PublishState, es: Seq<PublishEvent>) -> (PublishState, Seq<PublishAction>)
    decreases es.len(),
{
    if es.len() == 0 || !awaits(s.stage, es[0]) {
        (s, Seq::empty())
    } else {
        let next = spec_step(s, es[0]);
        let rest = run(next.0, es.drop_first());
        (rest.0, seq![next.2] + rest.1)
    }
}

/// How many uploads a sequence of actions starts.
pub open spec fn uploads(actions: Seq<PublishAction>) -> nat
    decreases actions.len(),
{
    if actions.len() == 0 {
        0
    } else {
        (if actions[0] is Publish {
            1nat
        } else {
            0nat
        }) + uploads(actions.drop_first())
    }
}

/// How many more uploads a run from `stage` may start.
pub open spec fn uploads_left(stage: PublishStage) -> nat {
    match stage {
        PublishStage::Publishing { retry: true } => 0,
        PublishStage::Finished { .. } => 0,
        PublishStage::Publishing { retry: false } => 1,
        PublishStage::LoggingOut => 1,
        PublishStage::AwaitingPassword { retry: true } => 1,
        PublishStage::LoggingIn { retry: true } => 1,
        _ => 2,
    }
}

proof fn lemma_uploads_bounded(s: PublishState, es: Seq<PublishEvent>)
    ensures
        uploads(run(s, es).1) <= uploads_left(s.stage),
    decreases es.len(),
{
    if es.len() > 0 && awaits(s.stage, es[0]) {
        let next = spec_step(s, es[0]);
        lemma_uploads_bounded(next.0, es.drop_first());
        let acts = run(s, es).1;
        assert(acts.drop_first() =~= run(next.0, es.drop_first()).1);
    }
}

/// A run uploads the plugin at most twice, whatever happens: once, and once
/// more only after the first upload found no session and the user logged in
/// again.
pub proof fn publish_uploads_at_most_twice(
    user: Option<String>,
    remote: String,
    es: Seq<PublishEvent>,
)
    ensures
        uploads(run(spec_start(user, remote).0, es).1) <= 2,
{
    lemma_uploads_bounded(spec_start(user, remote).0, es);
}

/// The plugin is uploaded only right after a successful login, the run
/// reports success only right after the store accepted the upload, and the
/// one retry follows only a first upload that found no session.
pub proof fn publish_step_order(s: PublishState, e: PublishEvent)
    ensures
        (spec_step(s, e).2 is Publish) ==> (s.stage is LoggingIn && e is LoginDone && (
        e->LoginDone_0 is Ok)),
        (spec_step(s, e).2 is Done || spec_step(s, e).0.stage == (PublishStage::Finished {
            published: true,
        })) ==> (s.stage is Publishing && e is PublishDone && (e->PublishDone_0 is Ok)),
        (spec_step(s, e).0.stage is LoggingOut) ==> (s.stage == (PublishStage::Publishing {
            retry: false,
        }) && e == PublishEvent::PublishDone(Err(ClientError::NotLoggedIn))),
{
}

/// The plugin is packaged before anything else: a run starts with
/// packaging, a failed packaging ends it with nothing asked or sent, and
/// after packaging the next action is asking for the email or opening the
/// store client.
pub proof fn publish_packages_first(user: Option<String>, remote: String, e: PublishEvent)
    ensures
        spec_start(user, remote).2 is Package,
        spec_start(user, remote).1.len() == 0,
        ({
            let s = spec_start(user, remote).0;
            let next = spec_step(s, e);
            &&& e != (PublishEvent::Packaged { ok: true }) ==> next == fail(
                s,
                Seq::empty(),
                PublishAction::Exit { code: 1 },
            )
            &&& e == (PublishEvent::Packaged { ok: true }) ==> (next.2 is PromptEmail
                || next.2 is OpenClient)
        }),
{
}

/// After packaging, the email is asked for exactly when none is configured,
/// and the entered email is what gets saved and used from then on.
pub proof fn publish_email_source(user: Option<String>, remote: String, entered: String)
    ensures
        ({
            let s = spec_start(user, remote).0;
            let next = spec_step(s, PublishEvent::Packaged { ok: true });
            &&& (next.2 is PromptEmail) <==> user is None
            &&& user matches Some(u) ==> (next.0.email == Some(u)
                && next.2 == (PublishAction::OpenClient { remote, email: u }))
        }),
        ({
            let s = spec_step(spec_start(None, remote).0, PublishEvent::Packaged { ok: true }).0;
            let next = spec_step(s, PublishEvent::Entered(entered));
            next.2 == (PublishAction::SaveConfig { user: entered }) && next.0.email == Some(entered)
        }),
{
}

/// Once known, the email stays the same, and the store client and every
/// login use it.
pub proof fn publish_email_is_kept(s: PublishState, e: PublishEvent)
    requires
        s.wf(),
        !(s.stage is AwaitingEmail),
        awaits(s.stage, e),
    ensures
        spec_step(s, e).0.email == s.email,
        (spec_step(s, e).2 is Login) ==> spec_step(s, e).2->Login_email == s.email->0,
        (spec_step(s, e).2 is OpenClient) ==> spec_step(s, e).2->OpenClient_email == s.email->0,
{
}

/// A stored session is used as it is: when the credential store holds a
/// token, logging in sends no password and the user is not asked for one.
pub proof fn publish_reuses_session(s: PublishState)
    requires
        s.stage == PublishStage::CheckingLogin,
    ensures
        (spec_step(s, PublishEvent::LoginChecked { logged_in: true }).2 is Login),
        (spec_step(s, PublishEvent::LoginChecked { logged_in: true }).2->Login_password is None),
        (spec_step(s, PublishEvent::LoginChecked { logged_in: false }).2 is PromptPassword),
{
}

/// Whenever a password is entered, at the first prompt or at the one after
/// a lost session, the next action logs in with the run's email and exactly
/// that password.
pub proof fn publish_logs_in_with_entered_password(s: PublishState, password: String)
    requires
        s.wf(),
        s.stage is AwaitingPassword,
    ensures
        spec_step(s, PublishEvent::Entered(password)).2 == (PublishAction::Login {
            email: s.email->0,
            password: Some(password),
        }),
        spec_step(s, PublishEvent::Entered(password)).0.stage is LoggingIn,
{
}

} // verus!
