//! Getting hold of a credential when a run starts: the stored one where the
//! store has it, else the first grant, step by step.
//!
//! The steps decide; whoever drives them shows the address to the human,
//! reads the code, sends the call and writes the record, and reports back.

use crate::auth::{
    accept_bootstrap, authorization_address, authorization_url, bootstrap_outcome, exchange_call,
    exchange_request,
};
use crate::config::{Config, ConfigView};
use crate::credential::{Credential, CredentialView};
use crate::outcome::{Failure, Reply};
use crate::request::{Request, RequestView};
use vstd::prelude::*;

verus! {

/// What the credential store held when it was read.
#[derive(Clone, Debug, PartialEq, Eq)]
pub enum Stored {
    /// No record.
    Missing,
    /// A record that cannot be read as a credential.
    Unreadable,
    /// This credential.
    Record(Credential),
}

/// What the store held, as plain values.
pub enum StoredView {
    Missing,
    Unreadable,
    Record(CredentialView),
}

impl View for Stored {
    type V = StoredView;

    open spec fn view(&self) -> StoredView {
        match self {
            Stored::Missing => StoredView::Missing,
            Stored::Unreadable => StoredView::Unreadable,
            Stored::Record(c) => StoredView::Record(c@),
        }
    }
}

/// Where a login stands.
#[derive(Clone, Copy, Debug, PartialEq, Eq, Structural)]
pub enum LoginStage {
    /// The human has the address and owes the authorization code.
    AwaitingCode,
    /// The code is with the token endpoint.
    AwaitingGrant,
    /// The granted credential is being written to the store.
    AwaitingSave,
    /// A credential was handed out.
    Ready,
    /// The login failed.
    Failed,
}

/// A login under way.
#[derive(Clone, Debug, PartialEq, Eq)]
pub struct Login {
    pub config: Config,
    pub stage: LoginStage,
    /// The granted credential while it is being written.
    pub granted: Option<Credential>,
}

/// A login as plain values.
pub struct LoginView {
    pub config: ConfigView,
    pub stage: LoginStage,
    pub granted: Option<CredentialView>,
}

impl View for Login {
    type V = LoginView;

    open spec fn view(&self) -> LoginView {
        LoginView {
            config: self.config@,
            stage: self.stage,
            granted: match self.granted {
                Some(c) => Some(c@),
                None => None,
            },
        }
    }
}

/// What happened outside since the last action.
#[derive(Debug, PartialEq, Eq)]
pub enum LoginEvent {
    /// The human typed this authorization code.
    Code(String),
    /// The token endpoint replied to the exchange.
    Granted(Reply<Credential>),
    /// The store was written (`true`) or refused the write.
    Saved(bool),
}

/// An event as plain values.
pub enum LoginEventView {
    Code(Seq<char>),
    Granted(Reply<CredentialView>),
    Saved(bool),
}

impl View for LoginEvent {
    type V = LoginEventView;

    open spec fn view(&self) -> LoginEventView {
        match self {
            LoginEvent::Code(code) => LoginEventView::Code(code@),
            LoginEvent::Granted(reply) => LoginEventView::Granted(reply.deep_view()),
            LoginEvent::Saved(ok) => LoginEventView::Saved(*ok),
        }
    }
}

/// What is to be done next.
#[derive(Clone, Debug, PartialEq, Eq)]
pub enum LoginAction {
    /// Show this address to the human and read the code they bring back.
    Prompt(String),
    /// Send this call to the token endpoint.
    Exchange(Request),
    /// Write this credential to the store. No other action writes.
    Persist(Credential),
    /// Done: run with this credential.
    Ready(Credential),
    /// Stop: the login failed so.
    Fail(Failure),
}

/// An action as plain values.
pub enum LoginActionView {
    Prompt(Seq<char>),
    Exchange(RequestView),
    Persist(CredentialView),
    Ready(CredentialView),
    Fail(Failure),
}

impl View for LoginAction {
    type V = LoginActionView;

    open spec fn view(&self) -> LoginActionView {
        match self {
            LoginAction::Prompt(url) => LoginActionView::Prompt(url@),
            LoginAction::Exchange(request) => LoginActionView::Exchange(request@),
            LoginAction::Persist(c) => LoginActionView::Persist(c@),
            LoginAction::Ready(c) => LoginActionView::Ready(c@),
            LoginAction::Fail(e) => LoginActionView::Fail(*e),
        }
    }
}

impl LoginView {
    /// The login at `stage`, nothing granted.
    pub open spec fn at(self, stage: LoginStage) -> LoginView {
        LoginView { config: self.config, stage, granted: None }
    }

    /// The login having failed with `e`.
    pub open spec fn failing(self, e: Failure) -> (LoginView, LoginActionView) {
        (self.at(LoginStage::Failed), LoginActionView::Fail(e))
    }
}

/// What loading the stored credential comes to: `NotFound` without a
/// record, `CorruptRecord` for one that does not read as a credential.
pub open spec fn loaded(stored: StoredView) -> Result<CredentialView, Failure> {
    match stored {
        StoredView::Record(c) => Ok(c),
        StoredView::Unreadable => Err(Failure::CorruptRecord),
        StoredView::Missing => Err(Failure::NotFound),
    }
}

/// How a login begins. A stored credential is used as it is. Without one the
/// human is sent to grant access. A record that does not read as a
/// credential stops the run: it is not overwritten by a new grant.
pub open spec fn login_start(config: ConfigView, stored: StoredView) -> (
    LoginView,
    LoginActionView,
) {
    let fresh = LoginView { config, stage: LoginStage::AwaitingCode, granted: None };
    match loaded(stored) {
        Ok(c) => (fresh.at(LoginStage::Ready), LoginActionView::Ready(c)),
        Err(Failure::NotFound) => match authorization_address(config) {
            Ok(url) => (fresh, LoginActionView::Prompt(url)),
            Err(e) => fresh.failing(e),
        },
        Err(e) => fresh.failing(e),
    }
}

/// How a login goes on when `event` comes in.
pub open spec fn login_step(login: LoginView, event: LoginEventView) -> (
    LoginView,
    LoginActionView,
) {
    match (login.stage, event) {
        (LoginStage::AwaitingCode, LoginEventView::Code(code)) => match exchange_call(
            login.config,
            code,
        ) {
            Ok(request) => (
                login.at(LoginStage::AwaitingGrant),
                LoginActionView::Exchange(request),
            ),
            Err(e) => login.failing(e),
        },
        (LoginStage::AwaitingGrant, LoginEventView::Granted(reply)) => match bootstrap_outcome(
            login.config,
            reply,
        ) {
            Ok(c) => (
                LoginView {
                    config: login.config,
                    stage: LoginStage::AwaitingSave,
                    granted: Some(c),
                },
                LoginActionView::Persist(c),
            ),
            Err(e) => login.failing(e),
        },
        (LoginStage::AwaitingSave, LoginEventView::Saved(written)) => match login.granted {
            Some(c) => if written {
                (login.at(LoginStage::Ready), LoginActionView::Ready(c))
            } else {
                login.failing(Failure::Storage)
            },
            None => login.failing(Failure::OutOfTurn),
        },
        _ => login.failing(Failure::OutOfTurn),
    }
}

/// A grant that names another number of scopes than were asked for ends the
/// login with `ScopeMismatch`, and nothing is written to the store.
pub proof fn lemma_scope_mismatch_writes_nothing(
    login: LoginView,
    reply: Reply<CredentialView>,
    granted: CredentialView,
)
    requires
        login.stage == LoginStage::AwaitingGrant,
        crate::outcome::granted(reply) == Ok::<CredentialView, Failure>(granted),
        granted.scope_count() != login.config.scopes.len(),
    ensures
        login_step(login, LoginEventView::Granted(reply)).1 == LoginActionView::Fail(
            Failure::ScopeMismatch,
        ),
        login_step(login, LoginEventView::Granted(reply)).0.stage == LoginStage::Failed,
        !(login_step(login, LoginEventView::Granted(reply)).1 is Persist),
{
}

/// The store is written only with a credential that the token endpoint
/// granted with as many scopes as were asked for.
pub proof fn lemma_persist_only_full_grant(login: LoginView, event: LoginEventView)
    ensures
        login_step(login, event).1 matches LoginActionView::Persist(c) ==> {
            &&& event matches LoginEventView::Granted(reply)
            &&& crate::outcome::granted(reply) == Ok::<CredentialView, Failure>(c)
            &&& c.scope_count() == login.config.scopes.len()
        },
{
}

impl Stored {
    /// The stored credential, or why there is none to load: `NotFound`
    /// without a record, `CorruptRecord` for one that does not read as a
    /// credential.
    pub fn load(self) -> (r: Result<Credential, Failure>)
        ensures
            crate::outcome::result_view(r) == loaded(self@),
    {
        match self {
            Stored::Record(c) => Ok(c),
            Stored::Unreadable => Err(Failure::CorruptRecord),
            Stored::Missing => Err(Failure::NotFound),
        }
    }
}

impl Login {
    /// The login having failed with `e`.
    fn failing(self, e: Failure) -> (r: (Login, LoginAction))
        ensures
            (r.0@, r.1@) == self@.failing(e),
    {
        (Login { config: self.config, stage: LoginStage::Failed, granted: None }, LoginAction::Fail(e))
    }

    /// Begins a login with what the credential store held.
    pub fn start(config: Config, stored: Stored) -> (r: (Login, LoginAction))
        ensures
            (r.0@, r.1@) == login_start(config@, stored@),
    {
        let fresh = Login { config, stage: LoginStage::AwaitingCode, granted: None };
        match stored.load() {
            Ok(c) => (
                Login { config: fresh.config, stage: LoginStage::Ready, granted: None },
                LoginAction::Ready(c),
            ),
            Err(Failure::NotFound) => match authorization_url(&fresh.config) {
                Ok(url) => (fresh, LoginAction::Prompt(url)),
                Err(e) => fresh.failing(e),
            },
            Err(e) => fresh.failing(e),
        }
    }

    /// Takes `event` in and says what is to be done next.
    pub fn step(self, event: LoginEvent) -> (r: (Login, LoginAction))
        ensures
            (r.0@, r.1@) == login_step(self@, event@),
    {
        match (self.stage, event) {
            (LoginStage::AwaitingCode, LoginEvent::Code(code)) => {
                match exchange_request(&self.config, code.as_str()) {
                    Ok(request) => (
                        Login {
                            config: self.config,
                            stage: LoginStage::AwaitingGrant,
                            granted: None,
                        },
                        LoginAction::Exchange(request),
                    ),
                    Err(e) => self.failing(e),
                }
            },
            (LoginStage::AwaitingGrant, LoginEvent::Granted(reply)) => {
                match accept_bootstrap(&self.config, reply) {
                    Ok(c) => {
                        let copy = c.duplicate();
                        (
                            Login {
                                config: self.config,
                                stage: LoginStage::AwaitingSave,
                                granted: Some(c),
                            },
                            LoginAction::Persist(copy),
                        )
                    },
                    Err(e) => self.failing(e),
                }
            },
            (LoginStage::AwaitingSave, LoginEvent::Saved(written)) => {
                match self.granted {
                    Some(c) => {
                        if written {
                            (
                                Login {
                                    config: self.config,
                                    stage: LoginStage::Ready,
                                    granted: None,
                                },
                                LoginAction::Ready(c),
                            )
                        } else {
                            (
                                Login {
                                    config: self.config,
                                    stage: LoginStage::Failed,
                                    granted: None,
                                },
                                LoginAction::Fail(Failure::Storage),
                            )
                        }
                    },
                    None => (
                        Login { config: self.config, stage: LoginStage::Failed, granted: None },
                        LoginAction::Fail(Failure::OutOfTurn),
                    ),
                }
            },
            (_, _) => self.failing(Failure::OutOfTurn),
        }
    }
}

} // verus!
