use invoicer::auth::{
    accept_bootstrap, accept_refresh, authorization_url, exchange_request, join, refresh_request,
};
use invoicer::config::{Config, DRIVE_SCOPE, MAIL_SCOPE};
use invoicer::credential::Credential;
use invoicer::login::{Login, LoginAction, LoginEvent, LoginStage, Stored};
use invoicer::outcome::{Failure, Reply};
use invoicer::request::{Method, Payload, Request};

fn config() -> Config {
    Config::new(
        "cid".to_string(),
        "sec".to_string(),
        "https://accounts.google.com/o/oauth2/auth".to_string(),
        "https://oauth2.googleapis.com/token".to_string(),
    )
}

fn credential(access: &str, refresh: &str, scope: &str) -> Credential {
    Credential {
        access_token: access.to_string(),
        expires_in: 3599,
        refresh_token: refresh.to_string(),
        scope: scope.to_string(),
        token_type: "Bearer".to_string(),
    }
}

fn both_scopes() -> String {
    format!("{} {}", DRIVE_SCOPE, MAIL_SCOPE)
}

fn answer(c: Credential) -> Reply<Credential> {
    Reply::Answer { status: 200, body: Some(c) }
}

const AUTH_URL: &str = "https://accounts.google.com/o/oauth2/auth?client_id=cid&redirect_uri=urn%3Aietf%3Awg%3Aoauth%3A2.0%3Aoob&response_type=code&scope=https%3A%2F%2Fwww.googleapis.com%2Fauth%2Fdrive+https%3A%2F%2Fwww.googleapis.com%2Fauth%2Fgmail.send";

#[test]
fn new_config_asks_for_both_scopes() {
    let c = config();
    assert_eq!(c.client_id, "cid");
    assert_eq!(c.client_secret, "sec");
    assert_eq!(c.auth_uri, "https://accounts.google.com/o/oauth2/auth");
    assert_eq!(c.token_uri, "https://oauth2.googleapis.com/token");
    assert_eq!(
        c.scopes,
        vec![
            "https://www.googleapis.com/auth/drive".to_string(),
            "https://www.googleapis.com/auth/gmail.send".to_string()
        ]
    );
}

#[test]
fn join_puts_the_separator_between() {
    assert_eq!(join(&Vec::new(), " "), "");
    assert_eq!(join(&vec!["a".to_string()], " "), "a");
    assert_eq!(join(&vec!["a".to_string(), "b".to_string()], " "), "a b");
    assert_eq!(join(&vec!["a".to_string(), "".to_string(), "c".to_string()], ", "), "a, , c");
}

#[test]
fn scope_count_counts_words() {
    assert_eq!(credential("a", "r", "").scope_count(), 0);
    assert_eq!(credential("a", "r", "one").scope_count(), 1);
    assert_eq!(credential("a", "r", &both_scopes()).scope_count(), 2);
    assert_eq!(credential("a", "r", "one  two   three").scope_count(), 3);
}

#[test]
fn duplicate_is_equal() {
    let c = credential("a", "r", "s t");
    assert_eq!(c.duplicate(), c);
}

#[test]
fn refresh_preserves_refresh_token() {
    let previous = credential("old-access", "keep-me", &both_scopes());
    let response = Credential {
        access_token: "new-access".to_string(),
        expires_in: 10,
        refresh_token: String::new(),
        scope: "narrow".to_string(),
        token_type: "Other".to_string(),
    };
    let next = previous.renewed_by(response);
    assert_eq!(
        next,
        Credential {
            access_token: "new-access".to_string(),
            expires_in: 10,
            refresh_token: "keep-me".to_string(),
            scope: "narrow".to_string(),
            token_type: "Other".to_string(),
        }
    );
}

#[test]
fn refresh_preserves_refresh_token_even_against_a_new_one() {
    let previous = credential("old-access", "keep-me", "s");
    let next = previous.renewed_by(credential("new-access", "from-the-answer", "s"));
    assert_eq!(next.refresh_token, "keep-me");
    assert_eq!(next.access_token, "new-access");
}

#[test]
fn accepted_refresh_keeps_the_refresh_token() {
    let previous = credential("old", "keep-me", "s");
    let got = accept_refresh(previous, answer(credential("new", "", "s")));
    assert_eq!(got, Ok(credential("new", "keep-me", "s")));
}

#[test]
fn refused_refresh_says_why() {
    let previous = || credential("old", "keep-me", "s");
    assert_eq!(accept_refresh(previous(), Reply::Unreachable), Err(Failure::Transport));
    assert_eq!(
        accept_refresh(previous(), Reply::Answer { status: 400, body: None }),
        Err(Failure::AuthServer(400))
    );
    assert_eq!(
        accept_refresh(previous(), Reply::Answer { status: 401, body: Some(credential("n", "", "s")) }),
        Err(Failure::AuthServer(401))
    );
    assert_eq!(
        accept_refresh(previous(), Reply::Answer { status: 200, body: None }),
        Err(Failure::Decode)
    );
}

#[test]
fn refresh_does_not_count_scopes() {
    let previous = credential("old", "keep-me", "s");
    let got = accept_refresh(previous, answer(credential("new", "", "only-one")));
    assert_eq!(got, Ok(credential("new", "keep-me", "only-one")));
}

#[test]
fn bootstrap_with_both_scopes_is_accepted() {
    let c = credential("a", "r", &both_scopes());
    assert_eq!(accept_bootstrap(&config(), answer(c.clone())), Ok(c));
}

#[test]
fn bootstrap_with_other_scope_count_is_scope_mismatch() {
    for scope in ["", "https://www.googleapis.com/auth/drive", "a b c", "   "] {
        let c = credential("a", "r", scope);
        assert_eq!(accept_bootstrap(&config(), answer(c)), Err(Failure::ScopeMismatch));
    }
}

#[test]
fn bootstrap_counts_words_not_names() {
    let c = credential("a", "r", "x  y");
    assert_eq!(accept_bootstrap(&config(), answer(c.clone())), Ok(c));
}

#[test]
fn bootstrap_failures_come_before_scopes() {
    assert_eq!(accept_bootstrap(&config(), Reply::Unreachable), Err(Failure::Transport));
    assert_eq!(
        accept_bootstrap(&config(), Reply::Answer { status: 500, body: Some(credential("a", "r", "")) }),
        Err(Failure::AuthServer(500))
    );
    assert_eq!(
        accept_bootstrap(&config(), Reply::Answer { status: 200, body: None }),
        Err(Failure::Decode)
    );
}

#[test]
fn authorization_url_names_client_redirect_and_scopes() {
    assert_eq!(authorization_url(&config()), Ok(AUTH_URL.to_string()));
}

#[test]
fn authorization_url_needs_an_absolute_endpoint() {
    let mut c = config();
    c.auth_uri = "nowhere".to_string();
    assert_eq!(authorization_url(&c), Err(Failure::Address));
}

#[test]
fn exchange_is_an_empty_form_post() {
    let got = exchange_request(&config(), "4/abc");
    assert_eq!(
        got,
        Ok(Request {
            method: Method::Post,
            url: "https://oauth2.googleapis.com/token?client_id=cid&client_secret=sec&code=4%2Fabc&code_verifier=&grant_type=authorization_code&redirect_uri=urn%3Aietf%3Awg%3Aoauth%3A2.0%3Aoob".to_string(),
            bearer: None,
            content_type: Some("application/x-www-form-urlencoded".to_string()),
            content_length: Some(0),
            body: Payload::Empty,
        })
    );
}

#[test]
fn exchange_sends_the_code_as_typed() {
    let got = exchange_request(&config(), "4/abc\n").unwrap();
    assert!(got.url.contains("&code=4%2Fabc%0A&"));
}

#[test]
fn refresh_request_carries_the_refresh_token() {
    let got = refresh_request(&config(), "r 1");
    assert_eq!(
        got,
        Ok(Request {
            method: Method::Post,
            url: "https://oauth2.googleapis.com/token?client_id=cid&client_secret=sec&grant_type=refresh_token&refresh_token=r+1".to_string(),
            bearer: None,
            content_type: Some("application/x-www-form-urlencoded".to_string()),
            content_length: Some(0),
            body: Payload::Empty,
        })
    );
}

#[test]
fn token_requests_need_an_absolute_endpoint() {
    let mut c = config();
    c.token_uri = "".to_string();
    assert_eq!(exchange_request(&c, "code"), Err(Failure::Address));
    assert_eq!(refresh_request(&c, "r"), Err(Failure::Address));
}

#[test]
fn stored_credential_is_used_as_it_is() {
    let c = credential("a", "r", "whatever scopes it names");
    let (login, action) = Login::start(config(), Stored::Record(c.clone()));
    assert_eq!(action, LoginAction::Ready(c));
    assert_eq!(login.stage, LoginStage::Ready);
    assert_eq!(login.granted, None);
}

#[test]
fn unreadable_record_is_corrupt_record() {
    let (login, action) = Login::start(config(), Stored::Unreadable);
    assert_eq!(action, LoginAction::Fail(Failure::CorruptRecord));
    assert_eq!(login.stage, LoginStage::Failed);
}

#[test]
fn missing_record_sends_the_human_to_grant() {
    let (login, action) = Login::start(config(), Stored::Missing);
    assert_eq!(action, LoginAction::Prompt(AUTH_URL.to_string()));
    assert_eq!(login.stage, LoginStage::AwaitingCode);
}

#[test]
fn missing_record_with_bad_endpoint_fails() {
    let mut c = config();
    c.auth_uri = "::".to_string();
    let (login, action) = Login::start(c, Stored::Missing);
    assert_eq!(action, LoginAction::Fail(Failure::Address));
    assert_eq!(login.stage, LoginStage::Failed);
}

#[test]
fn bootstrap_runs_from_code_to_credential() {
    let (login, _) = Login::start(config(), Stored::Missing);
    let (login, action) = login.step(LoginEvent::Code("4/abc".to_string()));
    assert_eq!(action, LoginAction::Exchange(exchange_request(&config(), "4/abc").unwrap()));
    assert_eq!(login.stage, LoginStage::AwaitingGrant);
    let c = credential("a", "r", &both_scopes());
    let (login, action) = login.step(LoginEvent::Granted(answer(c.clone())));
    assert_eq!(action, LoginAction::Persist(c.clone()));
    assert_eq!(login.stage, LoginStage::AwaitingSave);
    assert_eq!(login.granted, Some(c.clone()));
    let (login, action) = login.step(LoginEvent::Saved(true));
    assert_eq!(action, LoginAction::Ready(c));
    assert_eq!(login.stage, LoginStage::Ready);
    assert_eq!(login.granted, None);
}

#[test]
fn scope_mismatch_fails_bootstrap_and_writes_nothing() {
    let (login, first) = Login::start(config(), Stored::Missing);
    let (login, second) = login.step(LoginEvent::Code("4/abc".to_string()));
    let c = credential("a", "r", "https://www.googleapis.com/auth/drive");
    let (login, third) = login.step(LoginEvent::Granted(answer(c)));
    assert_eq!(third, LoginAction::Fail(Failure::ScopeMismatch));
    assert_eq!(login.stage, LoginStage::Failed);
    assert_eq!(login.granted, None);
    for action in [first, second, third] {
        assert!(!matches!(action, LoginAction::Persist(_)));
    }
    let (login, fourth) = login.step(LoginEvent::Saved(true));
    assert_eq!(fourth, LoginAction::Fail(Failure::OutOfTurn));
    assert_eq!(login.stage, LoginStage::Failed);
}

#[test]
fn token_endpoint_failures_end_the_bootstrap() {
    for (reply, failure) in [
        (Reply::Unreachable, Failure::Transport),
        (Reply::Answer { status: 400, body: None }, Failure::AuthServer(400)),
        (Reply::Answer { status: 200, body: None }, Failure::Decode),
    ] {
        let (login, _) = Login::start(config(), Stored::Missing);
        let (login, _) = login.step(LoginEvent::Code("c".to_string()));
        let (login, action) = login.step(LoginEvent::Granted(reply));
        assert_eq!(action, LoginAction::Fail(failure));
        assert_eq!(login.stage, LoginStage::Failed);
    }
}

#[test]
fn refused_write_ends_the_bootstrap() {
    let (login, _) = Login::start(config(), Stored::Missing);
    let (login, _) = login.step(LoginEvent::Code("c".to_string()));
    let (login, _) = login.step(LoginEvent::Granted(answer(credential("a", "r", "x y"))));
    let (login, action) = login.step(LoginEvent::Saved(false));
    assert_eq!(action, LoginAction::Fail(Failure::Storage));
    assert_eq!(login.stage, LoginStage::Failed);
    assert_eq!(login.granted, None);
}

#[test]
fn login_events_out_of_turn_fail() {
    let (login, _) = Login::start(config(), Stored::Missing);
    let (login, action) = login.step(LoginEvent::Saved(true));
    assert_eq!(action, LoginAction::Fail(Failure::OutOfTurn));
    assert_eq!(login.stage, LoginStage::Failed);

    let (login, _) = Login::start(config(), Stored::Missing);
    let (_, action) = login.step(LoginEvent::Granted(answer(credential("a", "r", "x y"))));
    assert_eq!(action, LoginAction::Fail(Failure::OutOfTurn));

    let (login, _) = Login::start(config(), Stored::Record(credential("a", "r", "s")));
    let (_, action) = login.step(LoginEvent::Code("c".to_string()));
    assert_eq!(action, LoginAction::Fail(Failure::OutOfTurn));

    let fabricated =
        Login { config: config(), stage: LoginStage::AwaitingSave, granted: None };
    let (_, action) = fabricated.step(LoginEvent::Saved(true));
    assert_eq!(action, LoginAction::Fail(Failure::OutOfTurn));
}
