//! The two OAuth2 flows: the first grant, mediated by a human, and the
//! renewal of the access token. Calls are built and replies judged here;
//! prompting, sending and storing happen elsewhere.

use crate::address::{address, address_text, pairs};
use crate::config::{Config, ConfigView};
use crate::credential::{Credential, CredentialView};
use crate::outcome::{grant, granted, result_view, Failure, Reply};
use crate::request::{Method, Payload, PayloadView, Request, RequestView};
use vstd::prelude::*;
use vstd::string::StringExecFns;

verus! {

/// The redirect of a client without a web server: the code is shown to the
/// human, who carries it over.
pub const REDIRECT: &'static str = "urn:ietf:wg:oauth:2.0:oob";

/// The MIME type of a form.
pub const FORM: &'static str = "application/x-www-form-urlencoded";

/// The texts `parts` in a row with `separator` between them.
pub open spec fn joined(parts: Seq<Seq<char>>, separator: Seq<char>) -> Seq<char>
    decreases parts.len(),
{
    if parts.len() == 0 {
        Seq::empty()
    } else if parts.len() == 1 {
        parts[0]
    } else {
        joined(parts.drop_last(), separator) + separator + parts.last()
    }
}

/// The address where a human grants the client its scopes.
pub open spec fn authorization_address(config: ConfigView) -> Result<Seq<char>, Failure> {
    match address_text(
        config.auth_uri,
        seq![
            ("client_id"@, config.client_id),
            ("redirect_uri"@, REDIRECT@),
            ("response_type"@, "code"@),
            ("scope"@, joined(config.scopes, " "@)),
        ],
    ) {
        Some(url) => Ok(url),
        None => Err(Failure::Address),
    }
}

/// The call to the token endpoint at `url`: a POST whose parameters are all
/// in the address, with an empty form for a body.
pub open spec fn token_call(url: Option<Seq<char>>) -> Result<RequestView, Failure> {
    match url {
        Some(u) => Ok(
            RequestView {
                method: Method::Post,
                url: u,
                bearer: None,
                content_type: Some(FORM@),
                content_length: Some(0usize),
                body: PayloadView::Empty,
            },
        ),
        None => Err(Failure::Address),
    }
}

/// The call that exchanges the authorization code `code` for a credential.
pub open spec fn exchange_call(config: ConfigView, code: Seq<char>) -> Result<
    RequestView,
    Failure,
> {
    token_call(
        address_text(
            config.token_uri,
            seq![
                ("client_id"@, config.client_id),
                ("client_secret"@, config.client_secret),
                ("code"@, code),
                ("code_verifier"@, ""@),
                ("grant_type"@, "authorization_code"@),
                ("redirect_uri"@, REDIRECT@),
            ],
        ),
    )
}

/// The call that buys a new access token with `refresh_token`.
pub open spec fn refresh_call(config: ConfigView, refresh_token: Seq<char>) -> Result<
    RequestView,
    Failure,
> {
    token_call(
        address_text(
            config.token_uri,
            seq![
                ("client_id"@, config.client_id),
                ("client_secret"@, config.client_secret),
                ("grant_type"@, "refresh_token"@),
                ("refresh_token"@, refresh_token),
            ],
        ),
    )
}

/// What the first grant comes to: the credential of a good answer that names
/// as many scopes as were asked for; `ScopeMismatch` for any other count.
pub open spec fn bootstrap_outcome(config: ConfigView, reply: Reply<CredentialView>) -> Result<
    CredentialView,
    Failure,
> {
    match granted(reply) {
        Ok(c) => if c.scope_count() != config.scopes.len() {
            Err(Failure::ScopeMismatch)
        } else {
            Ok(c)
        },
        Err(e) => Err(e),
    }
}

/// What a renewal comes to: the credential of a good answer, with the
/// refresh token of `previous`.
pub open spec fn refresh_outcome(previous: CredentialView, reply: Reply<CredentialView>) -> Result<
    CredentialView,
    Failure,
> {
    match granted(reply) {
        Ok(c) => Ok(previous.renewed_by(c)),
        Err(e) => Err(e),
    }
}

/// A renewal that succeeds keeps the refresh token the client had, whatever
/// the answer holds in its place, and so also where it holds none.
pub proof fn lemma_renewal_keeps_refresh_token(
    previous: CredentialView,
    reply: Reply<CredentialView>,
)
    ensures
        refresh_outcome(previous, reply) matches Ok(next) ==> next.refresh_token
            == previous.refresh_token,
{
}

/// Joins `parts` with `separator` between them.
pub fn join(parts: &Vec<String>, separator: &str) -> (text: String)
    ensures
        text@ == joined(parts.deep_view(), separator@),
{
    let mut text = String::new();
    let mut i: usize = 0;
    while i < parts.len()
        invariant
            i <= parts@.len(),
            text@ == joined(parts.deep_view().take(i as int), separator@),
        decreases parts@.len() - i,
    {
        proof {
            let head = parts.deep_view().take(i + 1);
            assert(head.drop_last() == parts.deep_view().take(i as int));
            assert(head.last() == parts@[i as int]@);
        }
        if i > 0 {
            text.append(separator);
        }
        text.append(parts[i].as_str());
        i += 1;
    }
    proof {
        assert(parts.deep_view().take(i as int) == parts.deep_view());
    }
    text
}

/// Builds the address where a human grants the client its scopes.
pub fn authorization_url(config: &Config) -> (r: Result<String, Failure>)
    ensures
        result_view(r) == authorization_address(config@),
{
    let scope = join(&config.scopes, " ");
    let params: Vec<(&str, &str)> = vec![
        ("client_id", config.client_id.as_str()),
        ("redirect_uri", REDIRECT),
        ("response_type", "code"),
        ("scope", scope.as_str()),
    ];
    proof {
        assert(pairs(params@) =~= seq![
            ("client_id"@, config@.client_id),
            ("redirect_uri"@, REDIRECT@),
            ("response_type"@, "code"@),
            ("scope"@, joined(config@.scopes, " "@)),
        ]);
    }
    address(config.auth_uri.as_str(), &params)
}

/// Builds the call to the token endpoint at `url`.
fn token_request(url: Result<String, Failure>) -> (r: Result<Request, Failure>)
    ensures
        result_view(r) == token_call(
            match url {
                Ok(u) => Some(u@),
                Err(_) => None,
            },
        ),
{
    match url {
        Ok(u) => Ok(
            Request {
                method: Method::Post,
                url: u,
                bearer: None,
                content_type: Some(String::from_str(FORM)),
                content_length: Some(0),
                body: Payload::Empty,
            },
        ),
        Err(_) => Err(Failure::Address),
    }
}

/// Builds the call that exchanges the authorization code `code` for a
/// credential.
pub fn exchange_request(config: &Config, code: &str) -> (r: Result<Request, Failure>)
    ensures
        result_view(r) == exchange_call(config@, code@),
{
    let params: Vec<(&str, &str)> = vec![
        ("client_id", config.client_id.as_str()),
        ("client_secret", config.client_secret.as_str()),
        ("code", code),
        ("code_verifier", ""),
        ("grant_type", "authorization_code"),
        ("redirect_uri", REDIRECT),
    ];
    proof {
        assert(pairs(params@) =~= seq![
            ("client_id"@, config@.client_id),
            ("client_secret"@, config@.client_secret),
            ("code"@, code@),
            ("code_verifier"@, ""@),
            ("grant_type"@, "authorization_code"@),
            ("redirect_uri"@, REDIRECT@),
        ]);
    }
    token_request(address(config.token_uri.as_str(), &params))
}

/// Builds the call that buys a new access token with `refresh_token`.
pub fn refresh_request(config: &Config, refresh_token: &str) -> (r: Result<Request, Failure>)
    ensures
        result_view(r) == refresh_call(config@, refresh_token@),
{
    let params: Vec<(&str, &str)> = vec![
        ("client_id", config.client_id.as_str()),
        ("client_secret", config.client_secret.as_str()),
        ("grant_type", "refresh_token"),
        ("refresh_token", refresh_token),
    ];
    proof {
        assert(pairs(params@) =~= seq![
            ("client_id"@, config@.client_id),
            ("client_secret"@, config@.client_secret),
            ("grant_type"@, "refresh_token"@),
            ("refresh_token"@, refresh_token@),
        ]);
    }
    token_request(address(config.token_uri.as_str(), &params))
}

/// Judges the token endpoint's reply to a code exchange. A grant whose scope
/// text does not hold as many words as scopes were asked for is refused with
/// `ScopeMismatch`: later steps would fail on the missing scope.
pub fn accept_bootstrap(config: &Config, reply: Reply<Credential>) -> (r: Result<
    Credential,
    Failure,
>)
    ensures
        result_view(r) == bootstrap_outcome(config@, reply.deep_view()),
{
    match grant(reply) {
        Ok(c) => {
            if c.scope_count() != config.scopes.len() {
                Err(Failure::ScopeMismatch)
            } else {
                Ok(c)
            }
        },
        Err(e) => Err(e),
    }
}

/// Judges the token endpoint's reply to a renewal. The credential that
/// follows holds the refresh token of `previous`.
pub fn accept_refresh(previous: Credential, reply: Reply<Credential>) -> (r: Result<
    Credential,
    Failure,
>)
    ensures
        result_view(r) == refresh_outcome(previous@, reply.deep_view()),
        r matches Ok(next) ==> next@.refresh_token == previous@.refresh_token,
{
    match grant(reply) {
        Ok(c) => Ok(previous.renewed_by(c)),
        Err(e) => Err(e),
    }
}

} // verus!
