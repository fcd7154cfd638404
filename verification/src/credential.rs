//! The OAuth2 token bundle and the rules it is kept by.

use crate::words::{count_words, word_count};
use vstd::prelude::*;

verus! {

/// The token bundle that authorises the remote calls.
#[derive(Clone, Debug, PartialEq, Eq)]
pub struct Credential {
    /// Short-lived token sent with each call.
    pub access_token: String,
    /// Seconds until `access_token` expires.
    pub expires_in: u64,
    /// Long-lived token that buys a new `access_token`; empty where the
    /// answer held none.
    pub refresh_token: String,
    /// The granted scopes, separated by spaces.
    pub scope: String,
    /// The kind of token, `Bearer` in practice.
    pub token_type: String,
}

/// A credential as plain values.
pub struct CredentialView {
    pub access_token: Seq<char>,
    pub expires_in: u64,
    pub refresh_token: Seq<char>,
    pub scope: Seq<char>,
    pub token_type: Seq<char>,
}

impl View for Credential {
    type V = CredentialView;

    open spec fn view(&self) -> CredentialView {
        CredentialView {
            access_token: self.access_token@,
            expires_in: self.expires_in,
            refresh_token: self.refresh_token@,
            scope: self.scope@,
            token_type: self.token_type@,
        }
    }
}

impl CredentialView {
    /// How many scopes the credential names.
    pub open spec fn scope_count(self) -> nat {
        word_count(self.scope)
    }

    /// The credential that follows `self` once the token endpoint has
    /// answered a renewal with `answer`: the answer, with the refresh token
    /// that `self` held.
    pub open spec fn renewed_by(self, answer: CredentialView) -> CredentialView {
        CredentialView { refresh_token: self.refresh_token, ..answer }
    }
}

impl Credential {
    /// How many scopes the credential names.
    pub fn scope_count(&self) -> (n: usize)
        ensures
            n == self@.scope_count(),
    {
        count_words(self.scope.as_str())
    }

    /// A second credential with the same contents.
    pub fn duplicate(&self) -> (copy: Credential)
        ensures
            copy@ == self@,
    {
        Credential {
            access_token: self.access_token.clone(),
            expires_in: self.expires_in,
            refresh_token: self.refresh_token.clone(),
            scope: self.scope.clone(),
            token_type: self.token_type.clone(),
        }
    }

    /// The credential that follows `self` once the token endpoint has answered
    /// a renewal with `answer`. The refresh token is never taken from the
    /// answer, which as a rule holds none.
    pub fn renewed_by(self, answer: Credential) -> (next: Credential)
        ensures
            next@ == self@.renewed_by(answer@),
            next@.refresh_token == self@.refresh_token,
    {
        Credential {
            access_token: answer.access_token,
            expires_in: answer.expires_in,
            refresh_token: self.refresh_token,
            scope: answer.scope,
            token_type: answer.token_type,
        }
    }
}

impl DeepView for Credential {
    type V = CredentialView;

    open spec fn deep_view(&self) -> CredentialView {
        self@
    }
}

} // verus!
