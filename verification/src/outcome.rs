//! How a remote call ended, and the failures a run can end with.

use vstd::prelude::*;

verus! {

/// Why a step could not be completed.
#[derive(Clone, Copy, Debug, PartialEq, Eq, Structural)]
pub enum Failure {
    /// The call did not complete: network, TLS or deadline.
    Transport,
    /// A document, sheet or mail endpoint answered with this status, outside 200..=299.
    Remote(u16),
    /// The token endpoint answered with this status, outside 200..=299.
    AuthServer(u16),
    /// The answer's body does not have the expected shape.
    Decode,
    /// The grant does not hold exactly the scopes that were asked for.
    ScopeMismatch,
    /// A lookup matched nothing.
    NotFound,
    /// The stored credential record cannot be read as a credential.
    CorruptRecord,
    /// No address could be made of the endpoint and its parameters.
    Address,
    /// The local byte sink refused the write.
    Storage,
    /// The invoice is too long to be attached on this machine.
    Oversize,
    /// The event does not answer the action that is pending.
    OutOfTurn,
}

impl Failure {
    /// Whether renewing the access token can mend this failure: the endpoint
    /// said 401.
    pub open spec fn spec_is_authentication(self) -> bool {
        self == Failure::Remote(401)
    }

    /// Whether renewing the access token can mend this failure.
    #[verifier::when_used_as_spec(spec_is_authentication)]
    pub fn is_authentication(self) -> (b: bool)
        ensures
            b == self.spec_is_authentication(),
    {
        match self {
            Failure::Remote(status) => status == 401,
            _ => false,
        }
    }
}

/// What came back from one remote call. `T` is the decoded body.
#[derive(Debug, PartialEq, Eq)]
pub enum Reply<T> {
    /// Nothing came back: network, TLS or deadline.
    Unreachable,
    /// The endpoint answered. `body` is `None` where the body did not decode.
    Answer { status: u16, body: Option<T> },
}

impl<T: DeepView> DeepView for Reply<T> {
    type V = Reply<T::V>;

    open spec fn deep_view(&self) -> Reply<T::V> {
        match self {
            Reply::Unreachable => Reply::Unreachable,
            Reply::Answer { status, body } => Reply::Answer {
                status: *status,
                body: body.deep_view(),
            },
        }
    }
}

/// A result as plain values.
pub open spec fn result_view<T: DeepView>(r: Result<T, Failure>) -> Result<T::V, Failure> {
    match r {
        Ok(t) => Ok(t.deep_view()),
        Err(e) => Err(e),
    }
}

/// Whether `status` is one of 200..=299.
pub open spec fn spec_is_success(status: u16) -> bool {
    200 <= status <= 299
}

/// Whether `status` is one of 200..=299.
#[verifier::when_used_as_spec(spec_is_success)]
pub fn is_success(status: u16) -> (b: bool)
    ensures
        b == spec_is_success(status),
{
    200 <= status && status <= 299
}

/// What a reply from a document, sheet or mail endpoint amounts to.
pub open spec fn settled<T>(reply: Reply<T>) -> Result<T, Failure> {
    match reply {
        Reply::Unreachable => Err(Failure::Transport),
        Reply::Answer { status, body } => if !spec_is_success(status) {
            Err(Failure::Remote(status))
        } else {
            match body {
                Some(b) => Ok(b),
                None => Err(Failure::Decode),
            }
        },
    }
}

/// What a reply from the token endpoint amounts to.
pub open spec fn granted<T>(reply: Reply<T>) -> Result<T, Failure> {
    match settled(reply) {
        Err(Failure::Remote(status)) => Err(Failure::AuthServer(status)),
        other => other,
    }
}

/// Sorts a reply from a document, sheet or mail endpoint: the decoded body of
/// an answer in 200..=299, else the failure.
pub fn settle<T: DeepView>(reply: Reply<T>) -> (r: Result<T, Failure>)
    ensures
        r == settled(reply),
        result_view(r) == settled(reply.deep_view()),
{
    match reply {
        Reply::Unreachable => Err(Failure::Transport),
        Reply::Answer { status, body } => {
            if !is_success(status) {
                Err(Failure::Remote(status))
            } else {
                match body {
                    Some(b) => Ok(b),
                    None => Err(Failure::Decode),
                }
            }
        },
    }
}

/// Sorts a reply from the token endpoint.
pub fn grant<T: DeepView>(reply: Reply<T>) -> (r: Result<T, Failure>)
    ensures
        r == granted(reply),
        result_view(r) == granted(reply.deep_view()),
{
    match settle(reply) {
        Err(Failure::Remote(status)) => Err(Failure::AuthServer(status)),
        other => other,
    }
}

} // verus!
