//! An invoice run against a cloud document service: log in, find the
//! template and the folder, copy, date, render, keep and mail the invoice.
//!
//! The library decides and never acts. Each flow is a small machine that
//! takes what happened outside (a reply, a typed line, a finished write) and
//! answers with what is to be done next; whoever drives it does the sending,
//! the prompting and the writing.
//!
//! - [`login`]: the stored credential, or the first grant.
//! - [`pipeline`]: the run itself, with one renewal of an expired token.
//! - [`mailing`]: the mail with the invoice, once the human agrees.
//!
//! Under them: [`auth`] and [`gateway`] build the remote calls and judge
//! their replies, [`email`] composes the message, [`address`] and
//! [`encoding`] lean on the `url` and `base64` crates.

pub mod address;
pub mod auth;
pub mod calendar;
pub mod config;
pub mod confirm;
pub mod credential;
pub mod document;
pub mod email;
pub mod encoding;
pub mod gateway;
pub mod login;
pub mod mailing;
pub mod outcome;
pub mod pipeline;
pub mod request;
pub mod wire;
pub mod words;
