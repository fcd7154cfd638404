//! Sending the invoice: who is the sender, does the human agree, out it goes.
//!
//! As with the run, the steps decide and their driver acts.

use crate::confirm::{confirms, is_confirmation};
use crate::document::{Identity, IdentityView};
use crate::email::{compose, composed, send_call, send_request, BOUNDARY};
use crate::gateway::{identity_call, identity_request};
use crate::outcome::{settle, settled, Failure, Reply};
use crate::request::{PayloadView, Request, RequestView};
use vstd::prelude::*;

verus! {

/// Where a mailing stands.
#[derive(Clone, Copy, Debug, PartialEq, Eq, Structural)]
pub enum MailStage {
    /// The account is being asked who it is.
    Identifying,
    /// The human is being asked whether to send.
    Asking,
    /// The message is on its way.
    Sending,
    /// The message was sent.
    Sent,
    /// The human did not confirm; nothing was sent.
    Declined,
    /// The mailing failed.
    Failed,
}

/// A mailing under way.
#[derive(Clone, Debug, PartialEq, Eq)]
pub struct Mailing {
    /// The access token to authorise with.
    pub token: String,
    /// The rendered invoice.
    pub pdf: Vec<u8>,
    /// The day of the invoice.
    pub iso_date: String,
    /// Who the invoice goes to.
    pub recipient: String,
    /// Whether the human is asked before the message goes out.
    pub ask: bool,
    pub stage: MailStage,
    /// The sender, from when the account has said who it is until the
    /// message is composed.
    pub sender: Option<Identity>,
}

/// A mailing as plain values.
pub struct MailingView {
    pub token: Seq<char>,
    pub pdf: Seq<u8>,
    pub iso_date: Seq<char>,
    pub recipient: Seq<char>,
    pub ask: bool,
    pub stage: MailStage,
    pub sender: Option<IdentityView>,
}

impl View for Mailing {
    type V = MailingView;

    open spec fn view(&self) -> MailingView {
        MailingView {
            token: self.token@,
            pdf: self.pdf@,
            iso_date: self.iso_date@,
            recipient: self.recipient@,
            ask: self.ask,
            stage: self.stage,
            sender: self.sender.deep_view(),
        }
    }
}

/// What happened outside since the last action.
#[derive(Debug, PartialEq, Eq)]
pub enum MailEvent {
    /// The account replied to the question who it is.
    Identified(Reply<Identity>),
    /// The human answered the question whether to send with this line.
    Answered(String),
    /// The mail endpoint replied to the message.
    Delivered(Reply<()>),
}

/// An event as plain values.
pub enum MailEventView {
    Identified(Reply<IdentityView>),
    Answered(Seq<char>),
    Delivered(Reply<()>),
}

impl View for MailEvent {
    type V = MailEventView;

    open spec fn view(&self) -> MailEventView {
        match self {
            MailEvent::Identified(reply) => MailEventView::Identified(reply.deep_view()),
            MailEvent::Answered(line) => MailEventView::Answered(line@),
            MailEvent::Delivered(reply) => MailEventView::Delivered(reply.deep_view()),
        }
    }
}

/// What is to be done next.
#[derive(Clone, Debug, PartialEq, Eq)]
pub enum MailAction {
    /// Send this call to learn who the sender is.
    Identify(Request),
    /// Ask the human whether the invoice may go out in this sender's name,
    /// and report the line they type.
    Ask(Identity),
    /// Send this message.
    Send(Request),
    /// Done: the message was sent.
    Done,
    /// Done: the human did not confirm, and nothing was sent. This is no
    /// failure.
    Skip,
    /// Stop: the mailing failed so.
    Fail(Failure),
}

/// An action as plain values.
pub enum MailActionView {
    Identify(RequestView),
    Ask(IdentityView),
    Send(RequestView),
    Done,
    Skip,
    Fail(Failure),
}

impl View for MailAction {
    type V = MailActionView;

    open spec fn view(&self) -> MailActionView {
        match self {
            MailAction::Identify(request) => MailActionView::Identify(request@),
            MailAction::Ask(sender) => MailActionView::Ask(sender@),
            MailAction::Send(request) => MailActionView::Send(request@),
            MailAction::Done => MailActionView::Done,
            MailAction::Skip => MailActionView::Skip,
            MailAction::Fail(e) => MailActionView::Fail(*e),
        }
    }
}

impl MailingView {
    /// The mailing at `stage`, the sender forgotten.
    pub open spec fn at(self, stage: MailStage) -> MailingView {
        MailingView { stage, sender: None, ..self }
    }

    /// The mailing having failed with `e`.
    pub open spec fn failing(self, e: Failure) -> (MailingView, MailActionView) {
        (self.at(MailStage::Failed), MailActionView::Fail(e))
    }

    /// The mailing sending the message in the name of `sender`.
    pub open spec fn sending(self, sender: IdentityView) -> (MailingView, MailActionView) {
        match composed(sender, self.pdf, self.iso_date, self.recipient, BOUNDARY@) {
            Ok(message) => match send_call(self.token, message) {
                Ok(request) => (self.at(MailStage::Sending), MailActionView::Send(request)),
                Err(e) => self.failing(e),
            },
            Err(e) => self.failing(e),
        }
    }
}

/// How a mailing begins: by asking the account who it is.
pub open spec fn mailing_start(
    token: Seq<char>,
    pdf: Seq<u8>,
    iso_date: Seq<char>,
    recipient: Seq<char>,
    ask: bool,
) -> (MailingView, MailActionView) {
    let fresh = MailingView {
        token,
        pdf,
        iso_date,
        recipient,
        ask,
        stage: MailStage::Identifying,
        sender: None,
    };
    match identity_call(token) {
        Ok(request) => (fresh, MailActionView::Identify(request)),
        Err(e) => fresh.failing(e),
    }
}

/// How a mailing goes on when `event` comes in.
pub open spec fn mailing_step(mailing: MailingView, event: MailEventView) -> (
    MailingView,
    MailActionView,
) {
    match (mailing.stage, event) {
        (MailStage::Identifying, MailEventView::Identified(reply)) => match settled(reply) {
            Ok(sender) => if mailing.ask {
                (
                    MailingView { stage: MailStage::Asking, sender: Some(sender), ..mailing },
                    MailActionView::Ask(sender),
                )
            } else {
                mailing.sending(sender)
            },
            Err(e) => mailing.failing(e),
        },
        (MailStage::Asking, MailEventView::Answered(line)) => match mailing.sender {
            Some(sender) => if confirms(line) {
                mailing.sending(sender)
            } else {
                (mailing.at(MailStage::Declined), MailActionView::Skip)
            },
            None => mailing.failing(Failure::OutOfTurn),
        },
        (MailStage::Sending, MailEventView::Delivered(reply)) => match settled(reply) {
            Ok(_) => (mailing.at(MailStage::Sent), MailActionView::Done),
            Err(e) => mailing.failing(e),
        },
        _ => mailing.failing(Failure::OutOfTurn),
    }
}

/// Whatever message goes out, its call names the length of that message.
pub proof fn lemma_sent_length_is_that_of_message(mailing: MailingView, event: MailEventView)
    ensures
        mailing_step(mailing, event).1 matches MailActionView::Send(request) ==> {
            &&& request.body matches PayloadView::Raw(message)
            &&& request.content_length == Some(message.len() as usize)
        },
{
}

/// A message goes out only after the human has confirmed, where the human is
/// asked at all.
pub proof fn lemma_nothing_sent_unconfirmed(mailing: MailingView, event: MailEventView)
    requires
        mailing.ask,
        mailing_step(mailing, event).1 is Send,
    ensures
        mailing.stage == MailStage::Asking,
        event matches MailEventView::Answered(line) && confirms(line),
{
}

/// An answer that does not confirm ends the mailing without a failure and
/// without a message.
pub proof fn lemma_declined_is_no_failure(mailing: MailingView, line: Seq<char>)
    requires
        mailing.stage == MailStage::Asking,
        mailing.sender is Some,
        !confirms(line),
    ensures
        mailing_step(mailing, MailEventView::Answered(line)) == (
            mailing.at(MailStage::Declined),
            MailActionView::Skip,
        ),
{
}

impl Mailing {
    /// The mailing at `stage`, the sender forgotten.
    fn at(self, stage: MailStage) -> (m: Mailing)
        ensures
            m@ == self@.at(stage),
    {
        let mut mailing = self;
        mailing.stage = stage;
        mailing.sender = None;
        mailing
    }

    /// The mailing having failed with `e`.
    fn failing(self, e: Failure) -> (r: (Mailing, MailAction))
        ensures
            (r.0@, r.1@) == self@.failing(e),
    {
        (self.at(MailStage::Failed), MailAction::Fail(e))
    }

    /// The mailing sending the message in the name of `sender`.
    fn sending(self, sender: &Identity) -> (r: (Mailing, MailAction))
        ensures
            (r.0@, r.1@) == self@.sending(sender@),
    {
        match compose(sender, self.pdf.as_slice(), self.iso_date.as_str(), self.recipient.as_str()) {
            Ok(message) => match send_request(self.token.as_str(), message) {
                Ok(request) => (self.at(MailStage::Sending), MailAction::Send(request)),
                Err(e) => self.failing(e),
            },
            Err(e) => self.failing(e),
        }
    }

    /// Begins a mailing of the invoice `pdf` of the day `iso_date` to
    /// `recipient`. With `ask` the human is asked before the message goes out.
    pub fn start(token: String, pdf: Vec<u8>, iso_date: String, recipient: String, ask: bool) -> (r:
        (Mailing, MailAction))
        ensures
            (r.0@, r.1@) == mailing_start(token@, pdf@, iso_date@, recipient@, ask),
    {
        let request = identity_request(token.as_str());
        let fresh = Mailing {
            token,
            pdf,
            iso_date,
            recipient,
            ask,
            stage: MailStage::Identifying,
            sender: None,
        };
        match request {
            Ok(request) => (fresh, MailAction::Identify(request)),
            Err(e) => fresh.failing(e),
        }
    }

    /// Takes `event` in and says what is to be done next.
    pub fn step(self, event: MailEvent) -> (r: (Mailing, MailAction))
        ensures
            (r.0@, r.1@) == mailing_step(self@, event@),
    {
        match (self.stage, event) {
            (MailStage::Identifying, MailEvent::Identified(reply)) => {
                match settle(reply) {
                    Ok(sender) => {
                        if self.ask {
                            let shown = Identity {
                                display_name: sender.display_name.clone(),
                                email_address: sender.email_address.clone(),
                            };
                            let mut mailing = self;
                            mailing.stage = MailStage::Asking;
                            mailing.sender = Some(sender);
                            (mailing, MailAction::Ask(shown))
                        } else {
                            self.sending(&sender)
                        }
                    },
                    Err(e) => self.failing(e),
                }
            },
            (MailStage::Asking, MailEvent::Answered(line)) => {
                let mut mailing = self;
                match mailing.sender.take() {
                    Some(sender) => {
                        if is_confirmation(line.as_str()) {
                            mailing.sending(&sender)
                        } else {
                            (mailing.at(MailStage::Declined), MailAction::Skip)
                        }
                    },
                    None => mailing.failing(Failure::OutOfTurn),
                }
            },
            (MailStage::Sending, MailEvent::Delivered(reply)) => {
                match settle(reply) {
                    Ok(_) => (self.at(MailStage::Sent), MailAction::Done),
                    Err(e) => self.failing(e),
                }
            },
            (_, _) => self.failing(Failure::OutOfTurn),
        }
    }
}

} // verus!
