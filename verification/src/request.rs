//! A remote call as data: what is to be sent, ready for the transport.

use vstd::prelude::*;

verus! {

/// The verb of a call.
#[derive(Clone, Copy, Debug, PartialEq, Eq, Structural)]
pub enum Method {
    Get,
    Post,
    Put,
}

/// The body of a call.
#[derive(Clone, Debug, PartialEq, Eq)]
pub enum Payload {
    /// No body.
    Empty,
    /// The JSON object of a copy: `name` and `parents`.
    Copy { name: String, parents: Vec<String> },
    /// The JSON object of a cell update: `values`, row by row.
    Values { values: Vec<Vec<String>> },
    /// These bytes as they are.
    Raw(Vec<u8>),
}

/// A body as plain values.
pub enum PayloadView {
    Empty,
    Copy { name: Seq<char>, parents: Seq<Seq<char>> },
    Values { values: Seq<Seq<Seq<char>>> },
    Raw(Seq<u8>),
}

impl View for Payload {
    type V = PayloadView;

    open spec fn view(&self) -> PayloadView {
        match self {
            Payload::Empty => PayloadView::Empty,
            Payload::Copy { name, parents } => PayloadView::Copy {
                name: name@,
                parents: parents.deep_view(),
            },
            Payload::Values { values } => PayloadView::Values { values: values.deep_view() },
            Payload::Raw(bytes) => PayloadView::Raw(bytes@),
        }
    }
}

/// One remote call.
#[derive(Clone, Debug, PartialEq, Eq)]
pub struct Request {
    pub method: Method,
    /// The address, query included.
    pub url: String,
    /// The access token to authorise with, where the call needs one.
    pub bearer: Option<String>,
    /// The `Content-Type` header, where the call sets it.
    pub content_type: Option<String>,
    /// The `Content-Length` header, where the call sets it.
    pub content_length: Option<usize>,
    pub body: Payload,
}

/// A call as plain values.
pub struct RequestView {
    pub method: Method,
    pub url: Seq<char>,
    pub bearer: Option<Seq<char>>,
    pub content_type: Option<Seq<char>>,
    pub content_length: Option<usize>,
    pub body: PayloadView,
}

/// An optional text as plain values.
pub open spec fn text_view(text: Option<String>) -> Option<Seq<char>> {
    match text {
        Some(t) => Some(t@),
        None => None,
    }
}

impl View for Request {
    type V = RequestView;

    open spec fn view(&self) -> RequestView {
        RequestView {
            method: self.method,
            url: self.url@,
            bearer: text_view(self.bearer),
            content_type: text_view(self.content_type),
            content_length: self.content_length,
            body: self.body@,
        }
    }
}

impl DeepView for Request {
    type V = RequestView;

    open spec fn deep_view(&self) -> RequestView {
        self@
    }
}

} // verus!
