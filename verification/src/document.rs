//! What the remote document service tells of a document, and what a run hands on.

use vstd::prelude::*;

verus! {

/// The identifying data of a remote document: the template, the destination
/// folder or the fresh copy.
#[derive(Clone, Debug, PartialEq, Eq)]
pub struct DocumentRef {
    pub id: String,
    pub name: String,
    pub mime_type: String,
    /// The folders that hold the document, in the order the service gave them.
    pub parents: Vec<String>,
    pub web_view_link: String,
}

/// A document reference as plain values.
pub struct DocumentView {
    pub id: Seq<char>,
    pub name: Seq<char>,
    pub mime_type: Seq<char>,
    pub parents: Seq<Seq<char>>,
    pub web_view_link: Seq<char>,
}

impl View for DocumentRef {
    type V = DocumentView;

    open spec fn view(&self) -> DocumentView {
        DocumentView {
            id: self.id@,
            name: self.name@,
            mime_type: self.mime_type@,
            parents: self.parents.deep_view(),
            web_view_link: self.web_view_link@,
        }
    }
}

/// The account that the calls are made for.
#[derive(Clone, Debug, PartialEq, Eq)]
pub struct Identity {
    pub display_name: String,
    pub email_address: String,
}

/// An identity as plain values.
pub struct IdentityView {
    pub display_name: Seq<char>,
    pub email_address: Seq<char>,
}

impl View for Identity {
    type V = IdentityView;

    open spec fn view(&self) -> IdentityView {
        IdentityView { display_name: self.display_name@, email_address: self.email_address@ }
    }
}

/// The rendered invoice with the copy it was rendered from.
#[derive(Clone, Debug, PartialEq, Eq)]
pub struct InvoiceArtifact {
    pub bytes: Vec<u8>,
    pub document: DocumentRef,
}

/// An artifact as plain values.
pub struct ArtifactView {
    pub bytes: Seq<u8>,
    pub document: DocumentView,
}

impl View for InvoiceArtifact {
    type V = ArtifactView;

    open spec fn view(&self) -> ArtifactView {
        ArtifactView { bytes: self.bytes@, document: self.document@ }
    }
}

impl DeepView for DocumentRef {
    type V = DocumentView;

    open spec fn deep_view(&self) -> DocumentView {
        self@
    }
}

impl DeepView for Identity {
    type V = IdentityView;

    open spec fn deep_view(&self) -> IdentityView {
        self@
    }
}

impl DeepView for InvoiceArtifact {
    type V = ArtifactView;

    open spec fn deep_view(&self) -> ArtifactView {
        self@
    }
}

} // verus!
