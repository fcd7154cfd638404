//! What a run is configured with: the OAuth2 client and what to look for.

use crate::calendar::{display_stamp, iso_stamp, Day};
use vstd::prelude::*;
use vstd::string::StringExecFns;

verus! {

/// Scope for reading and writing documents.
pub const DRIVE_SCOPE: &'static str = "https://www.googleapis.com/auth/drive";

/// Scope for sending mail.
pub const MAIL_SCOPE: &'static str = "https://www.googleapis.com/auth/gmail.send";

/// Name of the template document.
pub const TEMPLATE_NAME: &'static str = "Invoice Template";

/// MIME type of the template document.
pub const TEMPLATE_MIME: &'static str = "application/vnd.google-apps.spreadsheet";

/// Name of the destination folder.
pub const FOLDER_NAME: &'static str = "MobileCoin";

/// MIME type of a folder.
pub const FOLDER_MIME: &'static str = "application/vnd.google-apps.folder";

/// The OAuth2 client, made once at start and handed to whoever needs it.
#[derive(Clone, Debug, PartialEq, Eq)]
pub struct Config {
    pub client_id: String,
    pub client_secret: String,
    /// Where a human grants access.
    pub auth_uri: String,
    /// Where codes and refresh tokens are exchanged for access tokens.
    pub token_uri: String,
    /// The scopes a grant must hold, all of them and no other.
    pub scopes: Vec<String>,
}

/// A configuration as plain values.
pub struct ConfigView {
    pub client_id: Seq<char>,
    pub client_secret: Seq<char>,
    pub auth_uri: Seq<char>,
    pub token_uri: Seq<char>,
    pub scopes: Seq<Seq<char>>,
}

impl View for Config {
    type V = ConfigView;

    open spec fn view(&self) -> ConfigView {
        ConfigView {
            client_id: self.client_id@,
            client_secret: self.client_secret@,
            auth_uri: self.auth_uri@,
            token_uri: self.token_uri@,
            scopes: self.scopes.deep_view(),
        }
    }
}

/// The scopes that a run needs: documents and mail.
pub open spec fn required_scopes() -> Seq<Seq<char>> {
    seq![DRIVE_SCOPE@, MAIL_SCOPE@]
}

impl Config {
    /// The configuration of a client that asks for the scopes a run needs.
    pub fn new(client_id: String, client_secret: String, auth_uri: String, token_uri: String) -> (c:
        Config)
        ensures
            c@ == (ConfigView {
                client_id: client_id@,
                client_secret: client_secret@,
                auth_uri: auth_uri@,
                token_uri: token_uri@,
                scopes: required_scopes(),
            }),
    {
        let mut scopes: Vec<String> = Vec::new();
        scopes.push(String::from_str(DRIVE_SCOPE));
        scopes.push(String::from_str(MAIL_SCOPE));
        assert(scopes.deep_view() =~= required_scopes());
        Config { client_id, client_secret, auth_uri, token_uri, scopes }
    }
}

/// What a lookup asks for: a document by name and MIME type.
#[derive(Clone, Debug, PartialEq, Eq)]
pub struct DocumentQuery {
    pub name: String,
    pub mime_type: String,
}

/// A lookup as plain values.
pub struct QueryView {
    pub name: Seq<char>,
    pub mime_type: Seq<char>,
}

impl View for DocumentQuery {
    type V = QueryView;

    open spec fn view(&self) -> QueryView {
        QueryView { name: self.name@, mime_type: self.mime_type@ }
    }
}

/// What one run works on, fixed when it starts.
#[derive(Clone, Debug, PartialEq, Eq)]
pub struct PipelineRequest {
    /// The template to copy.
    pub template: DocumentQuery,
    /// The folder to copy into.
    pub folder: DocumentQuery,
    /// The date as the patched cell shows it.
    pub display_date: String,
    /// The date as the copy's name holds it.
    pub iso_date: String,
}

/// A run's request as plain values.
pub struct PipelineRequestView {
    pub template: QueryView,
    pub folder: QueryView,
    pub display_date: Seq<char>,
    pub iso_date: Seq<char>,
}

impl View for PipelineRequest {
    type V = PipelineRequestView;

    open spec fn view(&self) -> PipelineRequestView {
        PipelineRequestView {
            template: self.template@,
            folder: self.folder@,
            display_date: self.display_date@,
            iso_date: self.iso_date@,
        }
    }
}

/// The request of a run with the two stamps: the invoice template, copied
/// into the invoice folder.
pub open spec fn stamped_request(display_date: Seq<char>, iso_date: Seq<char>)
    -> PipelineRequestView {
    PipelineRequestView {
        template: QueryView { name: TEMPLATE_NAME@, mime_type: TEMPLATE_MIME@ },
        folder: QueryView { name: FOLDER_NAME@, mime_type: FOLDER_MIME@ },
        display_date,
        iso_date,
    }
}

impl PipelineRequest {
    /// The request of a run on `day`: both stamps are of that day.
    pub fn for_day(day: Day) -> (r: PipelineRequest)
        ensures
            r@ == stamped_request(display_stamp(day), iso_stamp(day)),
    {
        PipelineRequest::new(day.display(), day.iso())
    }

    /// The request of a run on the day that the two stamps name.
    pub fn new(display_date: String, iso_date: String) -> (r: PipelineRequest)
        ensures
            r@ == stamped_request(display_date@, iso_date@),
    {
        PipelineRequest {
            template: DocumentQuery {
                name: String::from_str(TEMPLATE_NAME),
                mime_type: String::from_str(TEMPLATE_MIME),
            },
            folder: DocumentQuery {
                name: String::from_str(FOLDER_NAME),
                mime_type: String::from_str(FOLDER_MIME),
            },
            display_date,
            iso_date,
        }
    }
}

} // verus!
