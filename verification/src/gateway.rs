//! The calls to the document service: list, copy, patch, export, identity.
//! Each is built here and sent elsewhere; its reply is sorted here again.

use crate::address::{address, address_text, pairs};
use crate::config::{DocumentQuery, QueryView};
use crate::document::{DocumentRef, DocumentView};
use crate::outcome::{result_view, settle, settled, Failure, Reply};
use crate::request::{Method, Payload, PayloadView, Request, RequestView};
use vstd::prelude::*;
use vstd::string::StringExecFns;

verus! {

/// Where documents are listed, copied and exported.
pub const FILES: &'static str = "https://www.googleapis.com/drive/v3/files";

/// Where the account tells who it is.
pub const ABOUT: &'static str = "https://www.googleapis.com/drive/v3/about";

/// Where sheets are read and written.
pub const SHEETS: &'static str = "https://sheets.googleapis.com/v4/spreadsheets";

/// The fields asked of each listed document.
pub const LIST_FIELDS: &'static str = "files(id, name, mimeType, parents, webViewLink)";

/// The fields asked of a copy.
pub const COPY_FIELDS: &'static str = "id, name, mimeType, parents, webViewLink";

/// The fields asked of the account.
pub const IDENTITY_FIELDS: &'static str = "user(displayName, emailAddress)";

/// The cells that hold the invoice date.
pub const DATE_RANGE: &'static str = "D9:E9";

/// The MIME type that an invoice is rendered to.
pub const EXPORT_MIME: &'static str = "application/pdf";

/// The MIME type of a JSON body.
pub const JSON: &'static str = "application/json";

/// The capability query of a lookup: name, MIME type, not in the bin.
pub open spec fn query_text(query: QueryView) -> Seq<char> {
    "name='"@ + query.name + "' and mimeType='"@ + query.mime_type + "' and trashed = false"@
}

/// The name of the copy made on the day `iso_date`.
pub open spec fn copy_name(iso_date: Seq<char>) -> Seq<char> {
    "Invoice-"@ + iso_date
}

/// The authorised call of `method` to `url` with `body`; JSON bodies say so.
pub open spec fn call(method: Method, url: Option<Seq<char>>, token: Seq<char>, body: PayloadView)
    -> Result<RequestView, Failure> {
    match url {
        Some(u) => Ok(
            RequestView {
                method,
                url: u,
                bearer: Some(token),
                content_type: if body is Empty || body is Raw {
                    None
                } else {
                    Some(JSON@)
                },
                content_length: None,
                body,
            },
        ),
        None => Err(Failure::Address),
    }
}

/// The call that lists the documents matching `query`.
pub open spec fn list_call(token: Seq<char>, query: QueryView) -> Result<RequestView, Failure> {
    call(
        Method::Get,
        address_text(FILES@, seq![("q"@, query_text(query)), ("fields"@, LIST_FIELDS@)]),
        token,
        PayloadView::Empty,
    )
}

/// The call that copies the document `file_id` into the folder `folder_id`
/// under the name of the day.
pub open spec fn copy_call(
    token: Seq<char>,
    file_id: Seq<char>,
    folder_id: Seq<char>,
    iso_date: Seq<char>,
) -> Result<RequestView, Failure> {
    call(
        Method::Post,
        address_text(FILES@ + "/"@ + file_id + "/copy"@, seq![("fields"@, COPY_FIELDS@)]),
        token,
        PayloadView::Copy { name: copy_name(iso_date), parents: seq![folder_id] },
    )
}

/// The call that writes `value` into the date cells of the sheet
/// `document_id`, as if a user had typed it.
pub open spec fn patch_call(token: Seq<char>, document_id: Seq<char>, value: Seq<char>) -> Result<
    RequestView,
    Failure,
> {
    call(
        Method::Put,
        address_text(
            SHEETS@ + "/"@ + document_id + "/values/"@ + DATE_RANGE@,
            seq![("valueInputOption"@, "USER_ENTERED"@)],
        ),
        token,
        PayloadView::Values { values: seq![seq![value]] },
    )
}

/// The call that renders the document `document_id`.
pub open spec fn export_call(token: Seq<char>, document_id: Seq<char>) -> Result<
    RequestView,
    Failure,
> {
    call(
        Method::Get,
        address_text(FILES@ + "/"@ + document_id + "/export"@, seq![("mimeType"@, EXPORT_MIME@)]),
        token,
        PayloadView::Empty,
    )
}

/// The call that asks the account for its name and mail address.
pub open spec fn identity_call(token: Seq<char>) -> Result<RequestView, Failure> {
    call(
        Method::Get,
        address_text(ABOUT@, seq![("fields"@, IDENTITY_FIELDS@)]),
        token,
        PayloadView::Empty,
    )
}

/// The first of the listed documents; `NotFound` where the list is empty.
pub open spec fn first_match(reply: Reply<Seq<DocumentView>>) -> Result<DocumentView, Failure> {
    match settled(reply) {
        Ok(files) => if files.len() == 0 {
            Err(Failure::NotFound)
        } else {
            Ok(files[0])
        },
        Err(e) => Err(e),
    }
}

/// Builds the authorised call of `method` to `url` with `body`.
fn authorised(method: Method, url: Result<String, Failure>, token: &str, body: Payload) -> (r:
    Result<Request, Failure>)
    ensures
        result_view(r) == call(
            method,
            match url {
                Ok(u) => Some(u@),
                Err(_) => None,
            },
            token@,
            body@,
        ),
{
    match url {
        Ok(u) => {
            let content_type = match body {
                Payload::Empty => None,
                Payload::Raw(_) => None,
                _ => Some(String::from_str(JSON)),
            };
            Ok(
                Request {
                    method,
                    url: u,
                    bearer: Some(String::from_str(token)),
                    content_type,
                    content_length: None,
                    body,
                },
            )
        },
        Err(_) => Err(Failure::Address),
    }
}

/// Builds the capability query of a lookup.
pub fn capability_query(wanted: &DocumentQuery) -> (text: String)
    ensures
        text@ == query_text(wanted@),
{
    let mut text = String::from_str("name='");
    text.append(wanted.name.as_str());
    text.append("' and mimeType='");
    text.append(wanted.mime_type.as_str());
    text.append("' and trashed = false");
    text
}

/// Builds the call that lists the documents matching `query`.
pub fn list_request(token: &str, query: &DocumentQuery) -> (r: Result<Request, Failure>)
    ensures
        result_view(r) == list_call(token@, query@),
{
    let q = capability_query(query);
    let params: Vec<(&str, &str)> = vec![("q", q.as_str()), ("fields", LIST_FIELDS)];
    proof {
        assert(pairs(params@) =~= seq![("q"@, query_text(query@)), ("fields"@, LIST_FIELDS@)]);
    }
    authorised(Method::Get, address(FILES, &params), token, Payload::Empty)
}

/// Builds the call that copies the document `file_id` into the folder
/// `folder_id`, named `Invoice-` and the day.
pub fn copy_request(token: &str, file_id: &str, folder_id: &str, iso_date: &str) -> (r: Result<
    Request,
    Failure,
>)
    ensures
        result_view(r) == copy_call(token@, file_id@, folder_id@, iso_date@),
{
    let mut base = String::from_str(FILES);
    base.append("/");
    base.append(file_id);
    base.append("/copy");
    let params: Vec<(&str, &str)> = vec![("fields", COPY_FIELDS)];
    proof {
        assert(pairs(params@) =~= seq![("fields"@, COPY_FIELDS@)]);
    }
    let mut name = String::from_str("Invoice-");
    name.append(iso_date);
    let mut parents: Vec<String> = Vec::new();
    parents.push(String::from_str(folder_id));
    proof {
        assert(parents.deep_view() =~= seq![folder_id@]);
    }
    authorised(
        Method::Post,
        address(base.as_str(), &params),
        token,
        Payload::Copy { name, parents },
    )
}

/// Builds the call that writes `value` into the date cells of the sheet
/// `document_id`.
pub fn patch_request(token: &str, document_id: &str, value: &str) -> (r: Result<Request, Failure>)
    ensures
        result_view(r) == patch_call(token@, document_id@, value@),
{
    let mut base = String::from_str(SHEETS);
    base.append("/");
    base.append(document_id);
    base.append("/values/");
    base.append(DATE_RANGE);
    let params: Vec<(&str, &str)> = vec![("valueInputOption", "USER_ENTERED")];
    proof {
        assert(pairs(params@) =~= seq![("valueInputOption"@, "USER_ENTERED"@)]);
    }
    let mut row: Vec<String> = Vec::new();
    row.push(String::from_str(value));
    let mut values: Vec<Vec<String>> = Vec::new();
    values.push(row);
    proof {
        assert(values@[0].deep_view() =~= seq![value@]);
        assert(values.deep_view() =~= seq![seq![value@]]);
    }
    authorised(Method::Put, address(base.as_str(), &params), token, Payload::Values { values })
}

/// Builds the call that renders the document `document_id`.
pub fn export_request(token: &str, document_id: &str) -> (r: Result<Request, Failure>)
    ensures
        result_view(r) == export_call(token@, document_id@),
{
    let mut base = String::from_str(FILES);
    base.append("/");
    base.append(document_id);
    base.append("/export");
    let params: Vec<(&str, &str)> = vec![("mimeType", EXPORT_MIME)];
    proof {
        assert(pairs(params@) =~= seq![("mimeType"@, EXPORT_MIME@)]);
    }
    authorised(Method::Get, address(base.as_str(), &params), token, Payload::Empty)
}

/// Builds the call that asks the account for its name and mail address.
pub fn identity_request(token: &str) -> (r: Result<Request, Failure>)
    ensures
        result_view(r) == identity_call(token@),
{
    let params: Vec<(&str, &str)> = vec![("fields", IDENTITY_FIELDS)];
    proof {
        assert(pairs(params@) =~= seq![("fields"@, IDENTITY_FIELDS@)]);
    }
    authorised(Method::Get, address(ABOUT, &params), token, Payload::Empty)
}

/// Sorts the reply to a list call: the first match, `NotFound` where nothing
/// matched, else the failure of the call. Of several matches the first is
/// taken.
pub fn resolve_match(reply: Reply<Vec<DocumentRef>>) -> (r: Result<DocumentRef, Failure>)
    ensures
        result_view(r) == first_match(reply.deep_view()),
{
    match settle(reply) {
        Ok(files) => {
            let mut files = files;
            if files.len() == 0 {
                Err(Failure::NotFound)
            } else {
                Ok(files.swap_remove(0))
            }
        },
        Err(e) => Err(e),
    }
}

} // verus!
