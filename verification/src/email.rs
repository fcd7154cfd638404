//! The outgoing mail: one multipart message with the invoice attached, and
//! the call that sends it.

use crate::address::{address, address_text, pairs};
use crate::document::{Identity, IdentityView};
use crate::encoding::{
    base64_bytes, base64_text, decode, encode, encoded_len, is_base64_symbol, is_encodable,
    spec_text_limit, text_limit,
};
use crate::outcome::{result_view, Failure};
use crate::request::{Method, Payload, PayloadView, Request, RequestView};
use crate::wire::{
    append_crlf, crlf, ends_lines_with_crlf, ends_with, find_last, is_one_line, last_occurrence,
    lemma_crlf_concat, lemma_crlf_ends_lines, lemma_crlf_keeps_one_line, lemma_last_occurrence,
    matches_at, occurs_at, utf8, CR, LF,
};
use vstd::prelude::*;
use vstd::string::StringExecFns;

verus! {

/// Where mail is sent.
pub const MAIL_SEND: &'static str =
    "https://gmail.googleapis.com/upload/gmail/v1/users/me/messages/send";

/// The MIME type of a mail message.
pub const RFC822: &'static str = "message/rfc822";

/// Who invoices go to.
pub const RECIPIENT: &'static str = "Accounting <accounting@mobilecoin.com>";

/// The token that parts the message's parts.
pub const BOUNDARY: &'static str = "invoice_pdf";

/// The first header, up to the sender's name.
pub const OPENING: &'static str = "MIME-Version: 1.0\nFrom: ";

/// From the sender's address to the recipient.
pub const TO: &'static str = ">\nTo: ";

/// From the recipient to the subject's variable part.
pub const SUBJECT: &'static str = "\nSubject: Invoice - ";

/// The header that names the boundary.
pub const MULTIPART: &'static str = "\nContent-Type: multipart/mixed; boundary=";

/// What stands before the boundary at the start of each part.
pub const DELIMITER: &'static str = "\n\n--";

/// The part that a human reads.
pub const TEXT_PART: &'static str =
    "\nContent-Type: text/plain; charset=\"UTF-8\"\n\nHere is my invoice for the previous 2 weeks, thank you.";

/// The attachment's first header, up to the sender's name.
pub const PDF_PART: &'static str = "\nContent-Type: application/pdf; name=\"Invoice-";

/// From the attachment's name to the date in its file name.
pub const DISPOSITION: &'static str =
    ".pdf\"\nContent-Disposition: attachment; filename=Invoice-";

/// From the file name to the end of the attachment's headers.
pub const ENCODING: &'static str = ".pdf\nContent-Transfer-Encoding: base64";

/// What stands behind the boundary at the end of the message.
pub const CLOSING: &'static str = "--\n    ";

/// A composed message, as it goes over the wire.
#[derive(Clone, Debug, PartialEq, Eq)]
pub struct MimeMessage {
    pub bytes: Vec<u8>,
}

impl View for MimeMessage {
    type V = Seq<u8>;

    open spec fn view(&self) -> Seq<u8> {
        self.bytes@
    }
}

/// The empty line between headers and body.
pub open spec fn blank_line() -> Seq<u8> {
    seq![LF, LF]
}

/// The empty line as it stands in a message.
pub open spec fn wire_blank_line() -> Seq<u8> {
    seq![CR, LF, CR, LF]
}

/// Everything before the attachment's body, lines ended by line feeds: the
/// message's headers, the part a human reads, the attachment's headers.
pub open spec fn head(
    name: Seq<u8>,
    email: Seq<u8>,
    to: Seq<u8>,
    date: Seq<u8>,
    boundary: Seq<u8>,
) -> Seq<u8> {
    utf8(OPENING@) + name + utf8(" <"@) + email + utf8(TO@) + to + utf8(SUBJECT@) + name + utf8(
        " - "@,
    ) + date + utf8(MULTIPART@) + boundary + utf8(DELIMITER@) + boundary + utf8(TEXT_PART@)
        + utf8(DELIMITER@) + boundary + utf8(PDF_PART@) + name + utf8("-"@) + date + utf8(
        DISPOSITION@,
    ) + date + utf8(ENCODING@)
}

/// Everything behind the attachment's body, lines ended by line feeds.
pub open spec fn tail(boundary: Seq<u8>) -> Seq<u8> {
    utf8(DELIMITER@) + boundary + utf8(CLOSING@)
}

/// The whole message with the attachment's body `payload`, lines ended by
/// line feeds.
pub open spec fn layout(
    name: Seq<u8>,
    email: Seq<u8>,
    to: Seq<u8>,
    date: Seq<u8>,
    boundary: Seq<u8>,
    payload: Seq<u8>,
) -> Seq<u8> {
    head(name, email, to, date, boundary) + blank_line() + payload + tail(boundary)
}

/// The message that carries `pdf` from `identity` to `to` on the day `date`:
/// the layout with the bytes in base64, every line ended by CRLF.
pub open spec fn message(
    identity: IdentityView,
    pdf: Seq<u8>,
    date: Seq<char>,
    to: Seq<char>,
    boundary: Seq<char>,
) -> Seq<u8> {
    crlf(
        layout(
            utf8(identity.display_name),
            utf8(identity.email_address),
            utf8(to),
            utf8(date),
            utf8(boundary),
            base64_text(pdf),
        ),
    )
}

/// The body of the last part of `message`: what stands between the last
/// empty line and the closing delimiter of `boundary`. `None` where the
/// message does not end with that delimiter or holds no empty line before it.
pub open spec fn attachment_text(message: Seq<u8>, boundary: Seq<u8>) -> Option<Seq<u8>> {
    let closing = crlf(tail(boundary));
    if ends_with(message, closing) {
        let body = message.take(message.len() - closing.len());
        match last_occurrence(body, wire_blank_line()) {
            Some(i) => Some(body.skip(i + 4)),
            None => None,
        }
    } else {
        None
    }
}

/// The bytes that the last part of `message` carries in base64. `None` where
/// the message is not laid out so, the text is no base64, or it is longer
/// than texts are read.
pub open spec fn attachment(message: Seq<u8>, boundary: Seq<u8>) -> Option<Seq<u8>> {
    match attachment_text(message, boundary) {
        Some(text) => if text.len() <= spec_text_limit() {
            base64_bytes(text)
        } else {
            None
        },
        None => None,
    }
}

/// The call that sends `message`: the raw message for a body, with its own
/// length, in bytes, for `Content-Length`.
pub open spec fn send_call(token: Seq<char>, message: Seq<u8>) -> Result<RequestView, Failure> {
    match address_text(MAIL_SEND@, seq![("uploadType"@, "multipart"@)]) {
        Some(url) => Ok(
            RequestView {
                method: Method::Post,
                url,
                bearer: Some(token),
                content_type: Some(RFC822@),
                content_length: Some(message.len() as usize),
                body: PayloadView::Raw(message),
            },
        ),
        None => Err(Failure::Address),
    }
}

/// Behind `before` and an empty line, a `payload` without a line break
/// holds no further empty line.
proof fn lemma_last_blank_line(before: Seq<u8>, payload: Seq<u8>)
    requires
        is_one_line(payload),
    ensures
        last_occurrence(before + wire_blank_line() + payload, wire_blank_line()) == Some(
            before.len() as int,
        ),
{
    let blank = wire_blank_line();
    let body = before + blank + payload;
    let at = before.len() as int;
    assert(occurs_at(body, blank, at)) by {
        assert(body.subrange(at, at + 4) =~= blank);
    }
    lemma_last_occurrence(body, blank);
    match last_occurrence(body, blank) {
        Some(i) => {
            if i > at {
                lemma_no_blank_line_behind(before, payload, i);
            }
        },
        None => {},
    }
}

/// No empty line stands at `j`, behind the one that `payload` follows.
proof fn lemma_no_blank_line_behind(before: Seq<u8>, payload: Seq<u8>, j: int)
    requires
        is_one_line(payload),
        before.len() < j,
    ensures
        !occurs_at(before + wire_blank_line() + payload, wire_blank_line(), j),
{
    let blank = wire_blank_line();
    let body = before + blank + payload;
    let at = before.len() as int;
    assert(blank.len() == 4 && blank[3] == LF);
    assert(body.len() == at + 4 + payload.len());
    if 0 <= j && j + 4 <= body.len() {
        let k = j + 3 - at - 4;
        assert(0 <= k < payload.len());
        assert(body[j + 3] == payload[k]);
        assert(payload[k] != LF);
        assert(body.subrange(j, j + 4)[3] == body[j + 3]);
        assert(body.subrange(j, j + 4) != blank);
    }
}

/// Of a text made of `before`, an empty line, `payload` without a line
/// break, and `closing`, the last empty line before `closing` is the one
/// before `payload`.
proof fn lemma_last_part(before: Seq<u8>, payload: Seq<u8>, closing: Seq<u8>)
    requires
        is_one_line(payload),
    ensures
        ({
            let body = before + wire_blank_line() + payload;
            let whole = body + closing;
            &&& ends_with(whole, closing)
            &&& whole.take(whole.len() - closing.len()) == body
            &&& last_occurrence(body, wire_blank_line()) == Some(before.len() as int)
            &&& body.skip(before.len() as int + 4) == payload
        }),
{
    let body = before + wire_blank_line() + payload;
    let whole = body + closing;
    assert(ends_with(whole, closing)) by {
        assert(whole.subrange(whole.len() - closing.len(), whole.len() as int) =~= closing);
    }
    assert(whole.take(whole.len() - closing.len()) == body) by {
        assert(whole.take(whole.len() - closing.len()) =~= body);
    }
    assert(body.skip(before.len() as int + 4) == payload) by {
        assert(body.skip(before.len() as int + 4) =~= payload);
    }
    lemma_last_blank_line(before, payload);
}

/// An empty line, written with CRLF.
proof fn lemma_blank_line()
    ensures
        crlf(blank_line()) == wire_blank_line(),
{
    reveal_with_fuel(crlf, 3);
    assert(blank_line().drop_last() =~= seq![LF]);
    assert(seq![LF].drop_last() =~= Seq::<u8>::empty());
    assert(crlf(blank_line()) =~= wire_blank_line());
}

/// A message whose attachment body holds no line break is read back as it
/// was laid out: the body of its last part is that body, whatever stands in
/// the headers.
pub proof fn lemma_attachment_text_of_layout(
    name: Seq<u8>,
    email: Seq<u8>,
    to: Seq<u8>,
    date: Seq<u8>,
    boundary: Seq<u8>,
    payload: Seq<u8>,
)
    requires
        is_one_line(payload),
    ensures
        attachment_text(crlf(layout(name, email, to, date, boundary, payload)), boundary) == Some(
            payload,
        ),
{
    let h = head(name, email, to, date, boundary);
    let closing = tail(boundary);
    lemma_crlf_concat(h + blank_line() + payload, closing);
    lemma_crlf_concat(h + blank_line(), payload);
    lemma_crlf_concat(h, blank_line());
    lemma_crlf_keeps_one_line(payload);
    lemma_blank_line();
    lemma_last_part(crlf(h), payload, crlf(closing));
}

/// The call that sends a message says how long the message is, and has the
/// message for its body: the length is never that of the attachment alone.
pub proof fn lemma_length_is_that_of_message(token: Seq<char>, message: Seq<u8>)
    requires
        message.len() <= usize::MAX,
    ensures
        send_call(token, message) matches Ok(request) ==> {
            &&& request.content_length matches Some(n)
            &&& n == message.len()
            &&& request.body == PayloadView::Raw(message)
        },
{
}

/// Base64 text holds no line break.
pub proof fn lemma_base64_is_one_line(text: Seq<u8>)
    requires
        forall|i: int| 0 <= i < text.len() ==> is_base64_symbol(#[trigger] text[i]),
    ensures
        is_one_line(text),
{
}

impl MimeMessage {
    /// The value of the `Content-Length` header: how many bytes the composed
    /// message holds, line ends as CRLF, attachment and all.
    pub fn content_length(&self) -> (n: usize)
        ensures
            n == self@.len(),
    {
        self.bytes.len()
    }
}

/// Writes `piece` behind what `out` holds of `text`, line ends as CRLF.
fn put(out: &mut Vec<u8>, piece: &[u8], text: Ghost<Seq<u8>>) -> (next: Ghost<Seq<u8>>)
    requires
        old(out)@ == crlf(text@),
    ensures
        final(out)@ == crlf(next@),
        next@ == text@ + piece@,
{
    append_crlf(out, piece);
    proof {
        lemma_crlf_concat(text@, piece@);
    }
    Ghost(text@ + piece@)
}

/// Lays the message out and writes it, where the invoice can be encoded.
fn write_message(
    identity: &Identity,
    pdf: &[u8],
    iso_date: &str,
    recipient: &str,
    boundary: &str,
) -> (m: MimeMessage)
    requires
        encoded_len(pdf@.len()) <= spec_text_limit(),
    ensures
        m@ == message(identity@, pdf@, iso_date@, recipient@, boundary@),
        ends_lines_with_crlf(m@),
        attachment_text(m@, utf8(boundary@)) == Some(base64_text(pdf@)),
        attachment(m@, utf8(boundary@)) == Some(pdf@),
{
    let name = identity.display_name.as_str().as_bytes();
    let email = identity.email_address.as_str().as_bytes();
    let to = recipient.as_bytes();
    let date = iso_date.as_bytes();
    let mark = boundary.as_bytes();
    let payload = encode(pdf);
    let blank: Vec<u8> = vec![LF, LF];
    let mut out: Vec<u8> = Vec::new();
    let t: Ghost<Seq<u8>> = Ghost(Seq::empty());
    let t = put(&mut out, OPENING.as_bytes(), t);
    let t = put(&mut out, name, t);
    let t = put(&mut out, " <".as_bytes(), t);
    let t = put(&mut out, email, t);
    let t = put(&mut out, TO.as_bytes(), t);
    let t = put(&mut out, to, t);
    let t = put(&mut out, SUBJECT.as_bytes(), t);
    let t = put(&mut out, name, t);
    let t = put(&mut out, " - ".as_bytes(), t);
    let t = put(&mut out, date, t);
    let t = put(&mut out, MULTIPART.as_bytes(), t);
    let t = put(&mut out, mark, t);
    let t = put(&mut out, DELIMITER.as_bytes(), t);
    let t = put(&mut out, mark, t);
    let t = put(&mut out, TEXT_PART.as_bytes(), t);
    let t = put(&mut out, DELIMITER.as_bytes(), t);
    let t = put(&mut out, mark, t);
    let t = put(&mut out, PDF_PART.as_bytes(), t);
    let t = put(&mut out, name, t);
    let t = put(&mut out, "-".as_bytes(), t);
    let t = put(&mut out, date, t);
    let t = put(&mut out, DISPOSITION.as_bytes(), t);
    let t = put(&mut out, date, t);
    let t = put(&mut out, ENCODING.as_bytes(), t);
    proof {
        assert(t@ =~= head(name@, email@, to@, date@, mark@));
    }
    let t = put(&mut out, blank.as_slice(), t);
    let t = put(&mut out, payload.as_slice(), t);
    let t = put(&mut out, DELIMITER.as_bytes(), t);
    let t = put(&mut out, mark, t);
    let t = put(&mut out, CLOSING.as_bytes(), t);
    proof {
        assert(blank@ =~= blank_line());
        assert(t@ =~= layout(name@, email@, to@, date@, mark@, payload@));
        lemma_crlf_ends_lines(t@);
        lemma_base64_is_one_line(payload@);
        lemma_attachment_text_of_layout(name@, email@, to@, date@, mark@, payload@);
    }
    MimeMessage { bytes: out }
}

/// What composing comes to: the message, where the invoice in base64 is no
/// longer than texts are written.
pub open spec fn composed(
    identity: IdentityView,
    pdf: Seq<u8>,
    date: Seq<char>,
    to: Seq<char>,
    boundary: Seq<char>,
) -> Result<Seq<u8>, Failure> {
    if encoded_len(pdf.len()) <= spec_text_limit() {
        Ok(message(identity, pdf, date, to, boundary))
    } else {
        Err(Failure::Oversize)
    }
}

/// A composed message as plain values.
pub open spec fn composed_view(r: Result<MimeMessage, Failure>) -> Result<Seq<u8>, Failure> {
    match r {
        Ok(m) => Ok(m@),
        Err(e) => Err(e),
    }
}

/// Composes the message that carries `pdf` from `identity` to `recipient` on
/// the day `iso_date`, its parts parted by `boundary`.
///
/// Every line of the message ends with CRLF, and the attachment reads back
/// as `pdf`. Fails with `Oversize` where the invoice in base64 would be
/// longer than `text_limit`.
pub fn compose_with_boundary(
    identity: &Identity,
    pdf: &[u8],
    iso_date: &str,
    recipient: &str,
    boundary: &str,
) -> (r: Result<MimeMessage, Failure>)
    ensures
        composed_view(r) == composed(identity@, pdf@, iso_date@, recipient@, boundary@),
        r matches Ok(m) ==> {
            &&& ends_lines_with_crlf(m@)
            &&& attachment_text(m@, utf8(boundary@)) == Some(base64_text(pdf@))
            &&& attachment(m@, utf8(boundary@)) == Some(pdf@)
        },
{
    if is_encodable(pdf.len()) {
        Ok(write_message(identity, pdf, iso_date, recipient, boundary))
    } else {
        Err(Failure::Oversize)
    }
}

/// Composes the message that carries `pdf` from `identity` to `recipient` on
/// the day `iso_date`, its parts parted by `BOUNDARY`.
pub fn compose(identity: &Identity, pdf: &[u8], iso_date: &str, recipient: &str) -> (r: Result<
    MimeMessage,
    Failure,
>)
    ensures
        composed_view(r) == composed(identity@, pdf@, iso_date@, recipient@, BOUNDARY@),
        r matches Ok(m) ==> {
            &&& ends_lines_with_crlf(m@)
            &&& attachment(m@, utf8(BOUNDARY@)) == Some(pdf@)
        },
{
    compose_with_boundary(identity, pdf, iso_date, recipient, BOUNDARY)
}

/// Reads the body of the last part out of `message`: what stands between the
/// last empty line and the closing delimiter of `boundary`.
pub fn read_attachment_text(message: &[u8], boundary: &str) -> (r: Option<Vec<u8>>)
    ensures
        r.deep_view() == attachment_text(message@, utf8(boundary@)),
{
    let mut closing: Vec<u8> = Vec::new();
    let t: Ghost<Seq<u8>> = Ghost(Seq::empty());
    let t = put(&mut closing, DELIMITER.as_bytes(), t);
    let t = put(&mut closing, boundary.as_bytes(), t);
    let t = put(&mut closing, CLOSING.as_bytes(), t);
    proof {
        assert(t@ =~= tail(utf8(boundary@)));
    }
    if closing.len() > message.len() || !matches_at(
        message,
        closing.as_slice(),
        message.len() - closing.len(),
    ) {
        return None;
    }
    let end = message.len() - closing.len();
    let body = slice_of(message, 0, end);
    let blank: Vec<u8> = vec![CR, LF, CR, LF];
    proof {
        assert(blank@ =~= wire_blank_line());
        assert(body@ =~= message@.take(message@.len() - closing@.len()));
        lemma_last_occurrence(body@, wire_blank_line());
    }
    match find_last(body.as_slice(), blank.as_slice()) {
        Some(i) => {
            let text = slice_of(body.as_slice(), i + 4, body.len());
            proof {
                assert(text@ =~= body@.skip(i + 4));
                crate::wire::lemma_bytes_deep_view(text);
            }
            Some(text)
        },
        None => None,
    }
}

/// The bytes of `s` from `from` up to `to`.
fn slice_of(s: &[u8], from: usize, to: usize) -> (v: Vec<u8>)
    requires
        from <= to <= s@.len(),
    ensures
        v@ == s@.subrange(from as int, to as int),
{
    let mut v: Vec<u8> = Vec::new();
    let mut i: usize = from;
    while i < to
        invariant
            from <= i <= to <= s@.len(),
            v@ == s@.subrange(from as int, i as int),
        decreases to - i,
    {
        v.push(s[i]);
        proof {
            assert(s@.subrange(from as int, i + 1) =~= s@.subrange(from as int, i as int).push(
                s@[i as int],
            ));
        }
        i += 1;
    }
    v
}

/// Reads the attachment out of `message`: the bytes that its last part
/// carries in base64. `None` where the message is not laid out so, the text
/// is no base64, or it is longer than `text_limit`.
pub fn read_attachment(message: &[u8], boundary: &str) -> (r: Option<Vec<u8>>)
    ensures
        r.deep_view() == attachment(message@, utf8(boundary@)),
{
    match read_attachment_text(message, boundary) {
        Some(text) => {
            proof {
                crate::wire::lemma_bytes_deep_view(text);
            }
            if text.len() > text_limit() {
                return None;
            }
            match decode(text.as_slice()) {
                Ok(bytes) => {
                    proof {
                        crate::wire::lemma_bytes_deep_view(bytes);
                    }
                    Some(bytes)
                },
                Err(_) => None,
            }
        },
        None => None,
    }
}

/// Builds the call that sends `message`. `Content-Length` is the length of
/// the composed message, not that of the attachment.
pub fn send_request(token: &str, message: MimeMessage) -> (r: Result<Request, Failure>)
    ensures
        result_view(r) == send_call(token@, message@),
        r matches Ok(request) ==> request.content_length == Some(message@.len() as usize),
{
    let params: Vec<(&str, &str)> = vec![("uploadType", "multipart")];
    proof {
        assert(pairs(params@) =~= seq![("uploadType"@, "multipart"@)]);
    }
    match address(MAIL_SEND, &params) {
        Ok(url) => {
            let n = message.content_length();
            Ok(
                Request {
                    method: Method::Post,
                    url,
                    bearer: Some(String::from_str(token)),
                    content_type: Some(String::from_str(RFC822)),
                    content_length: Some(n),
                    body: Payload::Raw(message.bytes),
                },
            )
        },
        Err(_) => Err(Failure::Address),
    }
}

} // verus!
