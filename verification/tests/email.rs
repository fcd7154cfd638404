use invoicer::document::Identity;
use invoicer::email::{
    compose, compose_with_boundary, read_attachment, read_attachment_text, send_request,
    MimeMessage, BOUNDARY, RECIPIENT,
};
use invoicer::encoding::{is_encodable, text_limit};
use invoicer::mailing::{MailAction, MailEvent, MailStage, Mailing};
use invoicer::gateway::identity_request;
use invoicer::outcome::{Failure, Reply};
use invoicer::request::{Method, Payload, Request};

fn ada() -> Identity {
    Identity { display_name: "Ada".to_string(), email_address: "ada@example.com".to_string() }
}

const HELLO: &str = "MIME-Version: 1.0\r\nFrom: Ada <ada@example.com>\r\nTo: Accounting <accounting@mobilecoin.com>\r\nSubject: Invoice - Ada - 2024-01-15\r\nContent-Type: multipart/mixed; boundary=invoice_pdf\r\n\r\n--invoice_pdf\r\nContent-Type: text/plain; charset=\"UTF-8\"\r\n\r\nHere is my invoice for the previous 2 weeks, thank you.\r\n\r\n--invoice_pdf\r\nContent-Type: application/pdf; name=\"Invoice-Ada-2024-01-15.pdf\"\r\nContent-Disposition: attachment; filename=Invoice-2024-01-15.pdf\r\nContent-Transfer-Encoding: base64\r\n\r\naGVsbG8=\r\n\r\n--invoice_pdf--\r\n    ";

fn lines_end_with_crlf(bytes: &[u8]) -> bool {
    (0..bytes.len()).all(|i| bytes[i] != b'\n' || (i > 0 && bytes[i - 1] == b'\r'))
}

fn sample(n: usize) -> Vec<u8> {
    (0..n).map(|i| (i * 37 % 256) as u8).collect()
}

#[test]
fn fixed_texts() {
    assert_eq!(BOUNDARY, "invoice_pdf");
    assert_eq!(RECIPIENT, "Accounting <accounting@mobilecoin.com>");
}

#[test]
fn composed_message_is_laid_out_to_the_byte() {
    let m = compose(&ada(), b"hello", "2024-01-15", RECIPIENT).unwrap();
    assert_eq!(String::from_utf8(m.bytes).unwrap(), HELLO);
}

#[test]
fn composed_message_with_empty_attachment() {
    let m = compose(&ada(), b"", "2024-01-15", RECIPIENT).unwrap();
    let text = String::from_utf8(m.bytes.clone()).unwrap();
    assert!(text.ends_with("Content-Transfer-Encoding: base64\r\n\r\n\r\n\r\n--invoice_pdf--\r\n    "));
    assert_eq!(read_attachment_text(&m.bytes, BOUNDARY), Some(Vec::new()));
    assert_eq!(read_attachment(&m.bytes, BOUNDARY), Some(Vec::new()));
}

#[test]
fn attachment_is_base64_with_padding() {
    for (bytes, text) in [
        (&b""[..], ""),
        (&b"f"[..], "Zg=="),
        (&b"fo"[..], "Zm8="),
        (&b"foo"[..], "Zm9v"),
        (&b"foob"[..], "Zm9vYg=="),
        (&b"fooba"[..], "Zm9vYmE="),
        (&b"foobar"[..], "Zm9vYmFy"),
        (&[0xfb, 0xff, 0xfe][..], "+//+"),
    ] {
        let m = compose(&ada(), bytes, "2024-01-15", RECIPIENT).unwrap();
        assert_eq!(read_attachment_text(&m.bytes, BOUNDARY), Some(text.as_bytes().to_vec()));
    }
}

#[test]
fn mime_composition_round_trips() {
    for n in [0usize, 1, 2, 3, 4, 57, 58, 255, 256, 1000, 4097] {
        let pdf = sample(n);
        let m = compose(&ada(), &pdf, "2024-01-15", RECIPIENT).unwrap();
        assert_eq!(read_attachment(&m.bytes, BOUNDARY), Some(pdf));
        assert!(lines_end_with_crlf(&m.bytes));
    }
}

#[test]
fn round_trip_holds_for_bytes_that_look_like_the_frame() {
    for pdf in [
        b"\r\n\r\n--invoice_pdf--\r\n    ".to_vec(),
        b"\n\n".to_vec(),
        b"--invoice_pdf".to_vec(),
        vec![b'\n'; 10],
        vec![b'\r'; 7],
        (0u8..=255).collect::<Vec<u8>>(),
    ] {
        let m = compose(&ada(), &pdf, "2024-01-15", RECIPIENT).unwrap();
        assert_eq!(read_attachment(&m.bytes, BOUNDARY), Some(pdf));
        assert!(lines_end_with_crlf(&m.bytes));
    }
}

#[test]
fn round_trip_holds_whatever_the_headers_hold() {
    let odd = Identity {
        display_name: "A\nB\r\n\r\n--invoice_pdf\r\nC".to_string(),
        email_address: "x@y\n\n".to_string(),
    };
    let pdf = sample(100);
    let m = compose(&odd, &pdf, "2024\n01", "to\n\n--invoice_pdf--\n    ").unwrap();
    assert_eq!(read_attachment(&m.bytes, BOUNDARY), Some(pdf));
    assert!(lines_end_with_crlf(&m.bytes));
}

#[test]
fn round_trip_holds_for_any_boundary() {
    for boundary in ["invoice_pdf", "", "x", "a b", "=_part_1", "line\nbreak", "--", "\r\n\r\n"] {
        let pdf = sample(33);
        let m = compose_with_boundary(&ada(), &pdf, "2024-01-15", RECIPIENT, boundary).unwrap();
        assert_eq!(read_attachment(&m.bytes, boundary), Some(pdf));
        assert!(lines_end_with_crlf(&m.bytes));
    }
}

#[test]
fn boundary_stands_in_header_and_delimiters() {
    let m = compose_with_boundary(&ada(), b"hello", "2024-01-15", RECIPIENT, "XYZ").unwrap();
    assert_eq!(String::from_utf8(m.bytes).unwrap(), HELLO.replace("invoice_pdf", "XYZ"));
}

#[test]
fn line_feeds_in_values_become_crlf() {
    let odd = Identity { display_name: "A\nB".to_string(), email_address: "e".to_string() };
    let m = compose(&odd, b"hello", "d", "t").unwrap();
    let text = String::from_utf8(m.bytes).unwrap();
    assert!(text.starts_with("MIME-Version: 1.0\r\nFrom: A\r\nB <e>\r\nTo: t\r\nSubject: Invoice - A\r\nB - d\r\n"));
}

#[test]
fn names_go_out_in_utf8() {
    let who = Identity { display_name: "Zoë 日本".to_string(), email_address: "z@example.com".to_string() };
    let m = compose(&who, b"hello", "2024-01-15", RECIPIENT).unwrap();
    let text = String::from_utf8(m.bytes.clone()).unwrap();
    assert_eq!(text, HELLO.replace("Ada", "Zoë 日本").replace("ada@example.com", "z@example.com"));
    assert_eq!(m.content_length(), text.len());
    assert!(m.content_length() > text.chars().count());
}

#[test]
fn content_length_matches_body() {
    let pdf = sample(1000);
    let m = compose(&ada(), &pdf, "2024-01-15", RECIPIENT).unwrap();
    let n = m.content_length();
    assert_eq!(n, m.bytes.len());
    assert_ne!(n, pdf.len());
    let m = compose(&ada(), b"hello", "2024-01-15", RECIPIENT).unwrap();
    assert_eq!(m.content_length(), HELLO.len());
    assert_eq!(MimeMessage { bytes: Vec::new() }.content_length(), 0);
}

#[test]
fn send_request_carries_message_and_its_length() {
    let m = compose(&ada(), b"hello", "2024-01-15", RECIPIENT).unwrap();
    assert_eq!(
        send_request("tok", m),
        Ok(Request {
            method: Method::Post,
            url: "https://gmail.googleapis.com/upload/gmail/v1/users/me/messages/send?uploadType=multipart".to_string(),
            bearer: Some("tok".to_string()),
            content_type: Some("message/rfc822".to_string()),
            content_length: Some(HELLO.len()),
            body: Payload::Raw(HELLO.as_bytes().to_vec()),
        })
    );
}

#[test]
fn reading_refuses_what_is_not_laid_out_so() {
    assert_eq!(read_attachment_text(b"", BOUNDARY), None);
    assert_eq!(read_attachment_text(b"no message at all", BOUNDARY), None);
    assert_eq!(read_attachment_text(b"\r\n\r\n--invoice_pdf--\r\n    ", BOUNDARY), None);
    assert_eq!(read_attachment_text(b"aGVsbG8=\r\n\r\n--invoice_pdf--\r\n    ", BOUNDARY), None);
    assert_eq!(read_attachment_text(HELLO.as_bytes(), "other"), None);
    assert_eq!(read_attachment_text(&HELLO.as_bytes()[..HELLO.len() - 1], BOUNDARY), None);
    let lf_only = HELLO.replace("\r\n", "\n");
    assert_eq!(read_attachment_text(lf_only.as_bytes(), BOUNDARY), None);
}

#[test]
fn reading_takes_what_stands_behind_the_last_empty_line() {
    assert_eq!(
        read_attachment_text(b"\r\n\r\nabc\r\n\r\n--invoice_pdf--\r\n    ", BOUNDARY),
        Some(b"abc".to_vec())
    );
    assert_eq!(
        read_attachment_text(b"h\r\n\r\none\r\n\r\ntwo\r\nthree\r\n\r\n--b--\r\n    ", "b"),
        Some(b"two\r\nthree".to_vec())
    );
    assert_eq!(read_attachment_text(b"\r\n\r\n\r\n\r\n--b--\r\n    ", "b"), Some(Vec::new()));
}

#[test]
fn reading_refuses_what_is_no_base64() {
    assert_eq!(read_attachment(b"\r\n\r\n!!!!\r\n\r\n--b--\r\n    ", "b"), None);
    assert_eq!(read_attachment(b"\r\n\r\nZm9v*\r\n\r\n--b--\r\n    ", "b"), None);
    assert_eq!(read_attachment(b"\r\n\r\nZm9v\r\nYmFy\r\n\r\n--b--\r\n    ", "b"), None);
    assert_eq!(read_attachment(b"\r\n\r\nZm9vYmFy\r\n\r\n--b--\r\n    ", "b"), Some(b"foobar".to_vec()));
    assert_eq!(read_attachment(b"nothing", "b"), None);
}

#[test]
fn texts_stay_below_the_largest_buffer() {
    assert_eq!(text_limit(), isize::MAX as usize - 8);
}

#[test]
fn lengths_that_can_be_encoded() {
    assert!(is_encodable(0));
    assert!(is_encodable(1));
    assert!(is_encodable(1 << 20));
    let groups = text_limit() / 4;
    assert!(is_encodable(groups * 3));
    assert!(is_encodable(groups * 3 - 2));
    assert!(!is_encodable(groups * 3 + 1));
    assert!(!is_encodable(isize::MAX as usize));
    assert!(!is_encodable(usize::MAX));
    assert!(!is_encodable(usize::MAX - 1));
}

fn mailing(ask: bool) -> Mailing {
    Mailing::start("tok".to_string(), b"hello".to_vec(), "2024-01-15".to_string(), RECIPIENT.to_string(), ask).0
}

fn hello_request() -> Request {
    send_request("tok", compose(&ada(), b"hello", "2024-01-15", RECIPIENT).unwrap()).unwrap()
}

#[test]
fn mailing_starts_by_asking_who_sends() {
    let (m, action) = Mailing::start(
        "tok".to_string(),
        b"hello".to_vec(),
        "2024-01-15".to_string(),
        RECIPIENT.to_string(),
        true,
    );
    assert_eq!(action, MailAction::Identify(identity_request("tok").unwrap()));
    assert_eq!(m.stage, MailStage::Identifying);
    assert_eq!(m.sender, None);
}

#[test]
fn confirmed_mailing_is_sent() {
    let (m, action) = mailing(true).step(MailEvent::Identified(Reply::Answer { status: 200, body: Some(ada()) }));
    assert_eq!(action, MailAction::Ask(ada()));
    assert_eq!(m.stage, MailStage::Asking);
    let (m, action) = m.step(MailEvent::Answered(" Yes\n".to_string()));
    assert_eq!(action, MailAction::Send(hello_request()));
    assert_eq!(m.stage, MailStage::Sending);
    let (m, action) = m.step(MailEvent::Delivered(Reply::Answer { status: 200, body: Some(()) }));
    assert_eq!(action, MailAction::Done);
    assert_eq!(m.stage, MailStage::Sent);
}

#[test]
fn unconfirmed_mailing_is_skipped_without_failure() {
    for line in ["n\n", "", "\n", "nope", "yes please"] {
        let (m, _) = mailing(true).step(MailEvent::Identified(Reply::Answer { status: 200, body: Some(ada()) }));
        let (m, action) = m.step(MailEvent::Answered(line.to_string()));
        assert_eq!(action, MailAction::Skip);
        assert_eq!(m.stage, MailStage::Declined);
        let (m, action) = m.step(MailEvent::Delivered(Reply::Answer { status: 200, body: Some(()) }));
        assert_eq!(action, MailAction::Fail(Failure::OutOfTurn));
        assert_eq!(m.stage, MailStage::Failed);
    }
}

#[test]
fn mailing_without_question_goes_out_at_once() {
    let (m, action) = mailing(false).step(MailEvent::Identified(Reply::Answer { status: 200, body: Some(ada()) }));
    assert_eq!(action, MailAction::Send(hello_request()));
    assert_eq!(m.stage, MailStage::Sending);
    assert_eq!(m.sender, None);
}

#[test]
fn mailing_failures() {
    let (m, action) = mailing(true).step(MailEvent::Identified(Reply::Answer { status: 401, body: None }));
    assert_eq!(action, MailAction::Fail(Failure::Remote(401)));
    assert_eq!(m.stage, MailStage::Failed);
    let (_, action) = mailing(true).step(MailEvent::Identified(Reply::Unreachable));
    assert_eq!(action, MailAction::Fail(Failure::Transport));
    let (_, action) = mailing(true).step(MailEvent::Identified(Reply::Answer { status: 200, body: None }));
    assert_eq!(action, MailAction::Fail(Failure::Decode));

    let (m, _) = mailing(false).step(MailEvent::Identified(Reply::Answer { status: 200, body: Some(ada()) }));
    let (m, action) = m.step(MailEvent::Delivered(Reply::Answer { status: 500, body: None }));
    assert_eq!(action, MailAction::Fail(Failure::Remote(500)));
    assert_eq!(m.stage, MailStage::Failed);

    let (_, action) = mailing(true).step(MailEvent::Answered("y".to_string()));
    assert_eq!(action, MailAction::Fail(Failure::OutOfTurn));
    let (_, action) = mailing(true).step(MailEvent::Delivered(Reply::Answer { status: 200, body: Some(()) }));
    assert_eq!(action, MailAction::Fail(Failure::OutOfTurn));
}
