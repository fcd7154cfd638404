use invoicer::address::{address, ADDRESS_LIMIT};
use invoicer::confirm::is_confirmation;
use invoicer::outcome::{grant, is_success, settle, Failure, Reply};
use invoicer::wire::{append_crlf, find_last, matches_at};
use invoicer::words::{chars_of, count_words, is_space};

#[test]
fn status_bounds_of_success() {
    assert!(!is_success(199));
    assert!(is_success(200));
    assert!(is_success(204));
    assert!(is_success(299));
    assert!(!is_success(300));
    assert!(!is_success(401));
    assert!(!is_success(0));
}

#[test]
fn only_401_is_authentication() {
    assert!(Failure::Remote(401).is_authentication());
    assert!(!Failure::Remote(403).is_authentication());
    assert!(!Failure::Remote(404).is_authentication());
    assert!(!Failure::Remote(500).is_authentication());
    assert!(!Failure::AuthServer(401).is_authentication());
    assert!(!Failure::NotFound.is_authentication());
    assert!(!Failure::Transport.is_authentication());
    assert!(!Failure::Decode.is_authentication());
}

#[test]
fn settle_sorts_replies() {
    assert_eq!(settle::<u8>(Reply::Unreachable), Err(Failure::Transport));
    assert_eq!(settle(Reply::Answer { status: 200, body: Some(7u8) }), Ok(7u8));
    assert_eq!(settle::<u8>(Reply::Answer { status: 200, body: None }), Err(Failure::Decode));
    assert_eq!(settle(Reply::Answer { status: 404, body: Some(7u8) }), Err(Failure::Remote(404)));
    assert_eq!(settle::<u8>(Reply::Answer { status: 401, body: None }), Err(Failure::Remote(401)));
    assert_eq!(settle::<u8>(Reply::Answer { status: 500, body: None }), Err(Failure::Remote(500)));
}

#[test]
fn grant_names_the_token_endpoint() {
    assert_eq!(grant::<u8>(Reply::Unreachable), Err(Failure::Transport));
    assert_eq!(grant(Reply::Answer { status: 200, body: Some(7u8) }), Ok(7u8));
    assert_eq!(grant::<u8>(Reply::Answer { status: 201, body: None }), Err(Failure::Decode));
    assert_eq!(grant(Reply::Answer { status: 400, body: Some(7u8) }), Err(Failure::AuthServer(400)));
    assert_eq!(grant::<u8>(Reply::Answer { status: 503, body: None }), Err(Failure::AuthServer(503)));
}

#[test]
fn white_space_is_unicode_white_space() {
    for c in ['\t', '\n', '\u{b}', '\u{c}', '\r', ' ', '\u{85}', '\u{a0}', '\u{1680}', '\u{2000}',
        '\u{2005}', '\u{200a}', '\u{2028}', '\u{2029}', '\u{202f}', '\u{205f}', '\u{3000}'] {
        assert!(is_space(c));
    }
    for c in ['a', '0', '-', '\u{8}', '\u{e}', '\u{1f}', '\u{200b}', '\u{2060}', '\u{feff}', '\u{180e}'] {
        assert!(!is_space(c));
    }
}

#[test]
fn is_space_agrees_with_std_on_every_char() {
    let mut n: u32 = 0;
    while n <= 0x10ffff {
        if let Some(c) = char::from_u32(n) {
            assert_eq!(is_space(c), c.is_whitespace());
        }
        n += 1;
    }
}

#[test]
fn chars_come_one_by_one() {
    assert_eq!(chars_of(""), Vec::<char>::new());
    assert_eq!(chars_of("a b"), vec!['a', ' ', 'b']);
    assert_eq!(chars_of("é日本"), vec!['é', '日', '本']);
}

#[test]
fn words_are_counted() {
    assert_eq!(count_words(""), 0);
    assert_eq!(count_words(" "), 0);
    assert_eq!(count_words(" \t\n "), 0);
    assert_eq!(count_words("a"), 1);
    assert_eq!(count_words("a b"), 2);
    assert_eq!(count_words("a  b"), 2);
    assert_eq!(count_words(" a b "), 2);
    assert_eq!(count_words("a\tb\nc"), 3);
    assert_eq!(count_words("a\u{a0}b"), 2);
    assert_eq!(
        count_words("https://www.googleapis.com/auth/drive https://www.googleapis.com/auth/gmail.send"),
        2
    );
}

#[test]
fn word_count_agrees_with_split_whitespace() {
    for s in ["", "x", " x", "x ", "x y z", "  x   y  ", "\u{3000}x\u{2003}y", "one\r\ntwo\r\n"] {
        assert_eq!(count_words(s), s.split_whitespace().count());
    }
}

#[test]
fn line_feeds_become_crlf() {
    let mut out = vec![1u8];
    append_crlf(&mut out, b"a\nb\n\nc");
    assert_eq!(out, b"\x01a\r\nb\r\n\r\nc".to_vec());
}

#[test]
fn crlf_of_crlf_doubles_the_carriage_return() {
    let mut out = Vec::new();
    append_crlf(&mut out, b"a\r\nb\r");
    assert_eq!(out, b"a\r\r\nb\r".to_vec());
}

#[test]
fn crlf_of_nothing_is_nothing() {
    let mut out = vec![9u8, 8];
    append_crlf(&mut out, b"");
    assert_eq!(out, vec![9u8, 8]);
}

#[test]
fn crlf_agrees_with_replace() {
    for s in ["", "\n", "\n\n", "a\nb", "no line feed", "\r\n", "x\n"] {
        let mut out = Vec::new();
        append_crlf(&mut out, s.as_bytes());
        assert_eq!(out, s.replace('\n', "\r\n").into_bytes());
    }
}

#[test]
fn needle_is_matched_in_place() {
    assert!(matches_at(b"abcabc", b"abc", 0));
    assert!(matches_at(b"abcabc", b"abc", 3));
    assert!(!matches_at(b"abcabc", b"abc", 1));
    assert!(!matches_at(b"abcabc", b"abc", 4));
    assert!(!matches_at(b"abcabc", b"abc", 100));
    assert!(matches_at(b"abc", b"", 3));
    assert!(!matches_at(b"abc", b"", 4));
    assert!(!matches_at(b"ab", b"abc", 0));
}

#[test]
fn last_occurrence_is_found() {
    assert_eq!(find_last(b"abcabc", b"abc"), Some(3));
    assert_eq!(find_last(b"abcabx", b"abc"), Some(0));
    assert_eq!(find_last(b"abcabx", b"xyz"), None);
    assert_eq!(find_last(b"ab", b"abc"), None);
    assert_eq!(find_last(b"aaaa", b"aa"), Some(2));
    assert_eq!(find_last(b"abc", b""), Some(3));
    assert_eq!(find_last(b"", b""), Some(0));
    assert_eq!(find_last(b"", b"a"), None);
    assert_eq!(find_last(b"a\r\n\r\nb\r\n\r\nc", b"\r\n\r\n"), Some(6));
}

#[test]
fn address_adds_parameters_in_order() {
    let params = vec![("lang", "rust"), ("browser", "servo")];
    assert_eq!(
        address("https://example.net?dont=clobberme", &params),
        Ok("https://example.net/?dont=clobberme&lang=rust&browser=servo".to_string())
    );
}

#[test]
fn address_encodes_what_a_query_cannot_hold() {
    let params = vec![("q", "name='a b' and x = 1"), ("fields", "files(id, name)")];
    assert_eq!(
        address("https://www.googleapis.com/drive/v3/files", &params),
        Ok(
            "https://www.googleapis.com/drive/v3/files?q=name%3D%27a+b%27+and+x+%3D+1&fields=files%28id%2C+name%29"
                .to_string()
        )
    );
}

#[test]
fn address_without_parameters_ends_in_a_question_mark() {
    let params: Vec<(&str, &str)> = Vec::new();
    assert_eq!(address("https://example.net/a", &params), Ok("https://example.net/a?".to_string()));
}

#[test]
fn address_refuses_what_is_no_absolute_url() {
    let params = vec![("a", "b")];
    assert_eq!(address("", &params), Err(Failure::Address));
    assert_eq!(address("/relative/path", &params), Err(Failure::Address));
    assert_eq!(address("not a url", &params), Err(Failure::Address));
    assert_eq!(address("https://", &params), Err(Failure::Address));
}

#[test]
fn address_refuses_what_is_over_the_limit() {
    let long = "x".repeat(ADDRESS_LIMIT);
    let params = vec![("a", long.as_str())];
    assert_eq!(address("https://example.net/", &params), Err(Failure::Address));
    let base = format!("https://example.net/{}", "y".repeat(ADDRESS_LIMIT));
    let none: Vec<(&str, &str)> = Vec::new();
    assert_eq!(address(&base, &none), Err(Failure::Address));
}

#[test]
fn address_takes_what_is_just_within_the_limit() {
    // 20 bytes of endpoint, 1 of name, 2 for the pair, the rest for the value.
    let base = "https://example.net/";
    let value = "v".repeat(ADDRESS_LIMIT - base.len() - 1 - 2);
    let params = vec![("a", value.as_str())];
    let made = address(base, &params);
    assert_eq!(made, Ok(format!("https://example.net/?a={}", value)));
    let value = "v".repeat(ADDRESS_LIMIT - base.len() - 1 - 2 + 1);
    let params = vec![("a", value.as_str())];
    assert_eq!(address(base, &params), Err(Failure::Address));
}

#[test]
fn yes_in_any_case_confirms() {
    for s in ["y", "Y", "yes", "YES", "Yes", "yEs", " y", "y ", "\ty\n", "  yes\r\n", "\u{a0}Yes\u{2003}"] {
        assert!(is_confirmation(s));
    }
}

#[test]
fn anything_else_does_not_confirm() {
    for s in ["", " ", "n", "no", "ye", "yess", "y es", "yes.", "yes yes", "ja", "1", "true", "\n", "yé", "ÿ"] {
        assert!(!is_confirmation(s));
    }
}

#[test]
fn confirmation_agrees_with_lowercase_and_trim() {
    for s in ["y", "Y ", " yEs", "yes\n", "no", "", "  ", "YES!", "yy", "\u{2028}y\u{2029}"] {
        let mut t = s.to_string();
        t.make_ascii_lowercase();
        let t = t.trim();
        assert_eq!(is_confirmation(s), t == "y" || t == "yes");
    }
}
