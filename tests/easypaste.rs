use easypaste::{
    api_url, choose_source, finish_editor, generate_qr_code, get_editor, has_content,
    is_success_status, prepare_paste, present, settle_reply, validate_custom_code, ClientError,
    ErrorPayload, PasteResponse, Platform, Reply, Source,
};

fn s(x: &str) -> String {
    x.to_string()
}

#[test]
fn code_shorter_than_four_is_rejected() {
    assert_eq!(validate_custom_code(""), Err(ClientError::CodeTooShort));
    assert_eq!(validate_custom_code("abc"), Err(ClientError::CodeTooShort));
    assert_eq!(
        ClientError::CodeTooShort.message(),
        "Custom code must be at least 4 characters long"
    );
}

#[test]
fn code_longer_than_fifty_is_rejected() {
    let long = "a".repeat(51);
    assert_eq!(validate_custom_code(&long), Err(ClientError::CodeTooLong));
    assert_eq!(
        ClientError::CodeTooLong.message(),
        "Custom code must be at most 50 characters long"
    );
}

#[test]
fn code_with_forbidden_character_is_rejected() {
    assert_eq!(validate_custom_code("abc!"), Err(ClientError::CodeInvalidChar));
    assert_eq!(validate_custom_code("my code"), Err(ClientError::CodeInvalidChar));
    assert_eq!(validate_custom_code("caf\u{e9}s"), Err(ClientError::CodeInvalidChar));
    assert_eq!(
        ClientError::CodeInvalidChar.message(),
        "Custom code can only contain letters, numbers, underscore and hyphen"
    );
}

#[test]
fn code_within_bounds_is_accepted() {
    assert_eq!(validate_custom_code("abcd"), Ok(()));
    assert_eq!(validate_custom_code("My_Code-2024"), Ok(()));
    assert_eq!(validate_custom_code(&"Z9_-".repeat(12)[..48]), Ok(()));
    assert_eq!(validate_custom_code(&"x".repeat(50)), Ok(()));
}

#[test]
fn length_is_counted_in_characters() {
    // four characters in eight bytes: long enough, but not allowed
    assert_eq!(validate_custom_code("\u{e9}\u{e9}\u{e9}\u{e9}"), Err(ClientError::CodeInvalidChar));
    assert_eq!(validate_custom_code("\u{e9}\u{e9}\u{e9}"), Err(ClientError::CodeTooShort));
}

#[test]
fn existing_file_is_read() {
    assert_eq!(
        choose_source(false, Some(s("notes.txt")), true, false),
        Source::File(s("notes.txt"))
    );
}

#[test]
fn other_input_is_taken_literally() {
    assert_eq!(
        choose_source(false, Some(s("  Hello, World! ")), false, true),
        Source::Literal(s("  Hello, World! "))
    );
}

#[test]
fn editor_flag_wins() {
    assert_eq!(choose_source(true, Some(s("notes.txt")), true, false), Source::Editor);
    assert_eq!(choose_source(true, None, false, false), Source::Editor);
}

#[test]
fn no_input_reads_stdin_unless_terminal() {
    assert_eq!(choose_source(false, None, false, false), Source::Stdin);
    assert_eq!(choose_source(false, None, false, true), Source::Editor);
}

#[test]
fn editor_resolution_order() {
    assert_eq!(get_editor(Some(s("emacs")), Some(s("code")), Platform::Other), "emacs");
    assert_eq!(get_editor(None, Some(s("code")), Platform::Windows), "code");
    assert_eq!(get_editor(None, None, Platform::Windows), "notepad");
    assert_eq!(get_editor(None, None, Platform::MacOs), "nano");
    assert_eq!(get_editor(None, None, Platform::Other), "vi");
}

#[test]
fn editor_exit_status_decides() {
    assert_eq!(finish_editor(true, s("draft\n")), Ok(s("draft\n")));
    assert_eq!(finish_editor(false, s("draft\n")), Err(ClientError::EditorFailed));
    assert_eq!(ClientError::EditorFailed.message(), "Editor exited with non-zero status");
}

#[test]
fn blank_content_is_never_sent() {
    for text in ["", "   ", "\n\t \r\n", "\u{a0}\u{3000}\u{2009}"] {
        assert!(!has_content(text));
        assert_eq!(
            prepare_paste(s(text), None, "http://127.0.0.1:3000"),
            Err(ClientError::EmptyContent)
        );
        assert_eq!(
            prepare_paste(s(text), Some(s("!")), "http://127.0.0.1:3000"),
            Err(ClientError::EmptyContent)
        );
    }
    assert_eq!(ClientError::EmptyContent.message(), "No content to share");
}

#[test]
fn text_with_a_visible_character_has_content() {
    assert!(has_content("  x  "));
    assert!(has_content("hello"));
}

#[test]
fn server_without_scheme_gets_https() {
    assert_eq!(api_url("paste.example.com"), "https://paste.example.com/api/paste");
    assert_eq!(api_url("localhost:3000"), "https://localhost:3000/api/paste");
}

#[test]
fn server_with_scheme_is_kept() {
    assert_eq!(api_url("http://127.0.0.1:3000"), "http://127.0.0.1:3000/api/paste");
    assert_eq!(api_url("ftp://x"), "ftp://x/api/paste");
}

#[test]
fn malformed_code_stops_the_request() {
    assert_eq!(
        prepare_paste(s("hello"), Some(s("ab")), "http://127.0.0.1:3000"),
        Err(ClientError::CodeTooShort)
    );
}

#[test]
fn valid_code_is_sent_with_content() {
    let call = prepare_paste(s("hello"), Some(s("mycode")), "example.org").unwrap();
    assert_eq!(call.url, "https://example.org/api/paste");
    assert_eq!(call.request.content, "hello");
    assert_eq!(call.request.custom_code, Some(s("mycode")));
}

#[test]
fn status_ranges() {
    assert!(is_success_status(200));
    assert!(is_success_status(201));
    assert!(is_success_status(299));
    assert!(!is_success_status(199));
    assert!(!is_success_status(300));
    assert!(!is_success_status(400));
}

#[test]
fn hello_is_shared_with_qr() {
    let call = prepare_paste(s("hello"), None, "http://127.0.0.1:3000").unwrap();
    assert_eq!(call.url, "http://127.0.0.1:3000/api/paste");
    assert_eq!(call.request.content, "hello");
    assert_eq!(call.request.custom_code, None);
    assert!(is_success_status(200));
    let reply = Reply::Created(PasteResponse {
        code: s("abc1"),
        url: s("http://127.0.0.1:3000/abc1"),
    });
    let response = settle_reply(reply).unwrap();
    let report = present(response, true);
    assert_eq!(report.url, "http://127.0.0.1:3000/abc1");
    assert_eq!(report.code, "abc1");
    let qr = report.qr.unwrap();
    assert!(qr.lines().count() > 10);
    assert!(qr.chars().any(|c| c == '\u{2580}' || c == '\u{2584}' || c == '\u{2588}'));
}

#[test]
fn hello_without_qr() {
    let response = PasteResponse { code: s("abc1"), url: s("http://127.0.0.1:3000/abc1") };
    let report = present(response, false);
    assert_eq!(report.url, "http://127.0.0.1:3000/abc1");
    assert_eq!(report.code, "abc1");
    assert_eq!(report.qr, None);
}

#[test]
fn refused_paste_reports_server_message() {
    assert!(!is_success_status(400));
    let reply = Reply::Refused(ErrorPayload { error: s("code already taken") });
    let err = settle_reply(reply).unwrap_err();
    assert_eq!(err, ClientError::Api(s("code already taken")));
    assert_eq!(format!("Error: {}", err.message()), "Error: code already taken");
}

#[test]
fn qr_code_is_drawn_not_copied() {
    let qr = generate_qr_code("hello").unwrap();
    assert_ne!(qr, "hello");
    assert_eq!(generate_qr_code("hello"), Some(qr));
}

#[test]
fn text_too_long_for_a_qr_code() {
    assert_eq!(generate_qr_code(&"x".repeat(5000)), None);
}
