use teleprompt::telegram::{
    drain_step, extract_text_reply, redact_token, ApiResponse, Chat, DrainStep, Message,
    TelegramClient, TelegramError, Update, User,
};

#[test]
fn extract_text_reply_filters_non_matching_user_or_chat() {
    let good = Update {
        update_id: 10,
        message: Some(Message {
            from: Some(User { id: 123 }),
            chat: Chat { id: 123 },
            text: Some("hi".to_string()),
        }),
    };

    assert_eq!(extract_text_reply(&good, 123), Some("hi"));
    assert_eq!(extract_text_reply(&good, 999), None);

    let wrong_chat = Update {
        update_id: 11,
        message: Some(Message {
            from: Some(User { id: 123 }),
            chat: Chat { id: 456 },
            text: Some("nope".to_string()),
        }),
    };
    assert_eq!(extract_text_reply(&wrong_chat, 123), None);

    let no_text = Update {
        update_id: 12,
        message: Some(Message {
            from: Some(User { id: 123 }),
            chat: Chat { id: 123 },
            text: None,
        }),
    };
    assert_eq!(extract_text_reply(&no_text, 123), None);
}

#[test]
fn extract_text_reply_rejects_blank_text() {
    let blank = Update {
        update_id: 13,
        message: Some(Message {
            from: Some(User { id: 123 }),
            chat: Chat { id: 123 },
            text: Some("  \t ".to_string()),
        }),
    };
    assert_eq!(extract_text_reply(&blank, 123), None);

    let no_sender = Update {
        update_id: 14,
        message: Some(Message {
            from: None,
            chat: Chat { id: 123 },
            text: Some("hi".to_string()),
        }),
    };
    assert_eq!(extract_text_reply(&no_sender, 123), None);

    let no_message = Update { update_id: 15, message: None };
    assert_eq!(extract_text_reply(&no_message, 123), None);
}

#[test]
fn api_response_into_result_ok_requires_result() {
    let res = ApiResponse::<i64> { ok: true, result: None, description: None, error_code: None };

    let err = res.into_result().unwrap_err();
    let msg = err.message();
    assert!(msg.contains("missing result despite ok=true"), "error was: {msg}");
}

#[test]
fn api_response_into_result_error_includes_code_and_description() {
    let res = ApiResponse::<i64> {
        ok: false,
        result: None,
        description: Some("nope".to_string()),
        error_code: Some(400),
    };

    let err = res.into_result().unwrap_err();
    let msg = err.message();
    assert!(msg.contains("telegram api error 400: nope"), "error was: {msg}");
}

#[test]
fn api_response_into_result_error_defaults_description_and_code() {
    let res = ApiResponse::<i64> { ok: false, result: None, description: None, error_code: None };

    let err = res.into_result().unwrap_err();
    let msg = err.message();
    assert!(msg.contains("telegram api error 0: unknown telegram error"), "error was: {msg}");
}

#[test]
fn api_response_into_result_passes_payload_through() {
    let res = ApiResponse::<i64> {
        ok: true,
        result: Some(77),
        description: None,
        error_code: None,
    };
    assert_eq!(res.into_result().unwrap(), 77);
}

#[test]
fn send_failure_surfaces_remote_code_and_description() {
    // A blocked recipient: the remote answers ok=false with code 403.
    let res = ApiResponse::<i64> {
        ok: false,
        result: None,
        description: Some("bot was blocked".to_string()),
        error_code: Some(403),
    };

    let err = res.into_result().unwrap_err();
    match &err {
        TelegramError::Protocol { code, description } => {
            assert_eq!(*code, 403);
            assert_eq!(description, "bot was blocked");
        }
        other => panic!("expected a protocol error, got {other:?}"),
    }
    assert!(err.message().contains("telegram api error 403: bot was blocked"));
}

#[test]
fn method_url_includes_base_url_token_and_method() {
    let mut client = TelegramClient::new("TOKEN".to_string());
    client.base_url = "https://example.test".to_string();

    assert_eq!(client.method_url("getUpdates"), "https://example.test/botTOKEN/getUpdates");
}

#[test]
fn redact_token_replaces_every_occurrence() {
    let text = "get https://api.telegram.org/botT/getUpdates failed: T rejected";
    assert_eq!(
        redact_token(text, "T"),
        "get https://api.telegram.org/bot<redacted>/getUpdates failed: <redacted> rejected"
    );
    assert_eq!(redact_token("xSECRETySECRETz", "SECRET"), "x<redacted>y<redacted>z");
    assert_eq!(redact_token("no token here", "SECRET"), "no token here");
}

#[test]
fn redact_token_with_empty_token_leaves_text_unmodified() {
    assert_eq!(redact_token("some error text", ""), "some error text");
    assert_eq!(redact_token("", ""), "");
}

#[test]
fn transport_error_redacts_token_from_message() {
    let client = TelegramClient::new("SECRETTOK".to_string());
    let err = client.transport_error("getUpdates", "connect to /botSECRETTOK/getUpdates failed");
    let msg = err.message();
    assert_eq!(
        msg,
        "telegram request failed: method=getUpdates: connect to /bot<redacted>/getUpdates failed"
    );
    assert!(!msg.contains("SECRETTOK"));
}

#[test]
fn drain_step_stops_on_empty_batch_and_advances_past_events() {
    assert_eq!(drain_step(5, &vec![]), DrainStep::Done { cursor: 5 });

    let batch = vec![
        Update { update_id: 3, message: None },
        Update { update_id: 9, message: None },
    ];
    assert_eq!(drain_step(0, &batch), DrainStep::Continue { offset: 10 });
}

#[test]
fn drain_twice_with_no_events_yields_same_cursor() {
    // Both drains observe no pending events: each ends at its starting
    // cursor, so the two report the same one.
    let first = drain_step(0, &vec![]);
    let second = drain_step(0, &vec![]);
    assert_eq!(first, DrainStep::Done { cursor: 0 });
    assert_eq!(first, second);
}
