use teleprompt::prompt::{read_prompt_message, InputError};

#[test]
fn read_prompt_message_trims_message_flag() {
    let msg = read_prompt_message(Some("  hello  ".to_string()), None).unwrap();
    assert_eq!(msg, "hello");
}

#[test]
fn read_prompt_message_rejects_empty_message_flag() {
    let err = read_prompt_message(Some("   ".to_string()), None).unwrap_err();
    let msg = err.message();
    assert!(msg.contains("--message was provided but empty"), "error was: {msg}");
}

#[test]
fn scenario_empty_prompt_aborts_before_any_network_call() {
    // An empty prompt source is an input error; the run never reaches the
    // network.
    assert_eq!(
        read_prompt_message(Some("".to_string()), None),
        Err(InputError::EmptyMessage)
    );
    assert_eq!(
        read_prompt_message(None, Some("".to_string())),
        Err(InputError::EmptyStdin)
    );
    assert_eq!(
        read_prompt_message(None, Some(" \n\n".to_string())),
        Err(InputError::EmptyStdin)
    );
}

#[test]
fn read_prompt_message_strips_trailing_newlines_from_stdin() {
    let msg = read_prompt_message(None, Some("first\nsecond\r\n\n".to_string())).unwrap();
    assert_eq!(msg, "first\nsecond");
}

#[test]
fn read_prompt_message_requires_piped_stdin_without_flag() {
    let err = read_prompt_message(None, None).unwrap_err();
    assert_eq!(err, InputError::StdinTerminal);
    assert!(err.message().contains("stdin is a terminal"));
}
