//! Prompt resolution: turning an explicit message flag, or the text read
//! from standard input, into the prompt the run sends — or into the error
//! that aborts the run before any network activity.

use vstd::prelude::*;

use crate::text::{is_blank, strip_trailing_newlines, trim, trim_end_newlines, trim_spec};

verus! {

/// Why no prompt could be resolved.
#[derive(Debug, Clone, Copy, PartialEq, Eq, Structural)]
pub enum InputError {
    /// The message flag was given but trims to nothing.
    EmptyMessage,
    /// No message flag was given and standard input is an interactive
    /// terminal.
    StdinTerminal,
    /// Standard input trimmed to nothing.
    EmptyStdin,
}

impl InputError {
    /// The diagnostic text for this error.
    pub open spec fn message_spec(self) -> Seq<char> {
        match self {
            InputError::EmptyMessage => "--message was provided but empty"@,
            InputError::StdinTerminal =>
                "No --message provided and stdin is a terminal; pipe a message via stdin or pass --message."@,
            InputError::EmptyStdin => "stdin was empty"@,
        }
    }

    /// Renders the diagnostic text.
    pub fn message(&self) -> (r: String)
        ensures
            r@ == self.message_spec(),
    {
        match self {
            InputError::EmptyMessage => "--message was provided but empty".to_owned(),
            InputError::StdinTerminal =>
                "No --message provided and stdin is a terminal; pipe a message via stdin or pass --message.".to_owned(),
            InputError::EmptyStdin => "stdin was empty".to_owned(),
        }
    }
}

/// Resolves the prompt text. An explicit message is trimmed and must remain
/// non-empty. Otherwise the text read from standard input — `None` when
/// standard input is an interactive terminal — loses its trailing line
/// breaks and must still hold something beyond whitespace.
pub fn read_prompt_message(message: Option<String>, stdin_text: Option<String>) -> (r: Result<
    String,
    InputError,
>)
    ensures
        message matches Some(m) ==> ({
            &&& (trim_spec(m@).len() == 0 ==> r == Result::<String, InputError>::Err(
                InputError::EmptyMessage,
            ))
            &&& (trim_spec(m@).len() > 0 ==> (r matches Ok(t) && t@ == trim_spec(m@)))
        }),
        message is None && stdin_text is None ==> r == Result::<String, InputError>::Err(
            InputError::StdinTerminal,
        ),
        stdin_text matches Some(raw) ==> (message is None ==> {
            let stripped = strip_trailing_newlines(raw@);
            &&& (trim_spec(stripped).len() == 0 ==> r == Result::<String, InputError>::Err(
                InputError::EmptyStdin,
            ))
            &&& (trim_spec(stripped).len() > 0 ==> (r matches Ok(t) && t@ == stripped))
        }),
{
    match message {
        Some(m) => {
            let t = trim(m.as_str());
            if t.as_str().is_empty() {
                Err(InputError::EmptyMessage)
            } else {
                Ok(t)
            }
        },
        None => {
            match stdin_text {
                None => Err(InputError::StdinTerminal),
                Some(raw) => {
                    let stripped = trim_end_newlines(raw.as_str());
                    if is_blank(stripped.as_str()) {
                        Err(InputError::EmptyStdin)
                    } else {
                        Ok(stripped)
                    }
                },
            }
        },
    }
}

} // verus!
