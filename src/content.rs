use crate::error::ClientError;
use vstd::prelude::*;

verus! {

/// Where the text to share is read from.
#[derive(Debug, PartialEq, Eq)]
pub enum Source {
    /// Compose it in an external editor, in a temporary file.
    Editor,
    /// Read the whole of the file at this path.
    File(String),
    /// Share this text as it is.
    Literal(String),
    /// Read the whole of standard input.
    Stdin,
}

/// Picks the source of the text: the editor when asked for; else the
/// positional argument, read as a file when it names a regular file and taken
/// literally otherwise; else standard input, unless it is an interactive
/// terminal, in which case the editor.
pub fn choose_source(edit: bool, input: Option<String>, input_is_file: bool, stdin_is_tty: bool) -> (r:
    Source)
    ensures
        edit ==> r == Source::Editor,
        !edit && input is Some && input_is_file ==> r == Source::File(input->0),
        !edit && input is Some && !input_is_file ==> r == Source::Literal(input->0),
        !edit && input is None && stdin_is_tty ==> r == Source::Editor,
        !edit && input is None && !stdin_is_tty ==> r == Source::Stdin,
{
    if edit {
        return Source::Editor;
    }
    match input {
        Some(s) => {
            if input_is_file {
                Source::File(s)
            } else {
                Source::Literal(s)
            }
        },
        None => {
            if stdin_is_tty {
                Source::Editor
            } else {
                Source::Stdin
            }
        },
    }
}

/// The platform the tool runs on, as far as the default editor depends on it.
#[derive(Debug, Clone, Copy, PartialEq, Eq)]
pub enum Platform {
    Windows,
    MacOs,
    Other,
}

/// The editor used when no environment variable names one.
pub open spec fn default_editor(p: Platform) -> Seq<char> {
    match p {
        Platform::Windows => "notepad"@,
        Platform::MacOs => "nano"@,
        Platform::Other => "vi"@,
    }
}

/// Resolves the editor command: the value of `EDITOR` if set, else that of
/// `VISUAL`, else the platform's default editor.
pub fn get_editor(editor_var: Option<String>, visual_var: Option<String>, platform: Platform) -> (r:
    String)
    ensures
        editor_var is Some ==> r == editor_var->0,
        editor_var is None && visual_var is Some ==> r == visual_var->0,
        editor_var is None && visual_var is None ==> r@ == default_editor(platform),
{
    match editor_var {
        Some(e) => e,
        None => match visual_var {
            Some(v) => v,
            None => match platform {
                Platform::Windows => String::from_str("notepad"),
                Platform::MacOs => String::from_str("nano"),
                Platform::Other => String::from_str("vi"),
            },
        },
    }
}

/// Turns what the editor left behind into the composed text: the file's
/// contents when the editor exited successfully, an error otherwise.
pub fn finish_editor(exit_ok: bool, text: String) -> (r: Result<String, ClientError>)
    ensures
        exit_ok ==> r == Ok::<String, ClientError>(text),
        !exit_ok ==> r == Err::<String, ClientError>(ClientError::EditorFailed),
{
    if exit_ok {
        Ok(text)
    } else {
        Err(ClientError::EditorFailed)
    }
}

/// Unicode whitespace (the `White_Space` property), which trimming removes.
pub open spec fn is_whitespace(c: char) -> bool {
    let u = c as u32;
    (0x09 <= u && u <= 0x0d) || u == 0x20 || u == 0x85 || u == 0xa0 || u == 0x1680 || (0x2000 <= u
        && u <= 0x200a) || u == 0x2028 || u == 0x2029 || u == 0x202f || u == 0x205f || u == 0x3000
}

/// Text that is empty or holds only whitespace: nothing is left to share
/// once it is trimmed.
pub open spec fn is_blank(s: Seq<char>) -> bool {
    forall|i: int| 0 <= i < s.len() ==> is_whitespace(#[trigger] s[i])
}

fn is_whitespace_exec(c: char) -> (r: bool)
    ensures
        r == is_whitespace(c),
{
    let u = c as u32;
    (0x09 <= u && u <= 0x0d) || u == 0x20 || u == 0x85 || u == 0xa0 || u == 0x1680 || (0x2000 <= u
        && u <= 0x200a) || u == 0x2028 || u == 0x2029 || u == 0x202f || u == 0x205f || u == 0x3000
}

/// Whether the text holds anything besides whitespace.
pub fn has_content(s: &str) -> (r: bool)
    ensures
        r == !is_blank(s@),
{
    for c in it: s.chars()
        invariant
            it.seq() == s@,
            forall|j: int| 0 <= j < it.index() ==> is_whitespace(#[trigger] s@[j]),
    {
        if !is_whitespace_exec(c) {
            return true;
        }
    }
    false
}

} // verus!
