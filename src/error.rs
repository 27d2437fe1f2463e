use vstd::prelude::*;

verus! {

/// Every way in which sharing can fail before or after the request.
#[derive(Debug, PartialEq, Eq)]
pub enum ClientError {
    /// The text to share is empty or holds only whitespace.
    EmptyContent,
    /// The custom code has fewer characters than allowed.
    CodeTooShort,
    /// The custom code has more characters than allowed.
    CodeTooLong,
    /// The custom code holds a character other than a letter, a digit, `_` or `-`.
    CodeInvalidChar,
    /// The editor used to compose the text did not exit successfully.
    EditorFailed,
    /// The service refused the paste, with its own message.
    Api(String),
}

impl ClientError {
    /// The text shown to the user for this error.
    pub open spec fn message_spec(&self) -> Seq<char> {
        match self {
            ClientError::EmptyContent => "No content to share"@,
            ClientError::CodeTooShort => "Custom code must be at least 4 characters long"@,
            ClientError::CodeTooLong => "Custom code must be at most 50 characters long"@,
            ClientError::CodeInvalidChar =>
                "Custom code can only contain letters, numbers, underscore and hyphen"@,
            ClientError::EditorFailed => "Editor exited with non-zero status"@,
            ClientError::Api(m) => m@,
        }
    }

    pub fn message(&self) -> (r: String)
        ensures
            r@ == self.message_spec(),
    {
        match self {
            ClientError::EmptyContent => String::from_str("No content to share"),
            ClientError::CodeTooShort => String::from_str(
                "Custom code must be at least 4 characters long",
            ),
            ClientError::CodeTooLong => String::from_str(
                "Custom code must be at most 50 characters long",
            ),
            ClientError::CodeInvalidChar => String::from_str(
                "Custom code can only contain letters, numbers, underscore and hyphen",
            ),
            ClientError::EditorFailed => String::from_str("Editor exited with non-zero status"),
            ClientError::Api(m) => m.clone(),
        }
    }
}

} // verus!
