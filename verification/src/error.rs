//! Error kinds surfaced by a prompt session.

use vstd::prelude::*;
use crate::input::append;

verus! {

/// Possible failures of a prompt session.
///
/// A rejected answer is not among them: a rejection is shown inline and the
/// session goes on.
#[derive(Debug)]
pub enum InquireError {
    /// The input device is not interactive, so raw input cannot be enabled.
    NotTTY,
    /// The prompt configuration is not valid; the text says why.
    InvalidConfiguration(String),
    /// Reading a key or writing a frame failed; the text describes the failure.
    IO(String),
    /// The user canceled the prompt.
    OperationCanceled,
    /// The user interrupted the prompt.
    OperationInterrupted,
}

/// Result type whose error is an [`InquireError`].
pub type InquireResult<T> = Result<T, InquireError>;

impl InquireError {
    /// True for the two kinds that a key press of the user causes.
    pub open spec fn is_user_abort(&self) -> bool {
        self is OperationCanceled || self is OperationInterrupted
    }

    /// The text that describes the failure to a reader.
    pub open spec fn message_text(&self) -> Seq<char> {
        match *self {
            InquireError::NotTTY => "The input device is not a TTY"@,
            InquireError::InvalidConfiguration(why) => "The prompt configuration is invalid: "@
                + why@,
            InquireError::IO(why) => "IO error: "@ + why@,
            InquireError::OperationCanceled => "Operation was canceled by the user"@,
            InquireError::OperationInterrupted => "Operation was interrupted by the user"@,
        }
    }

    /// Describes the failure to a reader.
    pub fn message(&self) -> (text: String)
        ensures
            text@ == self.message_text(),
    {
        match self {
            InquireError::NotTTY => "The input device is not a TTY".to_owned(),
            InquireError::InvalidConfiguration(why) => {
                let mut text = "The prompt configuration is invalid: ".to_owned();
                append(&mut text, why.as_str());
                text
            },
            InquireError::IO(why) => {
                let mut text = "IO error: ".to_owned();
                append(&mut text, why.as_str());
                text
            },
            InquireError::OperationCanceled => "Operation was canceled by the user".to_owned(),
            InquireError::OperationInterrupted => "Operation was interrupted by the user".to_owned(),
        }
    }

    /// Tells whether the user ended the session (cancel or interrupt), as
    /// opposed to a failure of the terminal or of the configuration.
    pub fn by_user(&self) -> (r: bool)
        ensures
            r == self.is_user_abort(),
    {
        match self {
            InquireError::OperationCanceled => true,
            InquireError::OperationInterrupted => true,
            _ => false,
        }
    }
}

} // verus!
