//! The error that a command reports to the person who invoked it.

use vstd::prelude::*;
use vstd::string::StringExecFns;

verus! {

/// A failure with a message meant for the user.
#[derive(Debug)]
pub struct BotError {
    message: String,
}

impl View for BotError {
    type V = Seq<char>;

    /// An error is its message.
    closed spec fn view(&self) -> Seq<char> {
        self.message@
    }
}

impl BotError {
    /// An error that carries `message`.
    pub fn new(message: &str) -> (error: Self)
        ensures
            error@ == message@,
    {
        BotError { message: String::from_str(message) }
    }

    /// The message, borrowed.
    pub fn message(&self) -> (text: &str)
        ensures
            text@ == self@,
    {
        self.message.as_str()
    }

    /// The message as an owned string: what the error displays as.
    pub fn to_string(&self) -> (text: String)
        ensures
            text@ == self@,
    {
        self.message.clone()
    }
}

/// Shorthand for [`BotError::new`].
pub fn bot_error(message: &str) -> (error: BotError)
    ensures
        error@ == message@,
{
    BotError::new(message)
}

} // verus!
