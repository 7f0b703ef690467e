//! The tracker's one kind of failure.
use vstd::prelude::*;
use vstd::string::StringExecFns;

verus! {

/// A failure that ends a command: a message for the user and nothing else.
/// Bad date input, a refusal of the store and a bad answer at a prompt all end
/// up here.
#[derive(Debug)]
pub struct Error {
    pub message: String,
}

impl Error {
    /// A failure with the given message.
    pub fn new(message: String) -> (e: Self)
        ensures
            e.message == message,
    {
        Self { message }
    }

    /// The line that reports this failure: the word `error`, a colon, a space
    /// and the message.
    pub fn to_text(&self) -> (line: String)
        ensures
            line@ == "error: "@ + self.message@,
    {
        let mut line = "error: ".to_owned();
        line.append(self.message.as_str());
        line
    }
}

/// Whether `r` is a failure whose message is `message`.
pub open spec fn fails_with<T>(r: Result<T, Error>, message: Seq<char>) -> bool {
    r is Err && r->Err_0.message@ == message
}

/// A failure whose message is the given text.
pub fn failure(message: &str) -> (e: Error)
    ensures
        e.message@ == message@,
{
    Error::new(message.to_owned())
}

} // verus!
