//! The single kind of failure that a request can end in.

use vstd::prelude::*;
use vstd::string::StringExecFns;

verus! {

/// A failure reported to the caller, carrying a human-readable message.
#[derive(Debug, PartialEq, Eq)]
pub enum Error {
    /// An input was rejected; `msg` says which one and why.
    Generic { msg: String },
}

impl Error {
    /// The characters of the message that this error carries.
    pub open spec fn message_view(&self) -> Seq<char> {
        match self {
            Error::Generic { msg } => msg@,
        }
    }

    /// An error that carries `msg`.
    pub fn generic(msg: &str) -> (e: Error)
        ensures
            e.message_view() == msg@,
    {
        Error::Generic { msg: msg.to_owned() }
    }

    /// The characters of the text that presents this error to a reader: the
    /// message behind a fixed prefix.
    pub open spec fn display_view(&self) -> Seq<char> {
        "Error: "@ + self.message_view()
    }

    /// The text that presents this error to a reader.
    pub fn display(&self) -> (s: String)
        ensures
            s@ == self.display_view(),
    {
        match self {
            Error::Generic { msg } => String::from_str("Error: ").concat(msg.as_str()),
        }
    }

    /// The message that this error carries.
    pub fn message(&self) -> (s: String)
        ensures
            s@ == self.message_view(),
    {
        match self {
            Error::Generic { msg } => msg.clone(),
        }
    }
}

} // verus!
