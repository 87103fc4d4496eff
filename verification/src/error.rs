//! The library's error type.

use vstd::prelude::*;

verus! {

use vstd::string::StringExecFns;

/// What went wrong, with a human-readable description.
#[derive(Debug, Clone)]
pub enum Error {
    IO(String),
    Config(String),
    Custom(String),
}

impl Error {
    /// The rendered form of this error.
    pub open spec fn message_text(&self) -> Seq<char> {
        match self {
            Error::IO(m) => "I/O error: "@ + m@,
            Error::Config(m) => "Configuration error: "@ + m@,
            Error::Custom(m) => m@,
        }
    }

    /// Renders the error for display, prefixed by its category.
    pub fn message(&self) -> (r: String)
        ensures
            r@ == self.message_text(),
    {
        match self {
            Error::IO(m) => {
                let mut out = String::from_str("I/O error: ");
                out.append(m.as_str());
                out
            },
            Error::Config(m) => {
                let mut out = String::from_str("Configuration error: ");
                out.append(m.as_str());
                out
            },
            Error::Custom(m) => m.clone(),
        }
    }
}

} // verus!
