//! The error taxonomy at the session boundary.

use vstd::prelude::*;
use vstd::string::*;

verus! {

/// Errors of the session layer. Backend messages are carried, not interpreted.
#[derive(Debug)]
pub enum AppError {
    /// A backend operation failed.
    Git(String),
    /// A local file operation failed.
    Io(String),
    /// The session lock could not be taken.
    Lock(String),
    /// The settings store could not be used.
    Config(String),
    /// No repository is open, a name is invalid, or nothing could be staged.
    Precondition(String),
    /// The operation left unresolved conflicts for the user.
    Conflict(String),
    /// A pull found histories that do not fast-forward.
    NonFastForward(String),
}

impl AppError {
    /// The label that precedes the carried text in `message`.
    pub open spec fn spec_label(&self) -> Seq<char> {
        match self {
            AppError::Git(_) => "Git Error: "@,
            AppError::Io(_) => "IO Error: "@,
            AppError::Lock(_) => "Concurrency Error: "@,
            AppError::Config(_) => "Config Error: "@,
            AppError::Precondition(_) => "Precondition Error: "@,
            AppError::Conflict(_) => "Conflict: "@,
            AppError::NonFastForward(_) => "Non-fast-forward: "@,
        }
    }

    /// The carried text.
    pub open spec fn spec_text(&self) -> Seq<char> {
        match self {
            AppError::Git(s) => s@,
            AppError::Io(s) => s@,
            AppError::Lock(s) => s@,
            AppError::Config(s) => s@,
            AppError::Precondition(s) => s@,
            AppError::Conflict(s) => s@,
            AppError::NonFastForward(s) => s@,
        }
    }

    /// The text shown to the user: the kind's label, then the carried text.
    pub fn message(&self) -> (r: String)
        ensures
            r@ == self.spec_label() + self.spec_text(),
    {
        match self {
            AppError::Git(s) => String::from_str("Git Error: ").concat(s.as_str()),
            AppError::Io(s) => String::from_str("IO Error: ").concat(s.as_str()),
            AppError::Lock(s) => String::from_str("Concurrency Error: ").concat(s.as_str()),
            AppError::Config(s) => String::from_str("Config Error: ").concat(s.as_str()),
            AppError::Precondition(s) => String::from_str("Precondition Error: ").concat(
                s.as_str(),
            ),
            AppError::Conflict(s) => String::from_str("Conflict: ").concat(s.as_str()),
            AppError::NonFastForward(s) => String::from_str("Non-fast-forward: ").concat(
                s.as_str(),
            ),
        }
    }
}

impl From<String> for AppError {
    fn from(err: String) -> (r: AppError)
        ensures
            r == AppError::Git(err),
    {
        AppError::Git(err)
    }
}

impl vstd::std_specs::convert::FromSpecImpl<String> for AppError {
    open spec fn obeys_from_spec() -> bool {
        true
    }

    open spec fn from_spec(err: String) -> AppError {
        AppError::Git(err)
    }
}

} // verus!
