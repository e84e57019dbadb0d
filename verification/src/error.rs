//! Why a badge update can fail.

use vstd::prelude::*;
use vstd::string::*;

verus! {

/// The ways in which a badge update fails.
#[derive(Debug, Clone, PartialEq, Eq)]
pub enum BadgeError {
    /// No main window exists at the moment of the call.
    WindowNotFound,
    /// The host refused to show or clear the label; its diagnostic is kept as it came.
    BadgeApplyFailed(String),
}

impl BadgeError {
    /// The text that the user interface is shown for this error.
    pub open spec fn message_spec(&self) -> Seq<char> {
        match self {
            BadgeError::WindowNotFound => "Window not found"@,
            BadgeError::BadgeApplyFailed(diagnostic) => diagnostic@,
        }
    }

    /// Flattens the error to plain text: a fixed sentence for a missing window,
    /// the host's own words for a refused label.
    pub fn message(&self) -> (text: String)
        ensures
            text@ == self.message_spec(),
    {
        match self {
            BadgeError::WindowNotFound => String::from_str("Window not found"),
            BadgeError::BadgeApplyFailed(diagnostic) => diagnostic.clone(),
        }
    }
}

} // verus!
