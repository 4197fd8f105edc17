//! What the binding reports to its caller when it cannot do what was asked.

use vstd::prelude::*;
use vstd::string::StringExecFns;

verus! {

/// A failure that the binding hands to its caller. Nothing is retried and
/// nothing is recovered here: the caller sees the failure as it happened.
#[derive(Debug, PartialEq, Eq)]
pub enum BindingError {
    /// The engine could not open the database. The text is the engine's own
    /// diagnostic, unchanged.
    Open(String),
    /// The configuration came as an untyped mapping of names to values. That
    /// shape is accepted as input, and its translation is not there: it is
    /// never read as "all defaults".
    UnsupportedConfigurationShape,
}

impl Clone for BindingError {
    fn clone(&self) -> (e: Self)
        ensures
            e == *self,
    {
        match self {
            BindingError::Open(diagnostic) => BindingError::Open(diagnostic.clone()),
            BindingError::UnsupportedConfigurationShape => {
                BindingError::UnsupportedConfigurationShape
            },
        }
    }
}

impl BindingError {
    /// The text of the message that the caller is shown.
    pub open spec fn message_text(self) -> Seq<char> {
        match self {
            BindingError::Open(diagnostic) => "Unable to open database: "@ + diagnostic@,
            BindingError::UnsupportedConfigurationShape => "Raw options are not implemented yet"@,
        }
    }

    /// The message for the caller: for a failed open, a fixed prefix and then
    /// the engine's diagnostic, letter for letter.
    pub fn message(&self) -> (m: String)
        ensures
            m@ == self.message_text(),
    {
        match self {
            BindingError::Open(diagnostic) => {
                String::from_str("Unable to open database: ").concat(diagnostic.as_str())
            },
            BindingError::UnsupportedConfigurationShape => {
                String::from_str("Raw options are not implemented yet")
            },
        }
    }
}

} // verus!
