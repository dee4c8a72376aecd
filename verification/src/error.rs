//! The error type that every fallible command step returns.
use vstd::prelude::*;

verus! {

/// Why a command step failed; each kind carries the user facing message.
#[derive(Clone, Debug, PartialEq, Eq)]
pub enum QuantixError {
    /// A configuration file or value could not be used.
    Config(String),
    /// Input data could not be parsed or failed a check.
    DataParse(String),
    /// Any other refusal.
    Other(String),
    /// The command exists but is not offered in this build.
    Unsupported(String),
}

impl QuantixError {
    /// The message carried by the error, whatever its kind.
    pub open spec fn message_text(self) -> Seq<char> {
        match self {
            QuantixError::Config(m) => m@,
            QuantixError::DataParse(m) => m@,
            QuantixError::Other(m) => m@,
            QuantixError::Unsupported(m) => m@,
        }
    }

    /// A copy of the error.
    pub fn duplicate(&self) -> (r: Self)
        ensures
            r == *self,
    {
        match self {
            QuantixError::Config(m) => QuantixError::Config(m.clone()),
            QuantixError::DataParse(m) => QuantixError::DataParse(m.clone()),
            QuantixError::Other(m) => QuantixError::Other(m.clone()),
            QuantixError::Unsupported(m) => QuantixError::Unsupported(m.clone()),
        }
    }

    /// The message carried by the error.
    pub fn message(&self) -> (r: String)
        ensures
            r@ == self.message_text(),
    {
        match self {
            QuantixError::Config(m) => m.clone(),
            QuantixError::DataParse(m) => m.clone(),
            QuantixError::Other(m) => m.clone(),
            QuantixError::Unsupported(m) => m.clone(),
        }
    }
}

} // verus!
