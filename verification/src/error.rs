//! The errors of the library.

use vstd::prelude::*;
use vstd::string::*;

verus! {

/// An error, with the message for its reader.
#[derive(Debug)]
pub enum ZeptoError {
    /// A tool was called wrongly or could not do its work.
    Tool(String),
    /// The configuration does not allow what was asked.
    Config(String),
    /// A model provider could not be reached or understood.
    Provider(String),
}

/// What an error says.
#[verifier::ext_equal]
pub enum ErrorModel {
    Tool(Seq<char>),
    Config(Seq<char>),
    Provider(Seq<char>),
}

impl View for ZeptoError {
    type V = ErrorModel;

    open spec fn view(&self) -> ErrorModel {
        match *self {
            ZeptoError::Tool(message) => ErrorModel::Tool(message@),
            ZeptoError::Config(message) => ErrorModel::Config(message@),
            ZeptoError::Provider(message) => ErrorModel::Provider(message@),
        }
    }
}

/// What a result holds: the view of its value, or of its error.
pub open spec fn outcome<T: View>(r: Result<T, ZeptoError>) -> Result<T::V, ErrorModel> {
    match r {
        Ok(value) => Ok(value@),
        Err(e) => Err(e@),
    }
}

impl ZeptoError {
    /// The characters of the message.
    pub open spec fn text(self) -> Seq<char> {
        match self {
            ZeptoError::Tool(message) => message@,
            ZeptoError::Config(message) => message@,
            ZeptoError::Provider(message) => message@,
        }
    }

    /// The message.
    pub fn message(&self) -> (r: &str)
        ensures
            r@ == self.text(),
    {
        match self {
            ZeptoError::Tool(message) => message.as_str(),
            ZeptoError::Config(message) => message.as_str(),
            ZeptoError::Provider(message) => message.as_str(),
        }
    }
}

} // verus!
