//! What can go wrong around the engine.

use vstd::prelude::*;

verus! {

/// A failure, with the words of whoever reported it.
#[derive(Debug)]
pub enum CoreError {
    /// A request over the network failed.
    HttpError(String),
    /// An answer could not be read as text.
    ConvertError(String),
    /// Data could not be written as JSON or read from it.
    JsonSerializeError(String),
    /// A failure of this library's own making.
    CustomError(String),
}

impl CoreError {
    /// The words that came with the failure.
    pub open spec fn message(self) -> Seq<char> {
        match self {
            CoreError::HttpError(m) => m@,
            CoreError::ConvertError(m) => m@,
            CoreError::JsonSerializeError(m) => m@,
            CoreError::CustomError(m) => m@,
        }
    }

    /// The words that came with the failure.
    pub fn description(&self) -> (text: String)
        ensures
            text@ == self.message(),
    {
        match self {
            CoreError::HttpError(m) => m.clone(),
            CoreError::ConvertError(m) => m.clone(),
            CoreError::JsonSerializeError(m) => m.clone(),
            CoreError::CustomError(m) => m.clone(),
        }
    }
}

} // verus!
