//! What can go wrong when a setting is read from the environment.

use vstd::prelude::*;
use vstd::string::*;

verus! {

/// A setting that could not be read.
#[derive(Debug)]
pub enum EnvironmentError {
    /// The variable is not set.
    NotFoundError(String),
    /// The variable is set, and its value is not of the type asked for.
    ParseError { key: String, value: String, value_type: &'static str },
}

/// An [`EnvironmentError`] with its strings as sequences of characters.
pub enum EnvironmentErrorView {
    NotFoundError(Seq<char>),
    ParseError { key: Seq<char>, value: Seq<char>, value_type: Seq<char> },
}

impl EnvironmentErrorView {
    /// The sentence that tells a reader of the error.
    pub open spec fn message(self) -> Seq<char> {
        match self {
            EnvironmentErrorView::NotFoundError(key) => "Environment variable '"@ + key
                + "' is not set"@,
            EnvironmentErrorView::ParseError { key, value, value_type } => "Failed to parse '"@ + key
                + "="@ + value + "' as "@ + value_type,
        }
    }
}

impl View for EnvironmentError {
    type V = EnvironmentErrorView;

    open spec fn view(&self) -> EnvironmentErrorView {
        match self {
            EnvironmentError::NotFoundError(key) => EnvironmentErrorView::NotFoundError(key@),
            EnvironmentError::ParseError { key, value, value_type } => {
                EnvironmentErrorView::ParseError {
                    key: key@,
                    value: value@,
                    value_type: value_type@,
                }
            },
        }
    }
}

impl EnvironmentError {
    /// The error as a sentence.
    pub fn to_string(&self) -> (text: String)
        ensures
            text@ == self@.message(),
    {
        match self {
            EnvironmentError::NotFoundError(key) => {
                let mut text = String::from_str("Environment variable '");
                text.append(key.as_str());
                text.append("' is not set");
                text
            },
            EnvironmentError::ParseError { key, value, value_type } => {
                let mut text = String::from_str("Failed to parse '");
                text.append(key.as_str());
                text.append("=");
                text.append(value.as_str());
                text.append("' as ");
                text.append(value_type);
                text
            },
        }
    }
}

} // verus!
