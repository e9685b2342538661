//! What can go wrong with the database.

use crate::err::response::{ErrorResponse, ErrorResponseView};
use vstd::prelude::*;
use vstd::string::*;

verus! {

/// A failure of the database, with what the database or the configuration said.
#[derive(Debug)]
pub enum DatabaseError {
    ConnectionError(String),
    QueryError(String),
    AuthenticationError(String),
    NotFound(String),
    ConfigError(String),
}

/// A [`DatabaseError`] with its text as a sequence of characters.
pub enum DatabaseErrorView {
    ConnectionError(Seq<char>),
    QueryError(Seq<char>),
    AuthenticationError(Seq<char>),
    NotFound(Seq<char>),
    ConfigError(Seq<char>),
}

impl DatabaseErrorView {
    /// What the database or the configuration said.
    pub open spec fn detail(self) -> Seq<char> {
        match self {
            DatabaseErrorView::ConnectionError(text) => text,
            DatabaseErrorView::QueryError(text) => text,
            DatabaseErrorView::AuthenticationError(text) => text,
            DatabaseErrorView::NotFound(text) => text,
            DatabaseErrorView::ConfigError(text) => text,
        }
    }

    /// The words that say which kind of failure it is.
    pub open spec fn prefix(self) -> Seq<char> {
        match self {
            DatabaseErrorView::ConnectionError(_) => "Connection error: "@,
            DatabaseErrorView::QueryError(_) => "Query error: "@,
            DatabaseErrorView::AuthenticationError(_) => "Authentication error: "@,
            DatabaseErrorView::NotFound(_) => "Not found: "@,
            DatabaseErrorView::ConfigError(_) => "Configuration error: "@,
        }
    }

    /// The sentence that tells a reader of the error.
    pub open spec fn message(self) -> Seq<char> {
        self.prefix() + self.detail()
    }

    /// The HTTP status code that tells a client of the error.
    pub open spec fn status(self) -> u16 {
        match self {
            DatabaseErrorView::ConnectionError(_) => 503,
            DatabaseErrorView::QueryError(_) => 500,
            DatabaseErrorView::AuthenticationError(_) => 401,
            DatabaseErrorView::NotFound(_) => 404,
            DatabaseErrorView::ConfigError(_) => 500,
        }
    }

    /// What a client is told: the status code, and the detail as the error.
    pub open spec fn response(self) -> ErrorResponseView {
        ErrorResponseView { status: self.status(), error: self.detail(), message: None }
    }
}

impl View for DatabaseError {
    type V = DatabaseErrorView;

    open spec fn view(&self) -> DatabaseErrorView {
        match self {
            DatabaseError::ConnectionError(text) => DatabaseErrorView::ConnectionError(text@),
            DatabaseError::QueryError(text) => DatabaseErrorView::QueryError(text@),
            DatabaseError::AuthenticationError(text) => DatabaseErrorView::AuthenticationError(text@),
            DatabaseError::NotFound(text) => DatabaseErrorView::NotFound(text@),
            DatabaseError::ConfigError(text) => DatabaseErrorView::ConfigError(text@),
        }
    }
}

impl DatabaseError {
    /// The error as a sentence.
    pub fn to_string(&self) -> (text: String)
        ensures
            text@ == self@.message(),
    {
        match self {
            DatabaseError::ConnectionError(detail) => String::from_str("Connection error: ").concat(
                detail.as_str(),
            ),
            DatabaseError::QueryError(detail) => String::from_str("Query error: ").concat(
                detail.as_str(),
            ),
            DatabaseError::AuthenticationError(detail) => String::from_str(
                "Authentication error: ",
            ).concat(detail.as_str()),
            DatabaseError::NotFound(detail) => String::from_str("Not found: ").concat(detail.as_str()),
            DatabaseError::ConfigError(detail) => String::from_str("Configuration error: ").concat(
                detail.as_str(),
            ),
        }
    }

    /// What a client is told of the error.
    pub fn into_response(self) -> (response: ErrorResponse)
        ensures
            response@ == self@.response(),
    {
        let (status, error) = match self {
            DatabaseError::ConnectionError(detail) => (503u16, detail),
            DatabaseError::QueryError(detail) => (500u16, detail),
            DatabaseError::AuthenticationError(detail) => (401u16, detail),
            DatabaseError::NotFound(detail) => (404u16, detail),
            DatabaseError::ConfigError(detail) => (500u16, detail),
        };
        ErrorResponse { status, error, message: None }
    }
}

} // verus!
