//! Every error of the service under one type.

use super::response::{ErrorResponse, ErrorResponseView};
use crate::dbs::error::{DatabaseError, DatabaseErrorView};
use crate::sys::env::error::{EnvironmentError, EnvironmentErrorView};
use crate::text::{decimal, to_decimal};
use vstd::prelude::*;
use vstd::std_specs::convert::FromSpecImpl;
use vstd::string::*;

verus! {

/// An error of the service.
#[derive(Debug)]
pub enum AppError {
    /// The database failed.
    Database(DatabaseError),
    /// The server failed while it ran or while it started.
    ServerError(String),
    /// The server could not bind to its address.
    BindError(String),
    /// A setting could not be read.
    Environment(EnvironmentError),
}

/// An [`AppError`] with the views of what it holds.
pub enum AppErrorView {
    Database(DatabaseErrorView),
    ServerError(Seq<char>),
    BindError(Seq<char>),
    Environment(EnvironmentErrorView),
}

impl AppErrorView {
    /// The sentence that tells a reader of the error.
    pub open spec fn message(self) -> Seq<char> {
        match self {
            AppErrorView::Database(e) => "Database error: "@ + e.message(),
            AppErrorView::Environment(e) => "Environment error: "@ + e.message(),
            AppErrorView::ServerError(text) => "Server error: "@ + text,
            AppErrorView::BindError(text) => "Bind error: "@ + text,
        }
    }

    /// What a client is told. A database error answers for itself; every other error
    /// is an internal server error with a word for its kind and its text as message.
    pub open spec fn response(self) -> ErrorResponseView {
        match self {
            AppErrorView::Database(e) => e.response(),
            AppErrorView::Environment(e) => ErrorResponseView {
                status: 500,
                error: "configuration_error"@,
                message: Some(e.message()),
            },
            AppErrorView::ServerError(text) => ErrorResponseView {
                status: 500,
                error: "server_error"@,
                message: Some(text),
            },
            AppErrorView::BindError(text) => ErrorResponseView {
                status: 500,
                error: "bind_error"@,
                message: Some(text),
            },
        }
    }

    /// The error of a database that did not answer within `timeout_secs` seconds
    /// when the service connected to it.
    pub open spec fn connection_timeout(timeout_secs: u64) -> AppErrorView {
        AppErrorView::ServerError(
            "Database connection timeout after "@ + decimal(timeout_secs as nat) + " seconds"@,
        )
    }

    /// The error of an environment variable that could not be read, with what the
    /// system said of it.
    pub open spec fn unreadable_variable(detail: Seq<char>) -> AppErrorView {
        AppErrorView::ServerError("Environment variable error: "@ + detail)
    }
}

impl View for AppError {
    type V = AppErrorView;

    open spec fn view(&self) -> AppErrorView {
        match self {
            AppError::Database(e) => AppErrorView::Database(e@),
            AppError::ServerError(text) => AppErrorView::ServerError(text@),
            AppError::BindError(text) => AppErrorView::BindError(text@),
            AppError::Environment(e) => AppErrorView::Environment(e@),
        }
    }
}

impl AppError {
    /// The error as a sentence.
    pub fn to_string(&self) -> (text: String)
        ensures
            text@ == self@.message(),
    {
        match self {
            AppError::Database(e) => String::from_str("Database error: ").concat(
                e.to_string().as_str(),
            ),
            AppError::Environment(e) => String::from_str("Environment error: ").concat(
                e.to_string().as_str(),
            ),
            AppError::ServerError(text) => String::from_str("Server error: ").concat(text.as_str()),
            AppError::BindError(text) => String::from_str("Bind error: ").concat(text.as_str()),
        }
    }

    /// What a client is told of the error.
    pub fn into_response(self) -> (response: ErrorResponse)
        ensures
            response@ == self@.response(),
    {
        match self {
            AppError::Database(e) => e.into_response(),
            AppError::Environment(e) => ErrorResponse {
                status: 500,
                error: String::from_str("configuration_error"),
                message: Some(e.to_string()),
            },
            AppError::ServerError(text) => ErrorResponse {
                status: 500,
                error: String::from_str("server_error"),
                message: Some(text),
            },
            AppError::BindError(text) => ErrorResponse {
                status: 500,
                error: String::from_str("bind_error"),
                message: Some(text),
            },
        }
    }

    /// The error of a database that did not answer within `timeout_secs` seconds
    /// when the service connected to it.
    pub fn connection_timeout(timeout_secs: u64) -> (error: AppError)
        ensures
            error@ == AppErrorView::connection_timeout(timeout_secs),
    {
        let mut text = String::from_str("Database connection timeout after ");
        text.append(to_decimal(timeout_secs as u128).as_str());
        text.append(" seconds");
        AppError::ServerError(text)
    }
}

impl AppError {
    /// The error of an input or output operation that failed while the server bound to
    /// its address, with what the system said of it.
    pub fn from_io(detail: String) -> (error: AppError)
        ensures
            error@ == AppErrorView::BindError(detail@),
    {
        AppError::BindError(detail)
    }

    /// The error of an environment variable that could not be read, with what the
    /// system said of it.
    pub fn from_var(detail: &str) -> (error: AppError)
        ensures
            error@ == AppErrorView::unreadable_variable(detail@),
    {
        AppError::ServerError(String::from_str("Environment variable error: ").concat(detail))
    }

    /// The error of a query that the database refused, with what the database said.
    pub fn from_query(detail: String) -> (error: AppError)
        ensures
            error@ == AppErrorView::Database(DatabaseErrorView::QueryError(detail@)),
    {
        AppError::Database(DatabaseError::QueryError(detail))
    }
}

impl From<DatabaseError> for AppError {
    fn from(err: DatabaseError) -> (error: AppError) {
        AppError::Database(err)
    }
}

impl FromSpecImpl<DatabaseError> for AppError {
    open spec fn obeys_from_spec() -> bool {
        true
    }

    open spec fn from_spec(err: DatabaseError) -> AppError {
        AppError::Database(err)
    }
}

impl From<EnvironmentError> for AppError {
    fn from(err: EnvironmentError) -> (error: AppError) {
        AppError::Environment(err)
    }
}

impl FromSpecImpl<EnvironmentError> for AppError {
    open spec fn obeys_from_spec() -> bool {
        true
    }

    open spec fn from_spec(err: EnvironmentError) -> AppError {
        AppError::Environment(err)
    }
}

} // verus!
