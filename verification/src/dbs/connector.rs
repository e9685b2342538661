//! The database configuration that the environment gives.

use super::error::{DatabaseError, DatabaseErrorView};
use super::models::{DbConfig, DbConfigView};
use crate::sys::env::error::EnvironmentErrorView;
use crate::sys::env::loader::{get_parsed_or_default, get_required, parsed_or};
use crate::sys::env::models::{lookup, Environment};
use vstd::prelude::*;

verus! {

/// The value of `key` in `vars`, or the configuration error that says that `key` is
/// not set.
pub open spec fn required(vars: Seq<(Seq<char>, Seq<char>)>, key: Seq<char>) -> Result<
    Seq<char>,
    DatabaseErrorView,
> {
    match lookup(vars, key) {
        Some(value) => Ok(value),
        None => Err(
            DatabaseErrorView::ConfigError(EnvironmentErrorView::NotFoundError(key).message()),
        ),
    }
}

impl DbConfigView {
    /// What the variables `DB_ENDPOINT`, `DB_NAMESPACE`, `DB_NAME`, `DB_USERNAME` and
    /// `DB_PASSWORD` of `vars` configure. All five have to be set: the error names the
    /// first of them, in this order, that is not.
    pub open spec fn from_env(vars: Seq<(Seq<char>, Seq<char>)>) -> Result<DbConfigView, DatabaseErrorView> {
        match required(vars, "DB_ENDPOINT"@) {
            Err(e) => Err(e),
            Ok(endpoint) => match required(vars, "DB_NAMESPACE"@) {
                Err(e) => Err(e),
                Ok(namespace) => match required(vars, "DB_NAME"@) {
                    Err(e) => Err(e),
                    Ok(database) => match required(vars, "DB_USERNAME"@) {
                        Err(e) => Err(e),
                        Ok(username) => match required(vars, "DB_PASSWORD"@) {
                            Err(e) => Err(e),
                            Ok(password) => Ok(
                                DbConfigView { endpoint, namespace, database, username, password },
                            ),
                        },
                    },
                },
            },
        }
    }
}

fn required_setting(env: &Environment, key: &str) -> (found: Result<String, DatabaseError>)
    ensures
        match required(env@, key@) {
            Ok(value) => found matches Ok(text) && text@ == value,
            Err(error) => found matches Err(e) && e@ == error,
        },
{
    match get_required(env, key) {
        Ok(value) => Ok(value),
        Err(e) => Err(DatabaseError::ConfigError(e.to_string())),
    }
}

impl DbConfig {
    /// The database configuration that the environment gives, or the configuration
    /// error that names the first variable that is missing.
    pub fn from_env(env: &Environment) -> (config: Result<DbConfig, DatabaseError>)
        ensures
            match DbConfigView::from_env(env@) {
                Ok(view) => config matches Ok(c) && c@ == view,
                Err(error) => config matches Err(e) && e@ == error,
            },
    {
        let endpoint = match required_setting(env, "DB_ENDPOINT") {
            Ok(value) => value,
            Err(e) => {
                return Err(e);
            },
        };
        let namespace = match required_setting(env, "DB_NAMESPACE") {
            Ok(value) => value,
            Err(e) => {
                return Err(e);
            },
        };
        let database = match required_setting(env, "DB_NAME") {
            Ok(value) => value,
            Err(e) => {
                return Err(e);
            },
        };
        let username = match required_setting(env, "DB_USERNAME") {
            Ok(value) => value,
            Err(e) => {
                return Err(e);
            },
        };
        let password = match required_setting(env, "DB_PASSWORD") {
            Ok(value) => value,
            Err(e) => {
                return Err(e);
            },
        };
        Ok(DbConfig { endpoint, namespace, database, username, password })
    }
}

/// The seconds to wait for the database to answer when connecting: what the variable
/// `DB_CONNECTION_TIMEOUT` says, or 10.
pub fn connection_timeout_secs(env: &Environment) -> (secs: u64)
    ensures
        secs == parsed_or::<u64>(env@, "DB_CONNECTION_TIMEOUT"@, 10u64),
{
    get_parsed_or_default(env, "DB_CONNECTION_TIMEOUT", 10)
}

} // verus!
