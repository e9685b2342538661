//! How the database is reached.

use vstd::prelude::*;

verus! {

/// Where the database is and who signs in to it.
#[derive(Debug)]
pub struct DbConfig {
    pub endpoint: String,
    pub namespace: String,
    pub database: String,
    pub username: String,
    pub password: String,
}

/// A [`DbConfig`] with its strings as sequences of characters.
pub struct DbConfigView {
    pub endpoint: Seq<char>,
    pub namespace: Seq<char>,
    pub database: Seq<char>,
    pub username: Seq<char>,
    pub password: Seq<char>,
}

impl View for DbConfig {
    type V = DbConfigView;

    open spec fn view(&self) -> DbConfigView {
        DbConfigView {
            endpoint: self.endpoint@,
            namespace: self.namespace@,
            database: self.database@,
            username: self.username@,
            password: self.password@,
        }
    }
}

impl Clone for DbConfig {
    fn clone(&self) -> (copy: DbConfig)
        ensures
            copy@ == self@,
    {
        DbConfig {
            endpoint: self.endpoint.clone(),
            namespace: self.namespace.clone(),
            database: self.database.clone(),
            username: self.username.clone(),
            password: self.password.clone(),
        }
    }
}

} // verus!
