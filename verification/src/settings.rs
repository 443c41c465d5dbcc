//! What a run is told from outside: where to connect, as whom, and which
//! statement to execute.

use vstd::prelude::*;
use vstd::string::StringExecFns;

verus! {

/// The inputs of one run.
#[derive(Clone, Debug, PartialEq, Eq)]
pub struct Settings {
    /// The data source name that the driver resolves.
    pub dsn: String,
    pub user: String,
    pub password: String,
    /// The statement text, executed as it stands.
    pub sql: String,
}

/// The settings as the contracts see them.
pub struct SettingsView {
    pub dsn: Seq<char>,
    pub user: Seq<char>,
    pub password: Seq<char>,
    pub sql: Seq<char>,
}

impl View for Settings {
    type V = SettingsView;

    open spec fn view(&self) -> SettingsView {
        SettingsView {
            dsn: self.dsn@,
            user: self.user@,
            password: self.password@,
            sql: self.sql@,
        }
    }
}

/// The settings of a run that is given none: a data source `dbname`, the
/// user `dbuser` with the password `dbpass`, and a query for all of `foo`.
pub open spec fn stock_settings() -> SettingsView {
    SettingsView {
        dsn: "dbname"@,
        user: "dbuser"@,
        password: "dbpass"@,
        sql: "select * from foo;"@,
    }
}

impl Settings {
    /// Settings from their four parts.
    pub fn new(dsn: &str, user: &str, password: &str, sql: &str) -> (settings: Settings)
        ensures
            settings@ == (SettingsView { dsn: dsn@, user: user@, password: password@, sql: sql@ }),
    {
        Settings {
            dsn: String::from_str(dsn),
            user: String::from_str(user),
            password: String::from_str(password),
            sql: String::from_str(sql),
        }
    }
}

impl Default for Settings {
    fn default() -> (settings: Settings)
        ensures
            settings@ == stock_settings(),
    {
        Settings::new("dbname", "dbuser", "dbpass", "select * from foo;")
    }
}

} // verus!
