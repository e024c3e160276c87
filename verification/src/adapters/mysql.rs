//! Connection parameters of the MySQL driver.

use crate::adapters::{AdapterOpts, AdapterOptsView};
use vstd::prelude::*;
use vstd::string::*;

verus! {

/// What the MySQL driver is connected with.
#[derive(Debug, PartialEq, Eq)]
pub struct MySqlParams {
    pub host: String,
    pub port: u16,
    pub user: String,
    pub password: String,
    /// Whether the driver may switch to a local socket once connected.
    pub prefer_socket: bool,
}

/// The mathematical value of a [`MySqlParams`].
pub struct MySqlParamsView {
    pub host: Seq<char>,
    pub port: u16,
    pub user: Seq<char>,
    pub password: Seq<char>,
    pub prefer_socket: bool,
}

impl View for MySqlParams {
    type V = MySqlParamsView;

    open spec fn view(&self) -> MySqlParamsView {
        MySqlParamsView {
            host: self.host@,
            port: self.port,
            user: self.user@,
            password: self.password@,
            prefer_socket: self.prefer_socket,
        }
    }
}

/// The parameters for `opts`: its host, user and password, its port reduced
/// to the sixteen bits of a TCP port, and always over TCP.
pub open spec fn spec_connect(opts: AdapterOptsView) -> MySqlParamsView {
    MySqlParamsView {
        host: opts.host,
        port: (opts.port % 0x1_0000) as u16,
        user: opts.user,
        password: opts.password,
        prefer_socket: false,
    }
}

/// The statement that makes `database` the one that queries run in, with
/// the name quoted.
pub open spec fn spec_use_database(database: Seq<char>) -> Seq<char> {
    "USE `"@ + database + "`"@
}

/// Writes the statement that makes `database` the one that queries run in.
pub fn use_database(database: &str) -> (statement: String)
    ensures
        statement@ == spec_use_database(database@),
{
    let mut statement = "USE `".to_string();
    statement.append(database);
    statement.append("`");
    statement
}

/// Fixes the parameters with which the MySQL driver connects.
pub fn connect(opts: AdapterOpts) -> (params: MySqlParams)
    ensures
        params@ == spec_connect(opts@),
{
    MySqlParams {
        host: opts.host,
        port: (opts.port % 0x1_0000) as u16,
        user: opts.user,
        password: opts.password,
        prefer_socket: false,
    }
}

} // verus!
