//! The database commands of the management tool: the connection options,
//! and the sql that sets up a database and its user.

pub mod migrate;

use vstd::prelude::*;
use crate::text::{push_str, to_owned_string};
use migrate::MigrateArgs;

verus! {

/// how to reach the database
#[derive(Debug)]
pub struct DbConn {
    pub user: String,
    /// whether to ask for a password
    pub password: bool,
    pub port: u16,
    pub host: String,
    pub dbname: String,
}

impl DbConn {
    /// the options when none are given: user `tj2` at `localhost:5432`,
    /// database `tj2`, no password
    pub fn defaults() -> (rtn: Self)
        ensures
            rtn.user@ == "tj2"@,
            !rtn.password,
            rtn.port == 5432,
            rtn.host@ == "localhost"@,
            rtn.dbname@ == "tj2"@,
    {
        DbConn {
            user: to_owned_string("tj2"),
            password: false,
            port: 5432,
            host: to_owned_string("localhost"),
            dbname: to_owned_string("tj2"),
        }
    }

    /// the prompt for the user's password
    pub fn password_prompt(&self) -> (rtn: String)
        ensures
            rtn@ == self.user@ + "'s password: "@,
    {
        user_password_prompt(self.user.as_str())
    }
}

/// the prompt for a user's password
pub fn user_password_prompt(user: &str) -> (rtn: String)
    ensures
        rtn@ == user@ + "'s password: "@,
{
    let mut rtn = to_owned_string(user);
    push_str(&mut rtn, "'s password: ");
    rtn
}

/// the database commands
#[derive(Debug)]
pub enum DbCmd {
    Init(InitArgs),
    Migrate(MigrateArgs),
}

/// the database command with its connection
#[derive(Debug)]
pub struct DbArg {
    pub conn: DbConn,
    pub cmd: DbCmd,
}

/// the options of setting up a database, and maybe the user the server
/// connects as
#[derive(Debug)]
pub struct InitArgs {
    pub database: String,
    pub username: Option<String>,
    /// whether the user's password is stored encrypted
    pub encrypted: bool,
}

/// the sql that makes the database
pub fn create_database_query(database: &str) -> (rtn: String)
    ensures
        rtn@ == "create database "@ + database@ + " with encoding 'UTF8'"@,
{
    let mut rtn = to_owned_string("create database ");
    push_str(&mut rtn, database);
    push_str(&mut rtn, " with encoding 'UTF8'");
    rtn
}

/// the sql that makes the server's user: it may log in and nothing more
pub fn create_role_query(username: &str, password: &str, encrypted: bool) -> (rtn: String)
    ensures
        rtn@ == "create role "@ + username@ + " nosuperuser nocreatedb nocreaterole noinherit login "@
            + (if encrypted { "encrypted password '"@ } else { "password '"@ }) + password@ + "'"@,
{
    let mut rtn = to_owned_string("create role ");
    push_str(&mut rtn, username);
    push_str(&mut rtn, " nosuperuser nocreatedb nocreaterole noinherit login ");
    if encrypted {
        push_str(&mut rtn, "encrypted password '");
    } else {
        push_str(&mut rtn, "password '");
    }
    push_str(&mut rtn, password);
    push_str(&mut rtn, "'");
    rtn
}

/// the sql that lets the user connect to the database
pub fn grant_connect_query(database: &str, username: &str) -> (rtn: String)
    ensures
        rtn@ == "grant connect on database "@ + database@ + " to "@ + username@,
{
    let mut rtn = to_owned_string("grant connect on database ");
    push_str(&mut rtn, database);
    push_str(&mut rtn, " to ");
    push_str(&mut rtn, username);
    rtn
}

/// the sql that lets the user read all data
pub fn grant_read_query(username: &str) -> (rtn: String)
    ensures
        rtn@ == "grant pg_read_all_data to "@ + username@,
{
    let mut rtn = to_owned_string("grant pg_read_all_data to ");
    push_str(&mut rtn, username);
    rtn
}

/// the sql that lets the user write all data
pub fn grant_write_query(username: &str) -> (rtn: String)
    ensures
        rtn@ == "grant pg_write_all_data to "@ + username@,
{
    let mut rtn = to_owned_string("grant pg_write_all_data to ");
    push_str(&mut rtn, username);
    rtn
}

} // verus!
