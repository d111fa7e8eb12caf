//! The server's setup command: its options, and the sql it runs to set up
//! the database.

use vstd::prelude::*;
use crate::text::{push_str, spec_split, spec_trimmed_pieces, to_owned_string, trimmed_pieces};

verus! {

/// how to reach the database server
#[derive(Debug)]
pub struct PostgresArgs {
    pub user: String,
    pub host: String,
    pub port: u16,
    pub dbname: String,
}

impl PostgresArgs {
    /// the options when none are given: `postgres` at `localhost:5432`,
    /// database `tj2`
    pub fn defaults() -> (rtn: Self)
        ensures
            rtn.user@ == "postgres"@,
            rtn.host@ == "localhost"@,
            rtn.port == 5432,
            rtn.dbname@ == "tj2"@,
    {
        PostgresArgs {
            user: to_owned_string("postgres"),
            host: to_owned_string("localhost"),
            port: 5432,
            dbname: to_owned_string("tj2"),
        }
    }
}

/// the options of the database setup
#[derive(Debug)]
pub struct DbInit {
    pub postgres: PostgresArgs,
    /// a script to run in place of the built in one
    pub file: Option<String>,
    /// make the database when it is missing
    pub create: bool,
    /// drop and make the database again
    pub recreate: bool,
}

/// the commands about the database
#[derive(Debug)]
pub enum DbCmd {
    Init(DbInit),
}

/// the database command and its options
#[derive(Debug)]
pub struct Db {
    pub cmd: DbCmd,
}

/// what the setup does with the database before running its script
#[derive(Debug, Clone, Copy, PartialEq, Eq, Structural)]
pub enum DbInitMode {
    /// the database is used as it is
    Existing,
    /// the database is made when missing
    Create,
    /// the database is dropped and made again
    Recreate,
}

impl DbInit {
    /// what is done with the database; the two flags exclude each other
    pub fn mode(&self) -> (rtn: DbInitMode)
        requires
            !(self.create && self.recreate),
        ensures
            rtn == (if self.recreate {
                DbInitMode::Recreate
            } else if self.create {
                DbInitMode::Create
            } else {
                DbInitMode::Existing
            }),
    {
        if self.recreate {
            DbInitMode::Recreate
        } else if self.create {
            DbInitMode::Create
        } else {
            DbInitMode::Existing
        }
    }
}

/// the prompt for the password of a database user
pub fn password_prompt(user: &str) -> (rtn: String)
    ensures
        rtn@ == user@ + " password: "@,
{
    let mut rtn = to_owned_string(user);
    push_str(&mut rtn, " password: ");
    rtn
}

/// the sql that drops a database if it is there
pub fn drop_database_query(dbname: &str) -> (rtn: String)
    ensures
        rtn@ == "drop database if exists "@ + dbname@,
{
    let mut rtn = to_owned_string("drop database if exists ");
    push_str(&mut rtn, dbname);
    rtn
}

/// the sql that makes a database
pub fn create_database_query(dbname: &str) -> (rtn: String)
    ensures
        rtn@ == "create database "@ + dbname@,
{
    let mut rtn = to_owned_string("create database ");
    push_str(&mut rtn, dbname);
    rtn
}

/// the sql that finds a database by name
pub fn database_exists_query(dbname: &str) -> (rtn: String)
    ensures
        rtn@ == "select from pg_database where datname = '"@ + dbname@ + "'"@,
{
    let mut rtn = to_owned_string("select from pg_database where datname = '");
    push_str(&mut rtn, dbname);
    push_str(&mut rtn, "'");
    rtn
}

/// the statements of a setup script: the text between semicolons, trimmed,
/// without the empty ones
pub fn init_statements(script: &str) -> (rtn: Vec<String>)
    ensures
        crate::text::string_views(rtn@) == spec_trimmed_pieces(spec_split(script@, ';')),
{
    trimmed_pieces(script, ';')
}

} // verus!
