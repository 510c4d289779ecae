//! The shell commands the plugin offers: their names and descriptions.

use vstd::prelude::*;
use crate::pool::ConnectionPool;

verus! {

/// `mssql`: help on the set of commands.
pub struct Mssql;

/// `mssql connect`: open a connection and hand it to the pipeline.
pub struct Connect;

/// `mssql query`: run a query and stream its rows.
pub struct Query;

/// `mssql connect`, the variant that keeps only the transport open.
pub struct MssqlConnection;

/// `mssql`, the variant that takes the query as its positional argument.
pub struct MssqlPluginQuery;

impl Mssql {
    pub fn name(&self) -> (r: &'static str)
        ensures
            r@ == "mssql"@,
    {
        "mssql"
    }

    pub fn usage(&self) -> (r: &'static str)
        ensures
            r@ == "Return information about the mssql set of commands"@,
    {
        "Return information about the mssql set of commands"
    }

    pub fn search_terms(&self) -> (r: Vec<&'static str>)
        ensures
            r@.len() == 1,
            r@[0]@ == "mssql"@,
    {
        let mut v: Vec<&'static str> = Vec::new();
        v.push("mssql");
        v
    }
}

impl Connect {
    pub fn name(&self) -> (r: &'static str)
        ensures
            r@ == "mssql connect"@,
    {
        "mssql connect"
    }

    pub fn usage(&self) -> (r: &'static str)
        ensures
            r@ == "Connect to a MSSQL database"@,
    {
        "Connect to a MSSQL database"
    }
}

impl Query {
    pub fn name(&self) -> (r: &'static str)
        ensures
            r@ == "mssql query"@,
    {
        "mssql query"
    }

    pub fn usage(&self) -> (r: &'static str)
        ensures
            r@ == "Run a query against a MSSQL database"@,
    {
        "Run a query against a MSSQL database"
    }
}

impl MssqlConnection {
    pub fn name(&self) -> (r: &'static str)
        ensures
            r@ == "mssql connect"@,
    {
        "mssql connect"
    }

    pub fn usage(&self) -> (r: &'static str)
        ensures
            r@ == "A plugin for connecting to a MSSQL database"@,
    {
        "A plugin for connecting to a MSSQL database"
    }
}

impl MssqlPluginQuery {
    pub fn name(&self) -> (r: &'static str)
        ensures
            r@ == "mssql"@,
    {
        "mssql"
    }

    pub fn usage(&self) -> (r: &'static str)
        ensures
            r@ == "A plugin for connecting to a MSSQL database"@,
    {
        "A plugin for connecting to a MSSQL database"
    }
}

/// The plugin's state: one pool of connections for the whole process.
pub struct MssqlPlugin<C> {
    pub connection_pool: ConnectionPool<C>,
}

impl<C> MssqlPlugin<C> {
    /// The plugin with an empty pool.
    pub fn new() -> (r: Self)
        ensures
            r.connection_pool@.len() == 0,
            r.connection_pool.wf(),
    {
        MssqlPlugin { connection_pool: ConnectionPool::new() }
    }
}

} // verus!
