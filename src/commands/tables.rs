use vstd::prelude::*;

use crate::hasura::client::{table_discovery_request, RunSql, TableInfo};
use crate::hasura::sql::TABLES_SQL;
use crate::hasura::tracker::TableRun;

verus! {

/// Tracks every user table of one database.
pub struct Cmd {
    pub database_name: String,
}

impl Cmd {
    /// The command that lists the database's tables.
    pub fn discovery_request(&self) -> (r: RunSql)
        ensures
            r.sql@ == TABLES_SQL@,
            r.source == self.database_name,
    {
        table_discovery_request(&self.database_name)
    }

    /// A run that tracks the discovered tables in this database, in order.
    pub fn start(&self, tables: Vec<TableInfo>) -> (r: TableRun)
        ensures
            r.wf(),
            r.source_spec() == self.database_name,
            r.tables_spec() == tables@,
            r.done() == 0,
            r.successes_spec() == 0,
            r.failures_spec().len() == 0,
    {
        TableRun::new(self.database_name.clone(), tables)
    }
}

} // verus!
