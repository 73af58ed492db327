use vstd::prelude::*;

use crate::hasura::client::{fk_discovery_request, FKInfo, RunSql, TableInfo};
use crate::hasura::sql::fk_relations_sql;
use crate::hasura::tracker::RelationshipRun;

verus! {

/// Registers the relationships of every foreign key of one database.
pub struct Cmd {
    pub database_name: String,
}

/// The schema of each table, in order.
pub open spec fn schemas_spec(tables: Seq<TableInfo>) -> Seq<String> {
    tables.map_values(|t: TableInfo| t.table_schema)
}

/// The schema of each table, in order, repeats kept.
pub fn schemas_of(tables: &Vec<TableInfo>) -> (r: Vec<String>)
    ensures
        r@ == schemas_spec(tables@),
{
    let mut r: Vec<String> = Vec::new();
    let mut i: usize = 0;
    while i < tables.len()
        invariant
            i <= tables@.len(),
            r@ == schemas_spec(tables@.take(i as int)),
        decreases tables@.len() - i,
    {
        r.push(tables[i].table_schema.clone());
        assert(schemas_spec(tables@.take(i + 1)) =~= schemas_spec(tables@.take(i as int)).push(
            tables@[i as int].table_schema,
        ));
        i = i + 1;
    }
    assert(tables@.take(i as int) =~= tables@);
    r
}

impl Cmd {
    /// The command that lists the foreign keys among the discovered tables:
    /// those in the tables' schemas, or on the tables themselves.
    pub fn discovery_request(&self, tables: Vec<TableInfo>) -> (r: RunSql)
        ensures
            r.sql@ == fk_relations_sql(schemas_spec(tables@), tables@),
            r.source == self.database_name,
    {
        let schemas = schemas_of(&tables);
        fk_discovery_request(&self.database_name, schemas, tables)
    }

    /// A run that registers the discovered foreign keys in this database, in
    /// order.
    pub fn start(&self, fks: Vec<FKInfo>) -> (r: RelationshipRun)
        ensures
            r.wf(),
            r.source_spec() == self.database_name,
            r.fks_spec() == fks@,
            r.done() == 0,
            r.successes_spec() == 0,
            r.failures_spec().len() == 0,
    {
        RelationshipRun::new(self.database_name.clone(), fks)
    }
}

} // verus!
