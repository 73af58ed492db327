use vstd::prelude::*;

use super::client::TableInfo;

verus! {

/// Lists every user table, with its columns and their types, as one JSON array.
pub const TABLES_SQL: &'static str = r#"
SELECT
	COALESCE(json_agg(row_to_json(info)), '[]'::JSON)
FROM (
	SELECT
		table_name::text,
		table_schema::text,
		ARRAY_AGG("column_name"::text) as columns,
    ARRAY_AGG("data_type"::text) as column_types
	FROM
		information_schema.columns
	WHERE
		table_schema NOT in('information_schema', 'pg_catalog', 'hdb_catalog', '_timescaledb_internal', 'crdb_internal')
		AND table_schema NOT LIKE 'pg_toast%'
		AND table_schema NOT LIKE 'pg_temp_%'
	GROUP BY
		table_name,
		table_schema) AS info;
    "#;

/// The foreign-key query up to the point where its filter goes.
pub const FK_SQL_HEAD: &'static str = r#"

SELECT
	COALESCE(json_agg(row_to_json(info)), '[]'::JSON)
FROM (
	SELECT
		q.table_schema::text AS table_schema,
		q.table_name::text AS table_name,
		q.constraint_name::text AS constraint_name,
		min(q.ref_table_table_schema::text) AS ref_table_table_schema,
		min(q.ref_table::text) AS ref_table,
		json_object_agg(ac.attname, afc.attname) AS column_mapping,
		min(q.confupdtype::text) AS on_update,
		min(q.confdeltype::text) AS
		on_delete
	FROM (
		SELECT
			ctn.nspname AS table_schema,
			ct.relname AS table_name,
			r.conrelid AS table_id,
			r.conname AS constraint_name,
			cftn.nspname AS ref_table_table_schema,
			cft.relname AS ref_table,
			r.confrelid AS ref_table_id,
			r.confupdtype,
			r.confdeltype,
			unnest(r.conkey) AS column_id,
			unnest(r.confkey) AS ref_column_id
		FROM
			pg_constraint r
			JOIN pg_class ct ON r.conrelid = ct.oid
			JOIN pg_namespace ctn ON ct.relnamespace = ctn.oid
			JOIN pg_class cft ON r.confrelid = cft.oid
			JOIN pg_namespace cftn ON cft.relnamespace = cftn.oid
    WHERE
      r.contype = 'f'::"char"
      "#;

/// The foreign-key query from its filter on.
pub const FK_SQL_TAIL: &'static str = r#"
      ) q
		JOIN pg_attribute ac ON q.column_id = ac.attnum
			AND q.table_id = ac.attrelid
		JOIN pg_attribute afc ON q.ref_column_id = afc.attnum
			AND q.ref_table_id = afc.attrelid
		GROUP BY
			q.table_schema,
			q.table_name,
      q.constraint_name) AS info;

        "#;

/// The catalog column that holds a constrained table's name.
pub const FK_TABLE_COLUMN: &'static str = "ct.relname";

/// The catalog column that holds a constrained table's schema.
pub const FK_SCHEMA_COLUMN: &'static str = "ctn.nspname";

/// What joins the foreign-key filter to the conditions before it.
pub const FK_CLAUSE_PREFIX: &'static str = "AND";

/// `<column> = '<schema>'`
pub open spec fn schema_condition(schema_col: Seq<char>, schema: Seq<char>) -> Seq<char> {
    schema_col + " = '"@ + schema + "'"@
}

/// `<schema column> = '<schema>' and <table column> = '<table>'`
pub open spec fn table_condition(
    table_col: Seq<char>,
    schema_col: Seq<char>,
    table: TableInfo,
) -> Seq<char> {
    schema_col + " = '"@ + table.table_schema@ + "' and "@ + table_col + " = '"@
        + table.table_name@ + "'"@
}

/// One condition per schema, then one per table, in the order given.
pub open spec fn where_conditions(
    schemas: Seq<String>,
    tables: Seq<TableInfo>,
    table_col: Seq<char>,
    schema_col: Seq<char>,
) -> Seq<Seq<char>> {
    schemas.map_values(|s: String| schema_condition(schema_col, s@)) + tables.map_values(
        |t: TableInfo| table_condition(table_col, schema_col, t),
    )
}

/// The parts one after the other, with `sep` between each two.
pub open spec fn join_with(parts: Seq<Seq<char>>, sep: Seq<char>) -> Seq<char>
    decreases parts.len(),
{
    if parts.len() == 0 {
        seq![]
    } else if parts.len() == 1 {
        parts[0]
    } else {
        join_with(parts.drop_last(), sep) + sep + parts.last()
    }
}

/// Nothing when there are no conditions; else `<prefix> (<c1> or <c2> ...)`.
pub open spec fn where_clause(conditions: Seq<Seq<char>>, prefix: Seq<char>) -> Seq<char> {
    if conditions.len() == 0 {
        seq![]
    } else {
        prefix + " ("@ + join_with(conditions, " or "@) + ")"@
    }
}

/// The foreign-key query, filtered on the given schemas and tables.
pub open spec fn fk_relations_sql(schemas: Seq<String>, tables: Seq<TableInfo>) -> Seq<char> {
    FK_SQL_HEAD@ + where_clause(
        where_conditions(schemas, tables, FK_TABLE_COLUMN@, FK_SCHEMA_COLUMN@),
        FK_CLAUSE_PREFIX@,
    ) + FK_SQL_TAIL@
}

proof fn lemma_join_push(parts: Seq<Seq<char>>, sep: Seq<char>, part: Seq<char>)
    requires
        parts.len() > 0,
    ensures
        join_with(parts.push(part), sep) == join_with(parts, sep) + sep + part,
{
    assert(parts.push(part).drop_last() =~= parts);
}

/// The query that lists every user table outside the system schemas.
pub fn get_tables_names() -> (r: String)
    ensures
        r@ == TABLES_SQL@,
{
    String::from_str(TABLES_SQL)
}

/// The query that lists foreign keys, restricted to the given schemas and tables
/// when any are given.
pub fn get_fk_relations(schemas: Vec<String>, tables: Vec<TableInfo>) -> (r: String)
    ensures
        r@ == fk_relations_sql(schemas@, tables@),
{
    let clause = generate_where_clause(
        schemas,
        tables,
        FK_TABLE_COLUMN,
        FK_SCHEMA_COLUMN,
        FK_CLAUSE_PREFIX,
    );
    let mut r = String::from_str(FK_SQL_HEAD);
    r.append(clause.as_str());
    r.append(FK_SQL_TAIL);
    r
}

/// A filter that matches any of the schemas, or any of the tables by schema and
/// name, joined by `or` under `clause_prefix`; empty when both are empty.
pub fn generate_where_clause(
    schemas: Vec<String>,
    tables: Vec<TableInfo>,
    sql_table_name: &str,
    sql_schema_name: &str,
    clause_prefix: &str,
) -> (r: String)
    ensures
        r@ == where_clause(
            where_conditions(schemas@, tables@, sql_table_name@, sql_schema_name@),
            clause_prefix@,
        ),
{
    let ghost schema_conds = schemas@.map_values(
        |s: String| schema_condition(sql_schema_name@, s@),
    );
    let ghost table_conds = tables@.map_values(
        |t: TableInfo| table_condition(sql_table_name@, sql_schema_name@, t),
    );
    let mut joined = String::new();
    let mut i: usize = 0;
    while i < schemas.len()
        invariant
            i <= schemas@.len(),
            schema_conds == schemas@.map_values(
                |s: String| schema_condition(sql_schema_name@, s@),
            ),
            joined@ == join_with(schema_conds.take(i as int), " or "@),
        decreases schemas@.len() - i,
    {
        let ghost before = schema_conds.take(i as int);
        if i > 0 {
            joined.append(" or ");
        }
        joined.append(sql_schema_name);
        joined.append(" = '");
        joined.append(schemas[i].as_str());
        joined.append("'");
        proof {
            assert(schema_conds.take(i + 1) =~= before.push(schema_conds[i as int]));
            if i > 0 {
                lemma_join_push(before, " or "@, schema_conds[i as int]);
            } else {
                assert(before.push(schema_conds[i as int]).len() == 1);
            }
        }
        i = i + 1;
    }
    assert(schema_conds.take(i as int) =~= schema_conds);
    let mut j: usize = 0;
    while j < tables.len()
        invariant
            i == schemas@.len(),
            j <= tables@.len(),
            table_conds == tables@.map_values(
                |t: TableInfo| table_condition(sql_table_name@, sql_schema_name@, t),
            ),
            schema_conds.len() == i,
            joined@ == join_with(schema_conds + table_conds.take(j as int), " or "@),
        decreases tables@.len() - j,
    {
        let ghost before = schema_conds + table_conds.take(j as int);
        if i > 0 || j > 0 {
            joined.append(" or ");
        }
        joined.append(sql_schema_name);
        joined.append(" = '");
        joined.append(tables[j].table_schema.as_str());
        joined.append("' and ");
        joined.append(sql_table_name);
        joined.append(" = '");
        joined.append(tables[j].table_name.as_str());
        joined.append("'");
        proof {
            assert(schema_conds + table_conds.take(j + 1) =~= before.push(
                table_conds[j as int],
            ));
            if i > 0 || j > 0 {
                lemma_join_push(before, " or "@, table_conds[j as int]);
            } else {
                assert(before.push(table_conds[j as int]).len() == 1);
            }
        }
        j = j + 1;
    }
    assert(table_conds.take(j as int) =~= table_conds);
    if i == 0 && j == 0 {
        return String::new();
    }
    let mut r = String::from_str(clause_prefix);
    r.append(" (");
    r.append(joined.as_str());
    r.append(")");
    r
}

/// With schemas and no tables, the foreign-key query's filter names each schema,
/// joined by `or` and prefixed by `AND`; with neither, the query has no filter.
pub proof fn lemma_fk_filter_by_schemas(schemas: Seq<String>, tables: Seq<TableInfo>)
    requires
        tables.len() == 0,
    ensures
        schemas.len() > 0 ==> fk_relations_sql(schemas, tables) == FK_SQL_HEAD@ + (
        FK_CLAUSE_PREFIX@ + " ("@ + join_with(
            schemas.map_values(|s: String| schema_condition(FK_SCHEMA_COLUMN@, s@)),
            " or "@,
        ) + ")"@) + FK_SQL_TAIL@,
        schemas.len() == 0 ==> fk_relations_sql(schemas, tables) == FK_SQL_HEAD@
            + FK_SQL_TAIL@,
{
    let conds = where_conditions(schemas, tables, FK_TABLE_COLUMN@, FK_SCHEMA_COLUMN@);
    assert(conds =~= schemas.map_values(
        |s: String| schema_condition(FK_SCHEMA_COLUMN@, s@),
    ));
    if schemas.len() == 0 {
        assert(FK_SQL_HEAD@ + Seq::<char>::empty() =~= FK_SQL_HEAD@);
    }
}

} // verus!
