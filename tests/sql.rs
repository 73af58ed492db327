use hasura_track::hasura::client::TableInfo;
use hasura_track::hasura::sql::{
    generate_where_clause, get_fk_relations, get_tables_names, FK_SQL_HEAD, FK_SQL_TAIL,
};

fn table(schema: &str, name: &str) -> TableInfo {
    TableInfo {
        table_name: name.to_string(),
        table_schema: schema.to_string(),
        columns: vec![],
        column_types: vec![],
    }
}

#[test]
fn fk_filter_joins_schemas_with_or_under_and() {
    let sql = get_fk_relations(vec!["public".to_string(), "app".to_string()], vec![]);
    let expected = format!(
        "{}AND (ctn.nspname = 'public' or ctn.nspname = 'app'){}",
        FK_SQL_HEAD, FK_SQL_TAIL
    );
    assert_eq!(sql, expected);
}

#[test]
fn fk_query_has_no_filter_without_schemas_or_tables() {
    let sql = get_fk_relations(vec![], vec![]);
    assert_eq!(sql, format!("{}{}", FK_SQL_HEAD, FK_SQL_TAIL));
    assert!(!sql.contains("ctn.nspname = '"));
}

#[test]
fn fk_filter_with_one_schema() {
    let clause = generate_where_clause(vec!["public".to_string()], vec![], "t", "s", "AND");
    assert_eq!(clause, "AND (s = 'public')");
}

#[test]
fn fk_filter_names_tables_by_schema_and_name() {
    let clause = generate_where_clause(
        vec!["public".to_string()],
        vec![table("public", "users"), table("app", "orders")],
        "ct.relname",
        "ctn.nspname",
        "AND",
    );
    assert_eq!(
        clause,
        "AND (ctn.nspname = 'public' or ctn.nspname = 'public' and ct.relname = 'users' \
         or ctn.nspname = 'app' and ct.relname = 'orders')"
    );
}

#[test]
fn fk_filter_with_tables_only() {
    let clause = generate_where_clause(vec![], vec![table("s1", "t1")], "tn", "sn", "WHERE");
    assert_eq!(clause, "WHERE (sn = 's1' and tn = 't1')");
}

#[test]
fn where_clause_is_empty_without_conditions() {
    assert_eq!(generate_where_clause(vec![], vec![], "t", "s", "AND"), "");
}

#[test]
fn table_query_excludes_system_schemas_only_negatively() {
    let sql = get_tables_names();
    let excluded = [
        "information_schema",
        "pg_catalog",
        "hdb_catalog",
        "_timescaledb_internal",
        "crdb_internal",
    ];
    let list = "table_schema NOT in('information_schema', 'pg_catalog', 'hdb_catalog', \
                '_timescaledb_internal', 'crdb_internal')";
    assert!(sql.contains(list));
    for name in excluded {
        let quoted = format!("'{}'", name);
        assert_eq!(sql.matches(&quoted).count(), 1, "{}", name);
    }
    assert!(sql.contains("AND table_schema NOT LIKE 'pg_toast%'"));
    assert!(sql.contains("AND table_schema NOT LIKE 'pg_temp_%'"));
    assert_eq!(sql.matches("LIKE").count(), 2);
    assert_eq!(sql.matches("NOT LIKE").count(), 2);
    assert!(!sql.contains("table_schema IN"));
    assert!(!sql.contains("table_schema ="));
}

#[test]
fn table_query_groups_by_table_and_schema() {
    let sql = get_tables_names();
    assert!(sql.contains("information_schema.columns"));
    assert!(sql.contains("GROUP BY"));
    assert!(sql.contains("ARRAY_AGG(\"column_name\"::text) as columns"));
    assert!(sql.contains("ARRAY_AGG(\"data_type\"::text) as column_types"));
}
