use hasura_track::cli::{Cli, Commands};
use hasura_track::commands::{relationships, tables};
use hasura_track::hasura::client::{
    check_status, relationship_request, select_payload, track_table_request, Client,
    ClientError, FKInfo, MetadataCommand, MetadataRequest, QualifiedTable, TableInfo,
};
use hasura_track::hasura::sql::{get_fk_relations, TABLES_SQL};

fn fk(mapping: Vec<(&str, &str)>) -> FKInfo {
    FKInfo {
        column_mapping: mapping
            .into_iter()
            .map(|(a, b)| (a.to_string(), b.to_string()))
            .collect(),
        constraint_name: "posts_user_id_fkey".to_string(),
        on_delete: "a".to_string(),
        on_update: "a".to_string(),
        ref_table: "users".to_string(),
        ref_table_table_schema: "public".to_string(),
        table_name: "posts".to_string(),
        table_schema: "public".to_string(),
    }
}

fn qt(name: &str, schema: &str) -> QualifiedTable {
    QualifiedTable { name: name.to_string(), schema: schema.to_string() }
}

#[test]
fn api_error_carries_status_and_body() {
    let r = check_status(503, "Service Unavailable".to_string());
    assert_eq!(
        r,
        Err(ClientError::Api { status: 503, body: "Service Unavailable".to_string() })
    );
}

#[test]
fn status_200_passes_body_on() {
    assert_eq!(check_status(200, "{}".to_string()), Ok("{}".to_string()));
    assert!(matches!(check_status(500, String::new()), Err(ClientError::Api { status: 500, .. })));
}

#[test]
fn client_refuses_relative_endpoint() {
    assert!(matches!(Client::new("not a url".to_string(), None), Err(ClientError::Config)));
    assert!(matches!(Client::new("/v1".to_string(), None), Err(ClientError::Config)));
}

#[test]
fn client_resolves_endpoints() {
    let c = Client::new("http://localhost:8080/".to_string(), Some("admin-key".to_string()))
        .unwrap();
    assert_eq!(c.query_url().unwrap(), "http://localhost:8080/v2/query");
    let nested = Client::new("http://h:9/api/".to_string(), None).unwrap();
    assert_eq!(nested.metadata_url().unwrap(), "http://h:9/api/v1/metadata");
    assert_eq!(c.metadata_url().unwrap(), "http://localhost:8080/v1/metadata");
    assert_eq!(c.admin_secret_header(), "admin-key");
}

#[test]
fn missing_secret_sends_empty_header() {
    let c = Client::new("https://example.net".to_string(), None).unwrap();
    assert_eq!(c.admin_secret_header(), "");
}

#[test]
fn cli_builds_client() {
    let cli = Cli {
        endpoint: "http://h:1".to_string(),
        admin_secret: None,
        command: Commands::Tables(tables::Cmd { database_name: "default".to_string() }),
    };
    assert!(cli.client().is_ok());
    let bad = Cli { endpoint: "h".to_string(), ..cli };
    assert!(matches!(bad.client(), Err(ClientError::Config)));
}

#[test]
fn table_record_needs_parallel_columns() {
    let ok = TableInfo::new(
        "t".to_string(),
        "public".to_string(),
        vec!["id".to_string()],
        vec!["int4".to_string()],
    );
    assert!(ok.is_ok());
    let bad = TableInfo::new("t".to_string(), "public".to_string(), vec!["id".to_string()], vec![]);
    assert!(matches!(bad, Err(ClientError::Decode(_))));
}

#[test]
fn fk_record_refuses_repeated_column() {
    let f = fk(vec![("a", "x"), ("a", "y")]);
    let r = FKInfo::new(
        f.column_mapping,
        f.constraint_name,
        f.on_delete,
        f.on_update,
        f.ref_table,
        f.ref_table_table_schema,
        f.table_name,
        f.table_schema,
    );
    assert!(matches!(r, Err(ClientError::Decode(_))));
    let g = fk(vec![("a", "x"), ("b", "y")]);
    let expected = g.clone();
    let r = FKInfo::new(
        g.column_mapping,
        g.constraint_name,
        g.on_delete,
        g.on_update,
        g.ref_table,
        g.ref_table_table_schema,
        g.table_name,
        g.table_schema,
    );
    assert_eq!(r, Ok(expected));
}

#[test]
fn track_request_is_pg_track_table() {
    let r = track_table_request("default".to_string(), "users".to_string(), "public".to_string());
    assert_eq!(r.type_tag(), "pg_track_table");
    assert_eq!(
        r,
        MetadataRequest::Single(MetadataCommand::TrackTable {
            source: "default".to_string(),
            table: qt("users", "public"),
        })
    );
}

#[test]
fn one_fk_gives_one_bulk_with_two_commands() {
    let r = relationship_request(&"default".to_string(), &fk(vec![("user_id", "id")])).unwrap();
    assert_eq!(r.type_tag(), "bulk");
    let cmds = match r {
        MetadataRequest::Bulk(v) => v,
        other => panic!("not a bulk request: {:?}", other),
    };
    assert_eq!(cmds.len(), 2);
    assert_eq!(cmds[0].type_tag(), "pg_create_object_relationship");
    assert_eq!(cmds[1].type_tag(), "pg_create_array_relationship");
    assert_eq!(
        cmds[0],
        MetadataCommand::CreateObjectRelationship {
            source: "default".to_string(),
            table: qt("posts", "public"),
            name: "posts".to_string(),
            foreign_key_constraint_on: "user_id".to_string(),
        }
    );
    assert_eq!(
        cmds[1],
        MetadataCommand::CreateArrayRelationship {
            source: "default".to_string(),
            table: qt("users", "public"),
            name: "posts".to_string(),
            remote_table: qt("posts", "public"),
            column: "user_id".to_string(),
        }
    );
}

#[test]
fn composite_fk_uses_first_column_only() {
    let r = relationship_request(&"db".to_string(), &fk(vec![("a_id", "a"), ("b_id", "b")]));
    match r {
        Ok(MetadataRequest::Bulk(v)) => match &v[0] {
            MetadataCommand::CreateObjectRelationship { foreign_key_constraint_on, .. } => {
                assert_eq!(foreign_key_constraint_on, "a_id")
            }
            other => panic!("unexpected {:?}", other),
        },
        other => panic!("unexpected {:?}", other),
    }
}

#[test]
fn fk_without_mapping_is_refused() {
    let r = relationship_request(&"db".to_string(), &fk(vec![]));
    assert_eq!(
        r,
        Err(ClientError::MissingColumnMapping { constraint_name: "posts_user_id_fkey".to_string() })
    );
}

#[test]
fn payload_needs_tuples_ok() {
    let r = select_payload("CommandOk".to_string(), Some(vec!["[]".to_string()]));
    assert_eq!(r, Err(ClientError::Query { result_type: "CommandOk".to_string() }));
    assert_eq!(
        select_payload("TuplesOk".to_string(), Some(vec!["[1]".to_string()])),
        Ok("[1]".to_string())
    );
}

#[test]
fn payload_needs_exactly_one_string() {
    assert!(matches!(select_payload("TuplesOk".to_string(), None), Err(ClientError::Decode(_))));
    assert!(matches!(
        select_payload("TuplesOk".to_string(), Some(vec![])),
        Err(ClientError::Decode(_))
    ));
    assert!(matches!(
        select_payload("TuplesOk".to_string(), Some(vec!["a".to_string(), "b".to_string()])),
        Err(ClientError::Decode(_))
    ));
}

#[test]
fn commands_build_discovery_requests() {
    let t = tables::Cmd { database_name: "default".to_string() };
    let r = t.discovery_request();
    assert_eq!(r.type_tag(), "run_sql");
    assert_eq!(r.sql, TABLES_SQL);
    assert_eq!(r.source, "default");
    let rel = relationships::Cmd { database_name: "default".to_string() };
    let infos = vec![TableInfo {
        table_name: "users".to_string(),
        table_schema: "public".to_string(),
        columns: vec![],
        column_types: vec![],
    }];
    let r = rel.discovery_request(infos.clone());
    assert_eq!(r.sql, get_fk_relations(vec!["public".to_string()], infos));
    assert_eq!(r.source, "default");
}

#[test]
fn schemas_are_listed_per_table() {
    let t = |s: &str| TableInfo {
        table_name: "x".to_string(),
        table_schema: s.to_string(),
        columns: vec![],
        column_types: vec![],
    };
    let r = relationships::schemas_of(&vec![t("a"), t("b"), t("a")]);
    assert_eq!(r, vec!["a".to_string(), "b".to_string(), "a".to_string()]);
}
