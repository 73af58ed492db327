use hasura_track::commands::{relationships, tables};
use hasura_track::hasura::client::{
    track_table_request, ClientError, FKInfo, MetadataRequest, TableInfo,
};
use hasura_track::hasura::tracker::{ItemFailure, RelationshipRun, TableRun};

fn table(name: &str) -> TableInfo {
    TableInfo {
        table_name: name.to_string(),
        table_schema: "public".to_string(),
        columns: vec!["id".to_string()],
        column_types: vec!["int4".to_string()],
    }
}

fn fk(table: &str, constraint: &str, mapping: Vec<(&str, &str)>) -> FKInfo {
    FKInfo {
        column_mapping: mapping
            .into_iter()
            .map(|(a, b)| (a.to_string(), b.to_string()))
            .collect(),
        constraint_name: constraint.to_string(),
        on_delete: "a".to_string(),
        on_update: "a".to_string(),
        ref_table: "users".to_string(),
        ref_table_table_schema: "public".to_string(),
        table_name: table.to_string(),
        table_schema: "public".to_string(),
    }
}

fn server_error() -> ClientError {
    ClientError::Api { status: 500, body: "internal error".to_string() }
}

#[test]
fn failed_table_does_not_stop_the_run() {
    let cmd = tables::Cmd { database_name: "default".to_string() };
    let mut run = cmd.start(vec![table("t1"), table("t2"), table("t3")]);
    assert_eq!(run.total(), 3);
    let mut attempted = vec![];
    let outcomes = vec![Ok(()), Err(server_error()), Ok(())];
    for outcome in outcomes {
        let req = run.next_request().expect("a table is left");
        attempted.push(req);
        run.record(outcome);
    }
    assert!(run.next_request().is_none());
    assert_eq!(run.position(), 3);
    assert_eq!(
        attempted,
        vec![
            track_table_request("default".to_string(), "t1".to_string(), "public".to_string()),
            track_table_request("default".to_string(), "t2".to_string(), "public".to_string()),
            track_table_request("default".to_string(), "t3".to_string(), "public".to_string()),
        ]
    );
    let report = run.into_report();
    assert_eq!(report.successes, 2);
    assert!(!report.all_succeeded());
    assert_eq!(
        report.failures,
        vec![ItemFailure {
            schema: "public".to_string(),
            table: "t2".to_string(),
            cause: server_error(),
        }]
    );
}

#[test]
fn all_tables_tracked() {
    let mut run = TableRun::new("db".to_string(), vec![table("a"), table("b")]);
    while run.next_request().is_some() {
        run.record(Ok(()));
    }
    let report = run.into_report();
    assert_eq!(report.successes, 2);
    assert!(report.all_succeeded());
}

#[test]
fn empty_table_run_is_done_at_once() {
    let mut run = TableRun::new("db".to_string(), vec![]);
    assert!(run.next_request().is_none());
    run.record(Err(server_error()));
    let report = run.into_report();
    assert_eq!(report.successes, 0);
    assert!(report.failures.is_empty());
}

#[test]
fn fk_without_mapping_is_recorded_and_skipped() {
    let cmd = relationships::Cmd { database_name: "default".to_string() };
    let mut run = cmd.start(vec![
        fk("posts", "posts_user_id_fkey", vec![]),
        fk("comments", "comments_user_id_fkey", vec![("user_id", "id")]),
    ]);
    assert_eq!(run.total(), 2);
    let req = run.next_request().expect("the second key has a mapping");
    match &req {
        MetadataRequest::Bulk(v) => assert_eq!(v.len(), 2),
        other => panic!("unexpected {:?}", other),
    }
    run.record(Ok(()));
    assert!(run.next_request().is_none());
    let report = run.into_report();
    assert_eq!(report.successes, 1);
    assert_eq!(
        report.failures,
        vec![ItemFailure {
            schema: "public".to_string(),
            table: "posts".to_string(),
            cause: ClientError::MissingColumnMapping {
                constraint_name: "posts_user_id_fkey".to_string()
            },
        }]
    );
}

#[test]
fn one_fk_makes_one_bulk_request() {
    let mut run = RelationshipRun::new(
        "default".to_string(),
        vec![fk("posts", "posts_user_id_fkey", vec![("user_id", "id")])],
    );
    let mut requests = vec![];
    while let Some(req) = run.next_request() {
        requests.push(req);
        run.record(Ok(()));
    }
    assert_eq!(requests.len(), 1);
    assert_eq!(requests[0].type_tag(), "bulk");
    assert!(run.into_report().all_succeeded());
}

#[test]
fn failed_relationship_is_recorded_and_run_goes_on() {
    let mut run = RelationshipRun::new(
        "db".to_string(),
        vec![
            fk("a", "a_fkey", vec![("u", "id")]),
            fk("b", "b_fkey", vec![("u", "id")]),
        ],
    );
    assert!(run.next_request().is_some());
    run.record(Err(ClientError::Transport("connection refused".to_string())));
    assert!(run.next_request().is_some());
    run.record(Ok(()));
    assert!(run.next_request().is_none());
    let report = run.into_report();
    assert_eq!(report.successes, 1);
    assert_eq!(report.failures.len(), 1);
    assert_eq!(report.failures[0].table, "a");
}
