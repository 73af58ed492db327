use vstd::prelude::*;

use super::sql::{fk_relations_sql, get_fk_relations, get_tables_names, TABLES_SQL};

verus! {

#[verifier::external_type_specification]
#[verifier::external_body]
pub struct ExUrl(url::Url);

#[verifier::external_type_specification]
#[verifier::external_body]
pub struct ExParseError(url::ParseError);

/// Whether a string parses as an absolute URL.
pub uninterp spec fn is_absolute_url(s: Seq<char>) -> bool;

/// Relies on url::Url::parse: it succeeds exactly on the strings that hold an
/// absolute URL, which depends on the string alone.
pub assume_specification[ url::Url::parse ](input: &str) -> (r: Result<url::Url, url::ParseError>)
    ensures
        r is Ok <==> is_absolute_url(input@),
;

/// The text of `path` resolved against the URL `base`, where both parse.
pub uninterp spec fn url_join(base: Seq<char>, path: Seq<char>) -> Option<Seq<char>>;

/// Relies on url::Url::parse, url::Url::join and url::Url::as_str: `path`
/// resolved against `base`, as text; the result depends on the two strings alone.
#[verifier::external_body]
fn join_url(base: &str, path: &str) -> (r: Option<String>)
    ensures
        r is Some <==> url_join(base@, path@) is Some,
        r is Some ==> r->Some_0@ == url_join(base@, path@)->Some_0,
{
    url::Url::parse(base).and_then(|u| u.join(path)).ok().map(|u| u.as_str().to_string())
}

/// What can go wrong while talking to the administrative API.
#[derive(Debug, Clone, PartialEq, Eq)]
pub enum ClientError {
    /// The endpoint is not an absolute URL.
    Config,
    /// The request did not reach the server, or its answer did not arrive.
    Transport(String),
    /// The server answered with a status other than 200.
    Api { status: u16, body: String },
    /// The answer is not the JSON that was expected.
    Decode(String),
    /// The SQL ran but the server reported a result type other than `TuplesOk`.
    Query { result_type: String },
    /// A foreign key came without any column mapping.
    MissingColumnMapping { constraint_name: String },
}

/// One table found in the catalog: its name, its schema, and its columns with
/// their types, as two parallel sequences.
#[derive(Debug, Clone, PartialEq, Eq)]
pub struct TableInfo {
    pub table_name: String,
    pub table_schema: String,
    pub columns: Vec<String>,
    pub column_types: Vec<String>,
}

impl TableInfo {
    /// Column `i` has the type at index `i`.
    pub open spec fn wf(&self) -> bool {
        self.columns@.len() == self.column_types@.len()
    }

    /// A table record, refused when its columns and their types do not pair up.
    pub fn new(
        table_name: String,
        table_schema: String,
        columns: Vec<String>,
        column_types: Vec<String>,
    ) -> (r: Result<TableInfo, ClientError>)
        ensures
            r is Ok <==> columns@.len() == column_types@.len(),
            r is Ok ==> r == Ok::<TableInfo, ClientError>(
                TableInfo { table_name, table_schema, columns, column_types },
            ),
            r is Ok ==> r->Ok_0.wf(),
            r is Err ==> r->Err_0 is Decode,
    {
        if columns.len() != column_types.len() {
            return Err(ClientError::Decode(String::from_str("columns and column types differ in length")));
        }
        Ok(TableInfo { table_name, table_schema, columns, column_types })
    }
}

/// One foreign-key constraint found in the catalog. `column_mapping` pairs each
/// local column with the column it refers to, local columns unique.
#[derive(Debug, Clone, PartialEq, Eq)]
pub struct FKInfo {
    pub column_mapping: Vec<(String, String)>,
    pub constraint_name: String,
    pub on_delete: String,
    pub on_update: String,
    pub ref_table: String,
    pub ref_table_table_schema: String,
    pub table_name: String,
    pub table_schema: String,
}

/// No local column appears twice in the mapping.
pub open spec fn keys_unique(mapping: Seq<(String, String)>) -> bool {
    forall|i: int, j: int|
        0 <= i < j < mapping.len() ==> #[trigger] mapping[i].0@ != #[trigger] mapping[j].0@
}

impl FKInfo {
    pub open spec fn wf(&self) -> bool {
        keys_unique(self.column_mapping@)
    }

    /// A foreign-key record, refused when a local column is mapped twice.
    pub fn new(
        column_mapping: Vec<(String, String)>,
        constraint_name: String,
        on_delete: String,
        on_update: String,
        ref_table: String,
        ref_table_table_schema: String,
        table_name: String,
        table_schema: String,
    ) -> (r: Result<FKInfo, ClientError>)
        ensures
            r is Ok <==> keys_unique(column_mapping@),
            r is Ok ==> r == Ok::<FKInfo, ClientError>(
                FKInfo {
                    column_mapping,
                    constraint_name,
                    on_delete,
                    on_update,
                    ref_table,
                    ref_table_table_schema,
                    table_name,
                    table_schema,
                },
            ),
            r is Err ==> r->Err_0 is Decode,
    {
        let n = column_mapping.len();
        let mut j: usize = 0;
        while j < n
            invariant
                n == column_mapping@.len(),
                j <= n,
                forall|a: int, b: int|
                    0 <= a < b < j ==> #[trigger] column_mapping@[a].0@
                        != #[trigger] column_mapping@[b].0@,
            decreases n - j,
        {
            let mut i: usize = 0;
            while i < j
                invariant
                    n == column_mapping@.len(),
                    i <= j < n,
                    forall|a: int| 0 <= a < i ==> #[trigger] column_mapping@[a].0@
                        != column_mapping@[j as int].0@,
                decreases j - i,
            {
                if column_mapping[i].0 == column_mapping[j].0 {
                    return Err(ClientError::Decode(String::from_str("a column is mapped twice")));
                }
                i = i + 1;
            }
            j = j + 1;
        }
        Ok(FKInfo {
            column_mapping,
            constraint_name,
            on_delete,
            on_update,
            ref_table,
            ref_table_table_schema,
            table_name,
            table_schema,
        })
    }
}

/// The administrative API: a base URL and an optional admin secret.
pub struct Client {
    endpoint: String,
    admin_secret: Option<String>,
}

/// A table named by schema and name.
#[derive(Debug, Clone, PartialEq, Eq)]
pub struct QualifiedTable {
    pub name: String,
    pub schema: String,
}

/// A `run_sql` command: the SQL text and the database it runs on.
#[derive(Debug, Clone, PartialEq, Eq)]
pub struct RunSql {
    pub sql: String,
    pub source: String,
}

impl RunSql {
    /// The command's `type` tag on the wire.
    pub fn type_tag(&self) -> (r: &'static str)
        ensures
            r@ == "run_sql"@,
    {
        "run_sql"
    }
}

/// One command of the metadata API.
#[derive(Debug, Clone, PartialEq, Eq)]
pub enum MetadataCommand {
    /// `pg_track_table`
    TrackTable { source: String, table: QualifiedTable },
    /// `pg_create_object_relationship`, on `table`, through a local column.
    CreateObjectRelationship {
        source: String,
        table: QualifiedTable,
        name: String,
        foreign_key_constraint_on: String,
    },
    /// `pg_create_array_relationship`, on `table`, through a column of
    /// `remote_table` that refers to it.
    CreateArrayRelationship {
        source: String,
        table: QualifiedTable,
        name: String,
        remote_table: QualifiedTable,
        column: String,
    },
}

/// A body for the metadata endpoint: one command, or several under `bulk`.
#[derive(Debug, Clone, PartialEq, Eq)]
pub enum MetadataRequest {
    Single(MetadataCommand),
    Bulk(Vec<MetadataCommand>),
}

/// A command's `type` tag on the wire.
pub open spec fn command_tag(c: MetadataCommand) -> Seq<char> {
    match c {
        MetadataCommand::TrackTable { .. } => "pg_track_table"@,
        MetadataCommand::CreateObjectRelationship { .. } => "pg_create_object_relationship"@,
        MetadataCommand::CreateArrayRelationship { .. } => "pg_create_array_relationship"@,
    }
}

impl MetadataCommand {
    /// The command's `type` tag on the wire.
    pub fn type_tag(&self) -> (r: &'static str)
        ensures
            r@ == command_tag(*self),
    {
        match self {
            MetadataCommand::TrackTable { .. } => "pg_track_table",
            MetadataCommand::CreateObjectRelationship { .. } => "pg_create_object_relationship",
            MetadataCommand::CreateArrayRelationship { .. } => "pg_create_array_relationship",
        }
    }
}

impl MetadataRequest {
    /// The request's `type` tag on the wire, `bulk` for several commands.
    pub fn type_tag(&self) -> (r: &'static str)
        ensures
            self is Bulk ==> r@ == "bulk"@,
            self is Single ==> r@ == command_tag(self->Single_0),
    {
        match self {
            MetadataRequest::Single(c) => c.type_tag(),
            MetadataRequest::Bulk(_) => "bulk",
        }
    }
}

/// The header value that carries the secret: the secret, or nothing.
pub open spec fn secret_header(secret: Option<String>) -> Seq<char> {
    match secret {
        Some(s) => s@,
        None => seq![],
    }
}

impl Client {
    pub closed spec fn secret(&self) -> Option<String> {
        self.admin_secret
    }

    /// The base URL, as given.
    pub closed spec fn endpoint_spec(&self) -> Seq<char> {
        self.endpoint@
    }

    /// A client for the API at `endpoint`, refused unless it is an absolute URL.
    pub fn new(endpoint: String, admin_secret: Option<String>) -> (r: Result<Client, ClientError>)
        ensures
            r is Ok <==> is_absolute_url(endpoint@),
            r is Ok ==> r->Ok_0.secret() == admin_secret,
            r is Ok ==> r->Ok_0.endpoint_spec() == endpoint@,
            r is Err ==> r->Err_0 is Config,
    {
        match url::Url::parse(endpoint.as_str()) {
            Ok(_) => Ok(Client { endpoint, admin_secret }),
            Err(_) => Err(ClientError::Config),
        }
    }

    /// The value of the `x-hasura-admin-secret` header.
    pub fn admin_secret_header(&self) -> (r: String)
        ensures
            r@ == secret_header(self.secret()),
    {
        match &self.admin_secret {
            Some(s) => s.clone(),
            None => String::new(),
        }
    }

    fn endpoint_url(&self, path: &str) -> (r: Result<String, ClientError>)
        ensures
            r is Ok <==> url_join(self.endpoint_spec(), path@) is Some,
            r is Ok ==> r->Ok_0@ == url_join(self.endpoint_spec(), path@)->Some_0,
            r is Err ==> r->Err_0 is Config,
    {
        match join_url(self.endpoint.as_str(), path) {
            Some(u) => Ok(u),
            None => Err(ClientError::Config),
        }
    }

    /// The URL of the raw SQL endpoint, `v2/query` under the base URL.
    pub fn query_url(&self) -> (r: Result<String, ClientError>)
        ensures
            r is Ok <==> url_join(self.endpoint_spec(), "v2/query"@) is Some,
            r is Ok ==> r->Ok_0@ == url_join(self.endpoint_spec(), "v2/query"@)->Some_0,
            r is Err ==> r->Err_0 is Config,
    {
        self.endpoint_url("v2/query")
    }

    /// The URL of the metadata endpoint, `v1/metadata` under the base URL.
    pub fn metadata_url(&self) -> (r: Result<String, ClientError>)
        ensures
            r is Ok <==> url_join(self.endpoint_spec(), "v1/metadata"@) is Some,
            r is Ok ==> r->Ok_0@ == url_join(self.endpoint_spec(), "v1/metadata"@)->Some_0,
            r is Err ==> r->Err_0 is Config,
    {
        self.endpoint_url("v1/metadata")
    }
}

/// The command that lists the tables of `database_name`.
pub fn table_discovery_request(database_name: &String) -> (r: RunSql)
    ensures
        r.sql@ == TABLES_SQL@,
        r.source == *database_name,
{
    RunSql { sql: get_tables_names(), source: database_name.clone() }
}

/// The command that lists the foreign keys of `database_name`, restricted to
/// the given schemas and tables.
pub fn fk_discovery_request(
    database_name: &String,
    schemas: Vec<String>,
    tables: Vec<TableInfo>,
) -> (r: RunSql)
    ensures
        r.sql@ == fk_relations_sql(schemas@, tables@),
        r.source == *database_name,
{
    RunSql { sql: get_fk_relations(schemas, tables), source: database_name.clone() }
}

/// The `pg_track_table` command for one table.
pub open spec fn track_table_spec(source: String, name: String, schema: String) -> MetadataRequest {
    MetadataRequest::Single(MetadataCommand::TrackTable { source, table: QualifiedTable { name, schema } })
}

/// The request that tracks `schema.table_name` in `source_name`.
pub fn track_table_request(source_name: String, table_name: String, schema: String) -> (r: MetadataRequest)
    ensures
        r == track_table_spec(source_name, table_name, schema),
{
    MetadataRequest::Single(
        MetadataCommand::TrackTable {
            source: source_name,
            table: QualifiedTable { name: table_name, schema },
        },
    )
}

/// The two commands that register a foreign key: an object relationship on the
/// table that owns it, and an array relationship on the table it refers to, both
/// named after the owning table and both through the first mapped local column.
pub open spec fn relationship_commands(source: String, fk: FKInfo) -> Seq<MetadataCommand> {
    let column = fk.column_mapping@[0].0;
    seq![
        MetadataCommand::CreateObjectRelationship {
            source,
            table: QualifiedTable { name: fk.table_name, schema: fk.table_schema },
            name: fk.table_name,
            foreign_key_constraint_on: column,
        },
        MetadataCommand::CreateArrayRelationship {
            source,
            table: QualifiedTable { name: fk.ref_table, schema: fk.ref_table_table_schema },
            name: fk.table_name,
            remote_table: QualifiedTable { name: fk.table_name, schema: fk.table_schema },
            column,
        },
    ]
}

/// The failure that a foreign key without a column mapping gives.
pub open spec fn missing_mapping(fk: FKInfo) -> ClientError {
    ClientError::MissingColumnMapping { constraint_name: fk.constraint_name }
}

/// The bulk request that registers both directions of `fk`; refused when `fk`
/// maps no column. Only the first mapped column is used: for a decoded key,
/// the local column whose name sorts first.
pub fn relationship_request(source: &String, fk: &FKInfo) -> (r: Result<MetadataRequest, ClientError>)
    ensures
        fk.column_mapping@.len() == 0 ==> r == Err::<MetadataRequest, ClientError>(
            missing_mapping(*fk),
        ),
        fk.column_mapping@.len() > 0 ==> (r matches Ok(MetadataRequest::Bulk(v)) && v@
            == relationship_commands(*source, *fk)),
{
    if fk.column_mapping.len() == 0 {
        return Err(ClientError::MissingColumnMapping { constraint_name: fk.constraint_name.clone() });
    }
    let column = &fk.column_mapping[0].0;
    let object = MetadataCommand::CreateObjectRelationship {
        source: source.clone(),
        table: QualifiedTable { name: fk.table_name.clone(), schema: fk.table_schema.clone() },
        name: fk.table_name.clone(),
        foreign_key_constraint_on: column.clone(),
    };
    let array = MetadataCommand::CreateArrayRelationship {
        source: source.clone(),
        table: QualifiedTable { name: fk.ref_table.clone(), schema: fk.ref_table_table_schema.clone() },
        name: fk.table_name.clone(),
        remote_table: QualifiedTable { name: fk.table_name.clone(), schema: fk.table_schema.clone() },
        column: column.clone(),
    };
    let v = vec![object, array];
    assert(v@ =~= relationship_commands(*source, *fk));
    Ok(MetadataRequest::Bulk(v))
}

/// Passes the body of a 200 answer on; any other status is an API error that
/// carries the status and the body.
pub fn check_status(status: u16, body: String) -> (r: Result<String, ClientError>)
    ensures
        status == 200 ==> r == Ok::<String, ClientError>(body),
        status != 200 ==> r == Err::<String, ClientError>(ClientError::Api { status, body }),
{
    if status == 200 {
        Ok(body)
    } else {
        Err(ClientError::Api { status, body })
    }
}

/// The decision on a discovery answer's result type and second row: a result
/// type other than `TuplesOk` is a query error; a row that is missing, or does
/// not hold exactly one string, is a decode error; else that string.
pub open spec fn payload_outcome(
    result_type: String,
    rows: Option<Seq<String>>,
    r: Result<String, ClientError>,
) -> bool {
    if result_type@ != "TuplesOk"@ {
        r == Err::<String, ClientError>(ClientError::Query { result_type })
    } else {
        match rows {
            Some(v) => if v.len() == 1 {
                r == Ok::<String, ClientError>(v[0])
            } else {
                r is Err && r->Err_0 is Decode
            },
            None => r is Err && r->Err_0 is Decode,
        }
    }
}

/// The one JSON string that a discovery answer carries in its second row.
/// `rows` is that row as strings, or nothing where it is missing or not strings.
pub fn select_payload(result_type: String, rows: Option<Vec<String>>) -> (r: Result<String, ClientError>)
    ensures
        payload_outcome(
            result_type,
            match rows {
                Some(v) => Some(v@),
                None => None,
            },
            r,
        ),
{
    if result_type != String::from_str("TuplesOk") {
        return Err(ClientError::Query { result_type });
    }
    match rows {
        Some(mut v) => {
            if v.len() == 1 {
                Ok(v.remove(0))
            } else {
                Err(ClientError::Decode(String::from_str("expected exactly one encoded result")))
            }
        },
        None => Err(ClientError::Decode(String::from_str("expected a row of encoded results"))),
    }
}

} // verus!
