use vstd::prelude::*;

use super::client::{keys_unique, payload_outcome, select_payload, ClientError, FKInfo, TableInfo};

verus! {

#[verifier::external_type_specification]
#[verifier::external_body]
pub struct ExValue(serde_json::Value);

/// A JSON value. An object keeps its members as serde_json hands them out:
/// names unique, sorted by name.
#[derive(Debug)]
pub enum Json {
    Null,
    Bool(bool),
    Number(String),
    Str(String),
    Array(Vec<Json>),
    Object(Vec<(String, Json)>),
}

/// What serde_json reads a string as, where it reads it as one JSON value.
pub uninterp spec fn json_of(s: Seq<char>) -> Option<Json>;

/// Relies on serde_json::from_str, read into a `serde_json::Value`: the value
/// read depends on the string alone.
#[verifier::external_body]
fn parse_json(s: &str) -> (r: Option<Json>)
    ensures
        r == json_of(s@),
{
    serde_json::from_str::<serde_json::Value>(s).ok().map(|v| value_to_json(&v))
}

/// Relies on serde_json::Value's variants: turns its value into the library's,
/// one arm per variant, numbers as their text.
#[verifier::external_body]
fn value_to_json(v: &serde_json::Value) -> Json {
    match v {
        serde_json::Value::Null => Json::Null,
        serde_json::Value::Bool(b) => Json::Bool(*b),
        serde_json::Value::Number(n) => Json::Number(n.to_string()),
        serde_json::Value::String(s) => Json::Str(s.clone()),
        serde_json::Value::Array(a) => Json::Array(a.iter().map(value_to_json).collect()),
        serde_json::Value::Object(m) => {
            Json::Object(m.iter().map(|(k, x)| (k.clone(), value_to_json(x))).collect())
        },
    }
}

/// The value of the first member named `key`.
pub open spec fn get_member(members: Seq<(String, Json)>, key: Seq<char>) -> Option<Json>
    decreases members.len(),
{
    if members.len() == 0 {
        None
    } else if members[0].0@ == key {
        Some(members[0].1)
    } else {
        get_member(members.drop_first(), key)
    }
}

/// Every element is a string.
pub open spec fn all_str(items: Seq<Json>) -> bool {
    forall|i: int| 0 <= i < items.len() ==> #[trigger] items[i] is Str
}

/// The strings of an array of strings.
pub open spec fn str_values(items: Seq<Json>) -> Seq<String> {
    items.map_values(|j: Json| j->Str_0)
}

/// The member `key`, where it is a string.
pub open spec fn member_str(members: Seq<(String, Json)>, key: Seq<char>) -> Option<String> {
    match get_member(members, key) {
        Some(Json::Str(s)) => Some(s),
        _ => None,
    }
}

/// The member `key`, where it is an array of strings.
pub open spec fn member_strs(members: Seq<(String, Json)>, key: Seq<char>) -> Option<Seq<String>> {
    match get_member(members, key) {
        Some(Json::Array(xs)) => if all_str(xs@) {
            Some(str_values(xs@))
        } else {
            None
        },
        _ => None,
    }
}

/// Every member's value is a string.
pub open spec fn all_str_members(members: Seq<(String, Json)>) -> bool {
    forall|i: int| 0 <= i < members.len() ==> #[trigger] members[i].1 is Str
}

/// The members of an object of strings, as (name, value) pairs.
pub open spec fn text_pairs(members: Seq<(String, Json)>) -> Seq<(String, String)> {
    members.map_values(|p: (String, Json)| (p.0, p.1->Str_0))
}

/// The member `key`, where it is an object of strings, as (name, value) pairs.
pub open spec fn member_pairs(members: Seq<(String, Json)>, key: Seq<char>) -> Option<
    Seq<(String, String)>,
> {
    match get_member(members, key) {
        Some(Json::Object(ms)) => if all_str_members(ms@) {
            Some(text_pairs(ms@))
        } else {
            None
        },
        _ => None,
    }
}

/// The second row of a raw SQL result, where it is an array of strings.
pub open spec fn result_rows(items: Seq<Json>) -> Option<Seq<String>> {
    if items.len() > 1 && items[1] is Array && all_str(items[1]->Array_0@) {
        Some(str_values(items[1]->Array_0@))
    } else {
        None
    }
}

/// What a raw SQL answer decodes to: it must be an object with a string
/// `result_type` and an array `result` (else a decode error); then
/// `payload_outcome` decides on the result type and the second row.
pub open spec fn run_sql_outcome(j: Json, r: Result<String, ClientError>) -> bool {
    match j {
        Json::Object(m) => match (member_str(m@, "result_type"@), get_member(m@, "result"@)) {
            (Some(rt), Some(Json::Array(items))) => payload_outcome(rt, result_rows(items@), r),
            _ => r is Err && r->Err_0 is Decode,
        },
        _ => r is Err && r->Err_0 is Decode,
    }
}

/// A table record: an object with string `table_name` and `table_schema`, and
/// string arrays `columns` and `column_types` of one length.
pub open spec fn table_shaped(j: Json) -> bool {
    match j {
        Json::Object(m) => {
            &&& member_str(m@, "table_name"@) is Some
            &&& member_str(m@, "table_schema"@) is Some
            &&& member_strs(m@, "columns"@) is Some
            &&& member_strs(m@, "column_types"@) is Some
            &&& member_strs(m@, "columns"@)->Some_0.len() == member_strs(
                m@,
                "column_types"@,
            )->Some_0.len()
        },
        _ => false,
    }
}

/// `t` holds what the record `j` holds.
pub open spec fn table_matches(t: TableInfo, j: Json) -> bool {
    match j {
        Json::Object(m) => {
            &&& member_str(m@, "table_name"@) == Some(t.table_name)
            &&& member_str(m@, "table_schema"@) == Some(t.table_schema)
            &&& member_strs(m@, "columns"@) == Some(t.columns@)
            &&& member_strs(m@, "column_types"@) == Some(t.column_types@)
        },
        _ => false,
    }
}

/// What a list of tables decodes to: where `j` is an array of table records,
/// those tables in order; else a decode error.
pub open spec fn tables_outcome(j: Json, r: Result<Vec<TableInfo>, ClientError>) -> bool {
    if j is Array && forall|i: int|
        0 <= i < j->Array_0@.len() ==> table_shaped(#[trigger] j->Array_0@[i]) {
        &&& r is Ok
        &&& r->Ok_0@.len() == j->Array_0@.len()
        &&& forall|i: int|
            0 <= i < r->Ok_0@.len() ==> table_matches(#[trigger] r->Ok_0@[i], j->Array_0@[i])
    } else {
        r is Err && r->Err_0 is Decode
    }
}

/// The string fields of a foreign-key record.
pub open spec fn fk_text_fields() -> Seq<Seq<char>> {
    seq![
        "constraint_name"@,
        "on_delete"@,
        "on_update"@,
        "ref_table"@,
        "ref_table_table_schema"@,
        "table_name"@,
        "table_schema"@,
    ]
}

/// A foreign-key record: an object whose `column_mapping` is an object of
/// strings and whose other fields are strings.
pub open spec fn fk_shaped(j: Json) -> bool {
    match j {
        Json::Object(m) => {
            &&& member_pairs(m@, "column_mapping"@) is Some
            &&& keys_unique(member_pairs(m@, "column_mapping"@)->Some_0)
            &&& member_str(m@, "constraint_name"@) is Some
            &&& member_str(m@, "on_delete"@) is Some
            &&& member_str(m@, "on_update"@) is Some
            &&& member_str(m@, "ref_table"@) is Some
            &&& member_str(m@, "ref_table_table_schema"@) is Some
            &&& member_str(m@, "table_name"@) is Some
            &&& member_str(m@, "table_schema"@) is Some
        },
        _ => false,
    }
}

/// `f` holds what the record `j` holds; its mapping keeps the members of
/// `column_mapping`, in their order, as (local, referenced) pairs.
pub open spec fn fk_matches(f: FKInfo, j: Json) -> bool {
    match j {
        Json::Object(m) => {
            &&& member_pairs(m@, "column_mapping"@) == Some(f.column_mapping@)
            &&& member_str(m@, "constraint_name"@) == Some(f.constraint_name)
            &&& member_str(m@, "on_delete"@) == Some(f.on_delete)
            &&& member_str(m@, "on_update"@) == Some(f.on_update)
            &&& member_str(m@, "ref_table"@) == Some(f.ref_table)
            &&& member_str(m@, "ref_table_table_schema"@) == Some(f.ref_table_table_schema)
            &&& member_str(m@, "table_name"@) == Some(f.table_name)
            &&& member_str(m@, "table_schema"@) == Some(f.table_schema)
        },
        _ => false,
    }
}

/// What a list of foreign keys decodes to: where `j` is an array of
/// foreign-key records, those keys in order; else a decode error.
pub open spec fn fks_outcome(j: Json, r: Result<Vec<FKInfo>, ClientError>) -> bool {
    if j is Array && forall|i: int|
        0 <= i < j->Array_0@.len() ==> fk_shaped(#[trigger] j->Array_0@[i]) {
        &&& r is Ok
        &&& r->Ok_0@.len() == j->Array_0@.len()
        &&& forall|i: int|
            0 <= i < r->Ok_0@.len() ==> fk_matches(#[trigger] r->Ok_0@[i], j->Array_0@[i])
    } else {
        r is Err && r->Err_0 is Decode
    }
}

fn decode_error(what: &str) -> (r: ClientError)
    ensures
        r is Decode,
{
    ClientError::Decode(String::from_str(what))
}

/// The value of the first member named `key`.
fn member<'a>(members: &'a Vec<(String, Json)>, key: &str) -> (r: Option<&'a Json>)
    ensures
        r is Some <==> get_member(members@, key@) is Some,
        r is Some ==> *r->Some_0 == get_member(members@, key@)->Some_0,
{
    let k = String::from_str(key);
    let mut i: usize = 0;
    assert(members@.subrange(0, members@.len() as int) =~= members@);
    while i < members.len()
        invariant
            i <= members@.len(),
            k@ == key@,
            get_member(members@, key@) == get_member(members@.subrange(i as int, members@.len() as int), key@),
        decreases members@.len() - i,
    {
        assert(members@.subrange(i as int, members@.len() as int).drop_first() =~= members@.subrange(
            i + 1,
            members@.len() as int,
        ));
        if members[i].0 == k {
            return Some(&members[i].1);
        }
        i = i + 1;
    }
    None
}

fn member_str_exec(members: &Vec<(String, Json)>, key: &str) -> (r: Option<String>)
    ensures
        r == member_str(members@, key@),
{
    match member(members, key) {
        Some(Json::Str(s)) => Some(s.clone()),
        _ => None,
    }
}

/// The strings of an array of strings; nothing where one element is not.
fn strings_of(items: &Vec<Json>) -> (r: Option<Vec<String>>)
    ensures
        all_str(items@) ==> (r matches Some(v) && v@ == str_values(items@)),
        !all_str(items@) ==> r is None,
{
    let mut r: Vec<String> = Vec::new();
    let mut i: usize = 0;
    while i < items.len()
        invariant
            i <= items@.len(),
            forall|k: int| 0 <= k < i ==> #[trigger] items@[k] is Str,
            r@ == str_values(items@.take(i as int)),
        decreases items@.len() - i,
    {
        match &items[i] {
            Json::Str(s) => r.push(s.clone()),
            _ => {
                return None;
            },
        }
        assert(str_values(items@.take(i + 1)) =~= str_values(items@.take(i as int)).push(
            items@[i as int]->Str_0,
        ));
        i = i + 1;
    }
    assert(items@.take(i as int) =~= items@);
    Some(r)
}

fn member_strs_exec(members: &Vec<(String, Json)>, key: &str) -> (r: Option<Vec<String>>)
    ensures
        match member_strs(members@, key@) {
            Some(s) => r matches Some(v) && v@ == s,
            None => r is None,
        },
{
    match member(members, key) {
        Some(Json::Array(xs)) => strings_of(xs),
        _ => None,
    }
}

fn member_pairs_exec(members: &Vec<(String, Json)>, key: &str) -> (r: Option<Vec<(String, String)>>)
    ensures
        match member_pairs(members@, key@) {
            Some(s) => r matches Some(v) && v@ == s,
            None => r is None,
        },
{
    let ms = match member(members, key) {
        Some(Json::Object(ms)) => ms,
        _ => {
            return None;
        },
    };
    let mut r: Vec<(String, String)> = Vec::new();
    let mut i: usize = 0;
    while i < ms.len()
        invariant
            i <= ms@.len(),
            get_member(members@, key@) is Some,
            get_member(members@, key@)->Some_0 is Object,
            get_member(members@, key@)->Some_0->Object_0@ == ms@,
            forall|k: int| 0 <= k < i ==> #[trigger] ms@[k].1 is Str,
            r@ == text_pairs(ms@.take(i as int)),
        decreases ms@.len() - i,
    {
        match &ms[i].1 {
            Json::Str(s) => r.push((ms[i].0.clone(), s.clone())),
            _ => {
                assert(!(ms@[i as int].1 is Str));
                return None;
            },
        }
        assert(text_pairs(ms@.take(i + 1)) =~= text_pairs(ms@.take(i as int)).push(
            (ms@[i as int].0, ms@[i as int].1->Str_0),
        ));
        i = i + 1;
    }
    assert(ms@.take(i as int) =~= ms@);
    Some(r)
}

/// The one payload string of a raw SQL answer, read from the parsed answer.
pub fn payload_from_json(j: &Json) -> (r: Result<String, ClientError>)
    ensures
        run_sql_outcome(*j, r),
{
    let m = match j {
        Json::Object(m) => m,
        _ => {
            return Err(decode_error("response is not an object"));
        },
    };
    let result_type = match member_str_exec(m, "result_type") {
        Some(s) => s,
        None => {
            return Err(decode_error("response has no result type"));
        },
    };
    let items = match member(m, "result") {
        Some(Json::Array(items)) => items,
        _ => {
            return Err(decode_error("response has no result array"));
        },
    };
    let rows = if items.len() > 1 {
        match &items[1] {
            Json::Array(xs) => strings_of(xs),
            _ => None,
        }
    } else {
        None
    };
    assert(match rows {
        Some(v) => result_rows(items@) == Some(v@),
        None => result_rows(items@) is None,
    });
    select_payload(result_type, rows)
}

/// Reads the answer of the raw SQL endpoint, `{"result_type": .., "result":
/// [header, [payload]]}`, down to its one payload string, itself JSON.
pub fn decode_run_sql(body: &str) -> (r: Result<String, ClientError>)
    ensures
        match json_of(body@) {
            Some(j) => run_sql_outcome(j, r),
            None => r is Err && r->Err_0 is Decode,
        },
{
    match parse_json(body) {
        Some(j) => payload_from_json(&j),
        None => Err(decode_error("response body is not JSON")),
    }
}

/// Reads the answer of the metadata endpoint: any JSON document counts as
/// success, whatever it holds.
pub fn decode_metadata(body: &str) -> (r: Result<(), ClientError>)
    ensures
        r is Ok <==> json_of(body@) is Some,
        r is Err ==> r->Err_0 is Decode,
{
    match parse_json(body) {
        Some(_) => Ok(()),
        None => Err(decode_error("metadata answer is not JSON")),
    }
}

/// The tables of a parsed array of table records, in order.
pub fn tables_from_json(j: &Json) -> (r: Result<Vec<TableInfo>, ClientError>)
    ensures
        tables_outcome(*j, r),
{
    let items = match j {
        Json::Array(items) => items,
        _ => {
            return Err(decode_error("table list is not an array"));
        },
    };
    let mut r: Vec<TableInfo> = Vec::new();
    let mut i: usize = 0;
    while i < items.len()
        invariant
            i <= items@.len(),
            j is Array && j->Array_0@ == items@,
            r@.len() == i,
            forall|k: int| 0 <= k < i ==> table_shaped(#[trigger] items@[k]),
            forall|k: int| 0 <= k < i ==> table_matches(#[trigger] r@[k], items@[k]),
        decreases items@.len() - i,
    {
        let m = match &items[i] {
            Json::Object(m) => m,
            _ => {
                assert(!table_shaped(items@[i as int]));
                assert(j->Array_0@[i as int] == items@[i as int]);
                return Err(decode_error("table record is not an object"));
            },
        };
        let fields = (
            member_str_exec(m, "table_name"),
            member_str_exec(m, "table_schema"),
            member_strs_exec(m, "columns"),
            member_strs_exec(m, "column_types"),
        );
        let t = match fields {
            (Some(a), Some(b), Some(c), Some(d)) => TableInfo::new(a, b, c, d),
            _ => {
                assert(!table_shaped(items@[i as int]));
                assert(j->Array_0@[i as int] == items@[i as int]);
                return Err(decode_error("malformed table record"));
            },
        };
        match t {
            Ok(t) => r.push(t),
            Err(e) => {
                assert(!table_shaped(items@[i as int]));
                assert(j->Array_0@[i as int] == items@[i as int]);
                return Err(e);
            },
        }
        i = i + 1;
    }
    Ok(r)
}

/// Reads a JSON array of table records.
pub fn decode_tables(payload: &str) -> (r: Result<Vec<TableInfo>, ClientError>)
    ensures
        match json_of(payload@) {
            Some(j) => tables_outcome(j, r),
            None => r is Err && r->Err_0 is Decode,
        },
{
    match parse_json(payload) {
        Some(j) => tables_from_json(&j),
        None => Err(decode_error("table list is not JSON")),
    }
}

/// The foreign keys of a parsed array of foreign-key records, in order.
pub fn fks_from_json(j: &Json) -> (r: Result<Vec<FKInfo>, ClientError>)
    ensures
        fks_outcome(*j, r),
{
    let items = match j {
        Json::Array(items) => items,
        _ => {
            return Err(decode_error("foreign key list is not an array"));
        },
    };
    let mut r: Vec<FKInfo> = Vec::new();
    let mut i: usize = 0;
    while i < items.len()
        invariant
            i <= items@.len(),
            j is Array && j->Array_0@ == items@,
            r@.len() == i,
            forall|k: int| 0 <= k < i ==> fk_shaped(#[trigger] items@[k]),
            forall|k: int| 0 <= k < i ==> fk_matches(#[trigger] r@[k], items@[k]),
        decreases items@.len() - i,
    {
        let m = match &items[i] {
            Json::Object(m) => m,
            _ => {
                assert(!fk_shaped(items@[i as int]));
                assert(j->Array_0@[i as int] == items@[i as int]);
                return Err(decode_error("foreign key record is not an object"));
            },
        };
        let mapping = match member_pairs_exec(m, "column_mapping") {
            Some(p) => p,
            None => {
                assert(!fk_shaped(items@[i as int]));
                assert(j->Array_0@[i as int] == items@[i as int]);
                return Err(decode_error("malformed column mapping"));
            },
        };
        let fields = (
            member_str_exec(m, "constraint_name"),
            member_str_exec(m, "on_delete"),
            member_str_exec(m, "on_update"),
            member_str_exec(m, "ref_table"),
            member_str_exec(m, "ref_table_table_schema"),
            member_str_exec(m, "table_name"),
            member_str_exec(m, "table_schema"),
        );
        let fk = match fields {
            (Some(c), Some(d), Some(u), Some(rt), Some(rs), Some(tn), Some(ts)) => FKInfo::new(
                mapping,
                c,
                d,
                u,
                rt,
                rs,
                tn,
                ts,
            ),
            _ => {
                assert(!fk_shaped(items@[i as int]));
                assert(j->Array_0@[i as int] == items@[i as int]);
                return Err(decode_error("malformed foreign key record"));
            },
        };
        match fk {
            Ok(fk) => r.push(fk),
            Err(e) => {
                assert(!fk_shaped(items@[i as int]));
                assert(j->Array_0@[i as int] == items@[i as int]);
                return Err(e);
            },
        }
        i = i + 1;
    }
    Ok(r)
}

/// Reads a JSON array of foreign-key records.
pub fn decode_fks(payload: &str) -> (r: Result<Vec<FKInfo>, ClientError>)
    ensures
        match json_of(payload@) {
            Some(j) => fks_outcome(j, r),
            None => r is Err && r->Err_0 is Decode,
        },
{
    match parse_json(payload) {
        Some(j) => fks_from_json(&j),
        None => Err(decode_error("foreign key list is not JSON")),
    }
}

} // verus!
