//! The trusted boundary to the storage engine. Everything the library asks of
//! rusqlite goes through the wrappers here: each opens, queries or executes
//! one statement, converting between the library's storage values and the
//! engine's own. What comes back from a query depends on the database file,
//! so nothing is promised of it; the verified callers state what they do
//! with every possible answer.
use vstd::prelude::*;
use rusqlite::types::Value;
use crate::schema::ColumnInfo;
use crate::values::SqlVal;

verus! {

#[verifier::external_type_specification]
#[verifier::external_body]
pub struct ExConnection(rusqlite::Connection);

#[verifier::external_type_specification]
#[verifier::external_body]
pub struct ExValue(Value);

#[verifier::external_type_specification]
#[verifier::external_body]
pub struct ExTransaction<'a>(rusqlite::Transaction<'a>);

/// Relies on rusqlite's Value: the NULL value, ready to bind.
#[verifier::external_body]
fn sql_null() -> Value {
    Value::Null
}

/// Relies on rusqlite's Value: the integer value, ready to bind.
#[verifier::external_body]
fn sql_int(i: i64) -> Value {
    Value::Integer(i)
}

/// Relies on rusqlite's Value and str::parse: the real value the decimal text
/// denotes, ready to bind, or NULL when the text does not parse.
#[verifier::external_body]
fn sql_real_text(s: &str) -> Value {
    match s.parse() {
        Ok(x) => Value::Real(x),
        Err(_) => Value::Null,
    }
}

/// Relies on rusqlite's Value: the text value, ready to bind.
#[verifier::external_body]
fn sql_text(s: &String) -> Value {
    Value::Text(s.clone())
}

/// Relies on rusqlite's Value: the blob value, ready to bind.
#[verifier::external_body]
fn sql_blob(b: &Vec<u8>) -> Value {
    Value::Blob(b.clone())
}

/// Turns the library's storage values into engine values for binding, one for
/// one and in order, so placeholder and parameter counts agree.
pub(crate) fn to_engine_values(params: &Vec<SqlVal>) -> (r: Vec<Value>)
    ensures
        r@.len() == params@.len(),
{
    let mut out: Vec<Value> = Vec::new();
    let mut i: usize = 0;
    while i < params.len()
        invariant
            i <= params@.len(),
            out@.len() == i,
        decreases params@.len() - i,
    {
        let v = match &params[i] {
            SqlVal::Null => sql_null(),
            SqlVal::Int(x) => sql_int(*x),
            SqlVal::Real(s) => sql_real_text(s.as_str()),
            SqlVal::Text(s) => sql_text(s),
            SqlVal::Blob(b) => sql_blob(b),
        };
        out.push(v);
        i = i + 1;
    }
    out
}

/// Relies on rusqlite's prepare and query_map: runs the introspection
/// statement and reads each row's column-name and declared-type fields.
#[verifier::external_body]
pub(crate) fn query_columns(conn: &rusqlite::Connection, sql: &str) -> (r: Result<
    Vec<ColumnInfo>,
    String,
>) {
    let mut stmt = conn.prepare(sql).map_err(|e| e.to_string())?;
    let rows = stmt.query_map(
        [],
        |row| Ok(ColumnInfo { name: row.get(1)?, type_: row.get(2)? }),
    ).map_err(|e| e.to_string())?;
    rows.collect::<Result<Vec<ColumnInfo>, rusqlite::Error>>().map_err(|e| e.to_string())
}

/// Relies on rusqlite's Value: one engine value moved into the library's
/// storage form, a real as its decimal text.
#[verifier::external_body]
fn to_sqlval(v: Value) -> SqlVal {
    match v {
        Value::Null => SqlVal::Null,
        Value::Integer(x) => SqlVal::Int(x),
        Value::Real(x) => SqlVal::Real(format!("{}", x)),
        Value::Text(t) => SqlVal::Text(t),
        Value::Blob(b) => SqlVal::Blob(b),
    }
}

/// Relies on rusqlite's prepare and query_map: runs the statement with the
/// given bound parameters and hands every resulting row back, each engine
/// value moved into the library's storage form.
#[verifier::external_body]
pub(crate) fn query_rows(conn: &rusqlite::Connection, sql: &str, params: &Vec<Value>) -> (r: Result<
    Vec<Vec<SqlVal>>,
    String,
>) {
    let mut stmt = conn.prepare(sql).map_err(|e| e.to_string())?;
    let n = stmt.column_count();
    let rows = stmt.query_map(
        rusqlite::params_from_iter(params.iter()),
        |row| (0..n).map(|i| row.get(i).map(to_sqlval)).collect(),
    ).map_err(|e| e.to_string())?;
    rows.collect::<Result<Vec<Vec<SqlVal>>, rusqlite::Error>>().map_err(|e| e.to_string())
}

/// Relies on rusqlite's Connection::execute: runs the statement with the
/// given bound parameters and reports how many rows it changed.
#[verifier::external_body]
pub(crate) fn execute(conn: &rusqlite::Connection, sql: &str, params: &Vec<Value>) -> (r: Result<
    usize,
    String,
>) {
    conn.execute(sql, rusqlite::params_from_iter(params.iter())).map_err(|e| e.to_string())
}

/// Relies on rusqlite's Connection::transaction: begins a transaction that
/// rolls back unless committed.
#[verifier::external_body]
pub(crate) fn begin_transaction<'a>(conn: &'a mut rusqlite::Connection) -> (r: Result<
    rusqlite::Transaction<'a>,
    String,
>) {
    conn.transaction().map_err(|e| e.to_string())
}

/// Relies on rusqlite's Transaction::execute: runs the statement inside the
/// transaction with the given bound parameters.
#[verifier::external_body]
pub(crate) fn tx_execute(tx: &rusqlite::Transaction, sql: &str, params: &Vec<Value>) -> (r: Result<
    usize,
    String,
>) {
    tx.execute(sql, rusqlite::params_from_iter(params.iter())).map_err(|e| e.to_string())
}

/// Relies on rusqlite's Transaction::commit: makes the transaction's effects
/// permanent; a transaction dropped without commit rolls back instead.
#[verifier::external_body]
pub(crate) fn tx_commit(tx: rusqlite::Transaction) -> (r: Result<(), String>) {
    tx.commit().map_err(|e| e.to_string())
}

/// Relies on chrono's Local::now and to_rfc3339: the current local time,
/// of whose value nothing can be promised.
#[verifier::external_body]
pub(crate) fn now_rfc3339() -> (r: String) {
    chrono::Local::now().to_rfc3339()
}

} // verus!
