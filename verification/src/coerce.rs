//! Value coercion: mapping a loosely typed input value to the storage form
//! the target column calls for, and the per-column defaults an insert uses
//! when the payload leaves a column unset.
use vstd::prelude::*;
use crate::codec::b64_decode_of;
use crate::errors::DbError;
use crate::schema::{ColClass, class_of};
use crate::strutil::dec_int_of;
use crate::values::{JsonVal, SqlVal, StoredModel, ValModel};

verus! {

/// What to store in a non-identifier, non-special column that the payload
/// leaves unset. The observed behaviour differs between revisions of the
/// engine, so the choice is surfaced as a configuration value; the default
/// is the empty string.
#[derive(Clone, Copy, Debug, PartialEq, Eq, Structural)]
pub enum MissingFieldPolicy {
    EmptyString,
    Null,
}

impl Default for MissingFieldPolicy {
    /// The default policy stores an empty string.
    fn default() -> (r: Self)
        ensures
            r == MissingFieldPolicy::EmptyString,
    {
        MissingFieldPolicy::EmptyString
    }
}

/// The designated special columns, which default to NULL instead of text.
pub open spec fn is_special_column(name: Seq<char>) -> bool {
    name == "zona_campus"@
}

/// The text a boolean is stored as in a text-like column.
pub open spec fn bool_text(b: bool) -> Seq<char> {
    if b {
        "true"@
    } else {
        "false"@
    }
}

/// Whether an optional declared type tag selects the BLOB policy.
pub open spec fn opt_tag_is_blob(t: Option<Seq<char>>) -> bool {
    match t {
        Some(s) => s == "BLOB"@,
        None => false,
    }
}

/// The sparse-update coercion: how one input value is stored, given whether
/// the target column is BLOB-typed, or nothing when the value cannot be
/// stored. A string aimed at a BLOB column is decoded from base64 when it
/// can be, and kept as text when it cannot: decoding failure is not fatal.
pub open spec fn coerced(v: ValModel, is_blob: bool) -> Option<StoredModel> {
    match v {
        ValModel::Null => Some(StoredModel::Null),
        ValModel::Bool(b) => Some(StoredModel::Int(if b { 1int } else { 0int })),
        ValModel::Int(i) => Some(StoredModel::Int(i)),
        ValModel::Real(s) => Some(StoredModel::Real(s)),
        ValModel::Str(s) => if is_blob {
            match b64_decode_of(s) {
                Some(bytes) => Some(StoredModel::Blob(bytes)),
                None => Some(StoredModel::Text(s)),
            }
        } else {
            Some(StoredModel::Text(s))
        },
        ValModel::Other(_) => None,
    }
}

/// Converts one input value to its storage form for the given declared type
/// tag, failing only on structured values that have no storage form.
pub fn convert_json_to_sql(json_value: &JsonVal, column_type: Option<&String>) -> (r: Result<
    SqlVal,
    DbError,
>)
    ensures
        match r {
            Ok(s) => coerced(
                json_value@,
                opt_tag_is_blob(
                    match column_type {
                        Some(t) => Some(t@),
                        None => None,
                    },
                ),
            ) == Some(s@),
            Err(e) => coerced(json_value@, false) is None && e is UnsupportedValue,
        },
{
    let is_blob = match column_type {
        Some(t) => crate::strutil::str_eq(t.as_str(), "BLOB"),
        None => false,
    };
    match json_value {
        JsonVal::Null => Ok(SqlVal::Null),
        JsonVal::Bool(b) => Ok(SqlVal::Int(if *b { 1 } else { 0 })),
        JsonVal::Int(i) => Ok(SqlVal::Int(*i)),
        JsonVal::Real(s) => Ok(SqlVal::Real(s.clone())),
        JsonVal::Str(s) => {
            if is_blob {
                match crate::codec::b64_decode(s.as_str()) {
                    Some(bytes) => Ok(SqlVal::Blob(bytes)),
                    None => Ok(SqlVal::Text(s.clone())),
                }
            } else {
                Ok(SqlVal::Text(s.clone()))
            }
        },
        JsonVal::Other(_) => {
            let mut m = String::new();
            m.append("Tipo de dato no soportado para conversión");
            Err(DbError::UnsupportedValue(m))
        },
    }
}

/// How a payload-supplied value is stored by an insert, per column policy.
/// Unlike the sparse-update coercion this never fails: numbers, booleans and
/// structured values all fall back to their text rendering in text-like
/// columns, and only the designated special columns keep typed storage.
pub open spec fn present_param_of(v: ValModel, class: ColClass, special: bool) -> StoredModel {
    if class == ColClass::Blob {
        match v {
            ValModel::Str(s) => match b64_decode_of(s) {
                Some(bytes) => StoredModel::Blob(bytes),
                None => StoredModel::Text(s),
            },
            ValModel::Null => StoredModel::Null,
            ValModel::Bool(b) => StoredModel::Text(bool_text(b)),
            ValModel::Int(i) => StoredModel::Text(dec_int_of(i)),
            ValModel::Real(s) => StoredModel::Text(s),
            ValModel::Other(s) => StoredModel::Text(s),
        }
    } else if special {
        match v {
            ValModel::Str(s) => StoredModel::Text(s),
            ValModel::Int(i) => StoredModel::Int(i),
            ValModel::Real(s) => StoredModel::Real(s),
            ValModel::Bool(b) => StoredModel::Int(if b { 1int } else { 0int }),
            ValModel::Null => StoredModel::Null,
            ValModel::Other(s) => StoredModel::Text(s),
        }
    } else {
        match v {
            ValModel::Null => StoredModel::Text(Seq::<char>::empty()),
            ValModel::Str(s) => StoredModel::Text(s),
            ValModel::Int(i) => StoredModel::Text(dec_int_of(i)),
            ValModel::Real(s) => StoredModel::Text(s),
            ValModel::Bool(b) => StoredModel::Text(bool_text(b)),
            ValModel::Other(s) => StoredModel::Text(s),
        }
    }
}

/// What an insert stores in a column the payload leaves unset: NULL for the
/// special columns, the current timestamp for DATETIME columns, and the
/// configured default elsewhere.
pub open spec fn missing_param_of(
    class: ColClass,
    special: bool,
    policy: MissingFieldPolicy,
    now: Seq<char>,
) -> StoredModel {
    if special {
        StoredModel::Null
    } else if class == ColClass::DateTime {
        StoredModel::Text(now)
    } else if policy == MissingFieldPolicy::EmptyString {
        StoredModel::Text(Seq::<char>::empty())
    } else {
        StoredModel::Null
    }
}

/// Maps one payload-supplied value to the storage form an insert binds.
pub fn insert_param(value: &JsonVal, class: ColClass, special: bool) -> (r: SqlVal)
    ensures
        r@ == present_param_of(value@, class, special),
{
    if class == ColClass::Blob {
        match value {
            JsonVal::Str(s) => match crate::codec::b64_decode(s.as_str()) {
                Some(bytes) => SqlVal::Blob(bytes),
                None => SqlVal::Text(s.clone()),
            },
            JsonVal::Null => SqlVal::Null,
            JsonVal::Bool(b) => SqlVal::Text(bool_text_exec(*b)),
            JsonVal::Int(i) => SqlVal::Text(crate::strutil::i64_to_string(*i)),
            JsonVal::Real(s) => SqlVal::Text(s.clone()),
            JsonVal::Other(s) => SqlVal::Text(s.clone()),
        }
    } else if special {
        match value {
            JsonVal::Str(s) => SqlVal::Text(s.clone()),
            JsonVal::Int(i) => SqlVal::Int(*i),
            JsonVal::Real(s) => SqlVal::Real(s.clone()),
            JsonVal::Bool(b) => SqlVal::Int(if *b { 1 } else { 0 }),
            JsonVal::Null => SqlVal::Null,
            JsonVal::Other(s) => SqlVal::Text(s.clone()),
        }
    } else {
        match value {
            JsonVal::Null => SqlVal::Text(String::new()),
            JsonVal::Str(s) => SqlVal::Text(s.clone()),
            JsonVal::Int(i) => SqlVal::Text(crate::strutil::i64_to_string(*i)),
            JsonVal::Real(s) => SqlVal::Text(s.clone()),
            JsonVal::Bool(b) => SqlVal::Text(bool_text_exec(*b)),
            JsonVal::Other(s) => SqlVal::Text(s.clone()),
        }
    }
}

/// Maps an unset column to the default storage form an insert binds.
pub fn missing_param(class: ColClass, special: bool, policy: MissingFieldPolicy, now: &str) -> (r:
    SqlVal)
    ensures
        r@ == missing_param_of(class, special, policy, now@),
{
    if special {
        SqlVal::Null
    } else if class == ColClass::DateTime {
        let mut t = String::new();
        t.append(now);
        SqlVal::Text(t)
    } else if policy == MissingFieldPolicy::EmptyString {
        SqlVal::Text(String::new())
    } else {
        SqlVal::Null
    }
}

fn bool_text_exec(b: bool) -> (r: String)
    ensures
        r@ == bool_text(b),
{
    let mut s = String::new();
    if b {
        s.append("true");
    } else {
        s.append("false");
    }
    s
}

/// The storage form of one cell of a freshly built insert: the managed
/// identifier column always carries the allocated key as text; any other
/// column carries its coerced payload value, or its default when unset.
pub open spec fn insert_cell_of(
    col: crate::schema::ColumnInfo,
    payload: Seq<(String, JsonVal)>,
    id_column: Seq<char>,
    key: int,
    policy: MissingFieldPolicy,
    now: Seq<char>,
) -> StoredModel {
    if col.name@ == id_column {
        StoredModel::Text(dec_int_of(key))
    } else {
        match crate::values::lookup_spec(payload, col.name@) {
            Some(v) => present_param_of(v, class_of(col.type_@), is_special_column(col.name@)),
            None => missing_param_of(
                class_of(col.type_@),
                is_special_column(col.name@),
                policy,
                now,
            ),
        }
    }
}

/// Builds the full row an insert binds: one storage value per real column of
/// the table, in column order, with the allocated key in the identifier
/// column.
pub fn build_insert_record(
    cols: &Vec<crate::schema::ColumnInfo>,
    payload: &Vec<(String, JsonVal)>,
    id_column: &str,
    id_value: i64,
    policy: MissingFieldPolicy,
    now: &str,
) -> (r: Vec<SqlVal>)
    ensures
        r@.len() == cols@.len(),
        forall|i: int|
            0 <= i < cols@.len() ==> #[trigger] r@[i]@ == insert_cell_of(
                cols@[i],
                payload@,
                id_column@,
                id_value as int,
                policy,
                now@,
            ),
{
    let mut out: Vec<SqlVal> = Vec::new();
    let mut i: usize = 0;
    while i < cols.len()
        invariant
            i <= cols@.len(),
            out@.len() == i,
            forall|j: int|
                0 <= j < i ==> #[trigger] out@[j]@ == insert_cell_of(
                    cols@[j],
                    payload@,
                    id_column@,
                    id_value as int,
                    policy,
                    now@,
                ),
        decreases cols@.len() - i,
    {
        let col = &cols[i];
        let cell = if crate::strutil::str_eq(col.name.as_str(), id_column) {
            SqlVal::Text(crate::strutil::i64_to_string(id_value))
        } else {
            let special = crate::strutil::str_eq(col.name.as_str(), "zona_campus");
            let class = crate::schema::classify_column_type(col.type_.as_str());
            match crate::values::lookup_value(payload, col.name.as_str()) {
                Some(v) => insert_param(v, class, special),
                None => missing_param(class, special, policy, now),
            }
        };
        out.push(cell);
        i = i + 1;
    }
    out
}

} // verus!
