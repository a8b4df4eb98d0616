//! The dynamic record adapter: generic insert, read, update and delete against
//! a table whose shape is discovered at call time. Every operation is one
//! open-introspect-act cycle over a caller-supplied connection; nothing is
//! cached between calls.
use vstd::prelude::*;
use crate::coerce::MissingFieldPolicy;
use crate::errors::DbError;
use crate::schema::ColumnInfo;
use crate::values::{JsonVal, SqlVal, ValModel};

verus! {

/// A create request: which database and table, which column carries the
/// managed identifier, and the payload of column values.
pub struct NuevoRegistro {
    pub db_name: String,
    pub table_name: String,
    pub id_column: String,
    pub data: Vec<(String, JsonVal)>,
}

/// The database file a base name resolves to, `.db` tried before `.sqlite`,
/// or nothing when neither candidate exists.
pub open spec fn resolved_db_file(
    dir: Seq<char>,
    name: Seq<char>,
    db_exists: bool,
    sqlite_exists: bool,
) -> Option<Seq<char>> {
    if db_exists {
        Some(dir + "/"@ + name + ".db"@)
    } else if sqlite_exists {
        Some(dir + "/"@ + name + ".sqlite"@)
    } else {
        None
    }
}

/// Picks the database file for a base name. The caller performs the two
/// existence checks and passes their outcome in.
pub fn resolve_db_file(dir: &str, name: &str, db_exists: bool, sqlite_exists: bool) -> (r: Result<
    String,
    DbError,
>)
    ensures
        match r {
            Ok(p) => resolved_db_file(dir@, name@, db_exists, sqlite_exists) == Some(p@),
            Err(e) => resolved_db_file(dir@, name@, db_exists, sqlite_exists) is None && (
            e matches DbError::DatabaseNotFound(m) && m@ == "Base de datos no encontrada: "@
                + name@),
        },
{
    if db_exists {
        let mut p = String::new();
        p.append(dir);
        p.append("/");
        p.append(name);
        p.append(".db");
        proof {
            assert(p@ =~= dir@ + "/"@ + name@ + ".db"@);
        }
        Ok(p)
    } else if sqlite_exists {
        let mut p = String::new();
        p.append(dir);
        p.append("/");
        p.append(name);
        p.append(".sqlite");
        proof {
            assert(p@ =~= dir@ + "/"@ + name@ + ".sqlite"@);
        }
        Ok(p)
    } else {
        Err(DbError::DatabaseNotFound(crate::strutil::concat_str(
            "Base de datos no encontrada: ",
            name,
        )))
    }
}

/// Discovers the table's current columns, in the engine's positional order.
/// A table the engine knows nothing about — an empty answer — is a schema
/// failure: introspection is the arbiter of whether the table exists.
pub fn get_column_info(conn: &rusqlite::Connection, table_name: &str) -> (r: Result<
    Vec<ColumnInfo>,
    DbError,
>)
    ensures
        r matches Err(e) ==> e is Schema,
        r matches Ok(c) ==> c@.len() > 0,
{
    let sql = crate::sqlbuild::pragma_table_info_sql(table_name);
    match crate::engine::query_columns(conn, sql.as_str()) {
        Ok(cols) => {
            if cols.len() == 0 {
                Err(
                    DbError::Schema(crate::strutil::concat_str("No existe la tabla: ", table_name)),
                )
            } else {
                Ok(cols)
            }
        },
        Err(e) => Err(
            DbError::Schema(crate::strutil::concat_str("Error al obtener columnas: ", e.as_str())),
        ),
    }
}

/// The names of the columns, in order.
pub fn column_names(cols: &Vec<ColumnInfo>) -> (r: Vec<String>)
    ensures
        r@.len() == cols@.len(),
        forall|i: int| 0 <= i < cols@.len() ==> #[trigger] r@[i]@ == cols@[i].name@,
        r.deep_view() == cols@.map_values(|c: ColumnInfo| c.name@),
{
    let mut out: Vec<String> = Vec::new();
    let mut i: usize = 0;
    while i < cols.len()
        invariant
            i <= cols@.len(),
            out@.len() == i,
            forall|j: int| 0 <= j < i ==> #[trigger] out@[j]@ == cols@[j].name@,
        decreases cols@.len() - i,
    {
        out.push(cols[i].name.clone());
        i = i + 1;
    }
    proof {
        assert(out.deep_view() =~= cols@.map_values(|c: ColumnInfo| c.name@));
    }
    out
}

/// The identifier values a fetched answer holds: for each row whose first
/// cell is an integer below the integer type's upper bound, that integer, in
/// row order. The bound keeps a successor representable; other cells carry
/// no identifier.
pub open spec fn id_values_of(rows: Seq<Vec<SqlVal>>) -> Seq<int>
    decreases rows.len(),
{
    if rows.len() == 0 {
        Seq::empty()
    } else {
        let pre = id_values_of(rows.drop_last());
        let row = rows.last();
        if row@.len() >= 1 {
            match row@[0]@ {
                crate::values::StoredModel::Int(x) => if x < i64::MAX as int {
                    pre + seq![x]
                } else {
                    pre
                },
                _ => pre,
            }
        } else {
            pre
        }
    }
}

/// Extracts the identifier values from a fetched answer, exactly the integer
/// first cells below the integer type's upper bound, in order.
pub fn extract_id_values(rows: &Vec<Vec<SqlVal>>) -> (r: Vec<i64>)
    ensures
        r@.map_values(|v: i64| v as int) == id_values_of(rows@),
        forall|i: int| 0 <= i < r@.len() ==> #[trigger] r@[i] < i64::MAX,
{
    let mut out: Vec<i64> = Vec::new();
    let mut i: usize = 0;
    proof {
        assert(rows@.subrange(0, 0) =~= Seq::<Vec<SqlVal>>::empty());
        assert(out@.map_values(|v: i64| v as int) =~= id_values_of(rows@.subrange(0, 0)));
    }
    while i < rows.len()
        invariant
            i <= rows@.len(),
            out@.map_values(|v: i64| v as int) == id_values_of(rows@.subrange(0, i as int)),
            forall|j: int| 0 <= j < out@.len() ==> #[trigger] out@[j] < i64::MAX,
        decreases rows@.len() - i,
    {
        let ghost pre = out@;
        proof {
            assert(rows@.subrange(0, i + 1).drop_last() =~= rows@.subrange(0, i as int));
            assert(rows@.subrange(0, i + 1).last() == rows@[i as int]);
        }
        if rows[i].len() >= 1 {
            match &rows[i][0] {
                SqlVal::Int(x) => {
                    if *x < i64::MAX {
                        out.push(*x);
                        proof {
                            assert(out@.map_values(|v: i64| v as int) =~= pre.map_values(
                                |v: i64| v as int,
                            ) + seq![out@.last() as int]);
                        }
                    }
                },
                _ => {},
            }
        }
        i = i + 1;
    }
    proof {
        assert(rows@.subrange(0, rows@.len() as int) =~= rows@);
    }
    out
}

/// Reads the managed identifier column's current values, each cast to an
/// integer by the engine and extracted per `id_values_of`.
pub fn fetch_id_values(conn: &rusqlite::Connection, table_name: &str, id_column: &str) -> (r:
    Result<Vec<i64>, DbError>)
    ensures
        match r {
            Ok(v) => forall|i: int| 0 <= i < v@.len() ==> #[trigger] v@[i] < i64::MAX,
            Err(e) => e is SqlExecution,
        },
{
    let sql = crate::sqlbuild::id_values_sql(table_name, id_column);
    let no_params: Vec<rusqlite::types::Value> = Vec::new();
    match crate::engine::query_rows(conn, sql.as_str(), &no_params) {
        Ok(rows) => Ok(extract_id_values(&rows)),
        Err(e) => Err(
            DbError::SqlExecution(
                crate::strutil::concat_str(
                    "Error al consultar los identificadores: ",
                    e.as_str(),
                ),
            ),
        ),
    }
}

/// Creates a record with an allocated identifier: resolves the table's real
/// columns, allocates the next unique key for the identifier column, builds
/// an insert touching every real column — unset columns defaulted per policy
/// — and executes it. The payload never causes a rejection here: every value
/// has a fallback storage form.
pub fn crear_registro_con_auto_incremento(
    conn: &rusqlite::Connection,
    registro: &NuevoRegistro,
    policy: MissingFieldPolicy,
) -> (r: Result<String, DbError>)
    ensures
        r matches Ok(m) ==> m@ == "Registro creado exitosamente"@,
        r matches Err(e) ==> (e is Schema || e is SqlExecution),
{
    let table = registro.table_name.as_str();
    let id_col = registro.id_column.as_str();
    let ids_at_max = match fetch_id_values(conn, table, id_col) {
        Ok(v) => v,
        Err(e) => {
            return Err(e);
        },
    };
    let ids_now = match fetch_id_values(conn, table, id_col) {
        Ok(v) => v,
        Err(e) => {
            return Err(e);
        },
    };
    let key = crate::allocator::allocate_key(&ids_at_max, &ids_now);
    let cols = match get_column_info(conn, table) {
        Ok(c) => c,
        Err(e) => {
            return Err(e);
        },
    };
    let now = crate::engine::now_rfc3339();
    let record = crate::coerce::build_insert_record(
        &cols,
        &registro.data,
        id_col,
        key,
        policy,
        now.as_str(),
    );
    let names = column_names(&cols);
    let sql = crate::sqlbuild::insert_sql(table, &names);
    let params = crate::engine::to_engine_values(&record);
    match crate::engine::execute(conn, sql.as_str(), &params) {
        Ok(_) => {
            let mut m = String::new();
            m.append("Registro creado exitosamente");
            Ok(m)
        },
        Err(e) => Err(
            DbError::SqlExecution(crate::strutil::concat_str("Error INSERT: ", e.as_str())),
        ),
    }
}

/// Whether the optional per-column type hints mark a column as BLOB-typed.
pub open spec fn blob_hint_of(
    column_types: Option<Vec<(String, String)>>,
    key: Seq<char>,
) -> bool {
    match column_types {
        Some(ts) => crate::coerce::opt_tag_is_blob(crate::values::lookup_str_spec(ts@, key)),
        None => false,
    }
}

/// Builds the assignment parameters of a sparse update: one name and one
/// coerced value per entry of `updates`, in order, each value coerced per its
/// type hint; a structured value fails the whole build, and nothing else does.
pub fn build_update_params(
    updates: &Vec<(String, JsonVal)>,
    column_types: &Option<Vec<(String, String)>>,
) -> (r: Result<(Vec<String>, Vec<SqlVal>), DbError>)
    ensures
        match r {
            Ok(pair) => !has_other_value(updates@) && pair.0@.len() == updates@.len()
                && pair.1@.len() == updates@.len() && (forall|i: int|
                0 <= i < updates@.len() ==> (#[trigger] pair.0@[i])@ == updates@[i].0@) && (
            forall|i: int|
                0 <= i < updates@.len() ==> Some((#[trigger] pair.1@[i])@) == crate::coerce::coerced(
                    updates@[i].1@,
                    blob_hint_of(*column_types, updates@[i].0@),
                )),
            Err(e) => e is UnsupportedValue && has_other_value(updates@),
        },
{
    let mut names: Vec<String> = Vec::new();
    let mut params: Vec<SqlVal> = Vec::new();
    let mut i: usize = 0;
    while i < updates.len()
        invariant
            i <= updates@.len(),
            names@.len() == i,
            params@.len() == i,
            forall|k: int| 0 <= k < i ==> (#[trigger] names@[k])@ == updates@[k].0@,
            forall|k: int|
                0 <= k < i ==> Some((#[trigger] params@[k])@) == crate::coerce::coerced(
                    updates@[k].1@,
                    blob_hint_of(*column_types, updates@[k].0@),
                ),
            !has_other_value(updates@.subrange(0, i as int)),
        decreases updates@.len() - i,
    {
        let name = updates[i].0.as_str();
        let hint = match column_types {
            Some(types) => crate::values::lookup_str(types, name),
            None => None,
        };
        match crate::coerce::convert_json_to_sql(&updates[i].1, hint) {
            Ok(v) => {
                names.push(updates[i].0.clone());
                params.push(v);
            },
            Err(e) => {
                proof {
                    assert(updates@[i as int].1@ is Other);
                }
                return Err(e);
            },
        }
        proof {
            assert(updates@.subrange(0, i + 1).drop_last() =~= updates@.subrange(0, i as int));
        }
        i = i + 1;
    }
    proof {
        assert(updates@.subrange(0, updates@.len() as int) =~= updates@);
    }
    Ok((names, params))
}

/// Whether some value of the payload, other than under the designated
/// ordering column, is a structured value with no storage form.
pub open spec fn has_unstorable_value(data: Seq<(String, JsonVal)>) -> bool {
    exists|i: int| 0 <= i < data.len() && #[trigger] data[i].0@ != "No."@ && data[i].1@ is Other
}

/// The column-and-value pairs a payload-keyed insert binds, before the
/// ordering column itself: every payload entry not named after the ordering
/// column, in order, its value coerced per its type hint. Meaningful only
/// when no such entry holds a structured value.
pub open spec fn no_insert_pairs(
    data: Seq<(String, JsonVal)>,
    column_types: Option<Vec<(String, String)>>,
) -> Seq<(Seq<char>, crate::values::StoredModel)>
    decreases data.len(),
{
    if data.len() == 0 {
        Seq::empty()
    } else {
        let pre = no_insert_pairs(data.drop_last(), column_types);
        let key = data.last().0@;
        if key == "No."@ {
            pre
        } else {
            pre + seq![
                (
                    key,
                    crate::coerce::coerced(data.last().1@, blob_hint_of(column_types, key))->Some_0,
                ),
            ]
        }
    }
}

/// Builds the column list and bound row of a payload-keyed insert: the pairs
/// of `no_insert_pairs` in order, then the ordering column carrying the
/// allocated key as decimal text; a structured value under any other column
/// fails the build, and nothing else does.
pub fn build_no_insert_params(
    data: &Vec<(String, JsonVal)>,
    column_types: &Option<Vec<(String, String)>>,
    key: i64,
) -> (r: Result<(Vec<String>, Vec<SqlVal>), DbError>)
    ensures
        match r {
            Ok(pair) => !has_unstorable_value(data@) && pair.0@.len() == no_insert_pairs(
                data@,
                *column_types,
            ).len() + 1 && pair.1@.len() == pair.0@.len() && (forall|i: int|
                0 <= i < no_insert_pairs(data@, *column_types).len() ==> (#[trigger] pair.0@[i])@
                    == no_insert_pairs(data@, *column_types)[i].0) && (forall|i: int|
                0 <= i < no_insert_pairs(data@, *column_types).len() ==> (#[trigger] pair.1@[i])@
                    == no_insert_pairs(data@, *column_types)[i].1) && pair.0@.last()@ == "No."@
                && pair.1@.last()@ == crate::values::StoredModel::Text(
                crate::strutil::dec_int_of(key as int),
            ),
            Err(e) => e is UnsupportedValue && has_unstorable_value(data@),
        },
{
    let mut names: Vec<String> = Vec::new();
    let mut params: Vec<SqlVal> = Vec::new();
    let mut i: usize = 0;
    proof {
        assert(data@.subrange(0, 0) =~= Seq::<(String, JsonVal)>::empty());
    }
    while i < data.len()
        invariant
            i <= data@.len(),
            names@.len() == no_insert_pairs(data@.subrange(0, i as int), *column_types).len(),
            params@.len() == names@.len(),
            forall|k: int|
                0 <= k < names@.len() ==> (#[trigger] names@[k])@ == no_insert_pairs(
                    data@.subrange(0, i as int),
                    *column_types,
                )[k].0,
            forall|k: int|
                0 <= k < names@.len() ==> (#[trigger] params@[k])@ == no_insert_pairs(
                    data@.subrange(0, i as int),
                    *column_types,
                )[k].1,
            !has_unstorable_value(data@.subrange(0, i as int)),
        decreases data@.len() - i,
    {
        proof {
            assert(data@.subrange(0, i + 1).drop_last() =~= data@.subrange(0, i as int));
            assert(data@.subrange(0, i + 1).last() == data@[i as int]);
        }
        let name = data[i].0.as_str();
        if !crate::strutil::str_eq(name, "No.") {
            let hint = match column_types {
                Some(types) => crate::values::lookup_str(types, name),
                None => None,
            };
            match crate::coerce::convert_json_to_sql(&data[i].1, hint) {
                Ok(v) => {
                    names.push(data[i].0.clone());
                    params.push(v);
                },
                Err(e) => {
                    proof {
                        assert(data@[i as int].0@ != "No."@ && data@[i as int].1@ is Other);
                    }
                    return Err(e);
                },
            }
        }
        i = i + 1;
    }
    proof {
        assert(data@.subrange(0, data@.len() as int) =~= data@);
    }
    let mut id_name = String::new();
    id_name.append("No.");
    names.push(id_name);
    params.push(SqlVal::Text(crate::strutil::i64_to_string(key)));
    Ok((names, params))
}

/// Creates a record keyed by the fixed ordering column: allocates the next
/// unique value of that column, then inserts exactly the payload's columns
/// plus the ordering column, each value coerced per its declared type hint.
pub fn crear_registro_con_auto_incremento_no(
    conn: &rusqlite::Connection,
    table_name: &str,
    data: &Vec<(String, JsonVal)>,
    column_types: &Option<Vec<(String, String)>>,
) -> (r: Result<bool, DbError>)
    ensures
        r matches Ok(b) ==> b,
        r matches Err(e) && e is UnsupportedValue ==> has_unstorable_value(data@),
        r matches Err(e) ==> (e is UnsupportedValue || e is SqlExecution),
{
    let ids_at_max = match fetch_id_values(conn, table_name, "No.") {
        Ok(v) => v,
        Err(e) => {
            return Err(e);
        },
    };
    let ids_now = match fetch_id_values(conn, table_name, "No.") {
        Ok(v) => v,
        Err(e) => {
            return Err(e);
        },
    };
    let key = crate::allocator::allocate_key(&ids_at_max, &ids_now);
    let (names, params) = match build_no_insert_params(data, column_types, key) {
        Ok(pair) => pair,
        Err(e) => {
            return Err(e);
        },
    };
    let sql = crate::sqlbuild::insert_sql(table_name, &names);
    let engine_params = crate::engine::to_engine_values(&params);
    match crate::engine::execute(conn, sql.as_str(), &engine_params) {
        Ok(_) => Ok(true),
        Err(e) => Err(
            DbError::SqlExecution(crate::strutil::concat_str("Error al ejecutar INSERT: ", e.as_str())),
        ),
    }
}

/// The not-found rule shared by the row operations: a statement that touched
/// zero rows means the key matched no record and fails as a missing record;
/// touching one or more rows never fails on that ground.
pub fn not_found_when_zero(rows_affected: usize, pk_column: &str) -> (r: Result<bool, DbError>)
    ensures
        (rows_affected == 0) <==> (r matches Err(e) && e is RecordNotFound),
        rows_affected > 0 <==> (r matches Ok(b) && b),
{
    if rows_affected == 0 {
        Err(
            DbError::RecordNotFound(
                crate::strutil::concat_str("No se encontró ninguna fila con ", pk_column),
            ),
        )
    } else {
        Ok(true)
    }
}

/// Whether some value among the updates is a structured value with no
/// storage form.
pub open spec fn has_other_value(updates: Seq<(String, JsonVal)>) -> bool {
    exists|i: int| 0 <= i < updates.len() && #[trigger] updates[i].1@ is Other
}

/// Updates exactly the columns present in `updates`, filtered by the key
/// column. An empty update set is rejected before anything touches the
/// engine; a key predicate matching no row is reported as a missing record.
pub fn update_table_row(
    conn: &rusqlite::Connection,
    table_name: &str,
    pk_column: &str,
    pk_value: &JsonVal,
    updates: &Vec<(String, JsonVal)>,
    column_types: &Option<Vec<(String, String)>>,
) -> (r: Result<bool, DbError>)
    ensures
        (updates@.len() == 0) <==> (r matches Err(e) && e is NoUpdatesProvided),
        r matches Ok(b) ==> b,
        (r matches Err(e) && e is UnsupportedValue) <==> (updates@.len() > 0 && (has_other_value(
            updates@,
        ) || pk_value@ is Other)),
{
    if updates.len() == 0 {
        return Err(DbError::NoUpdatesProvided);
    }
    let (names, mut params) = match build_update_params(updates, column_types) {
        Ok(pair) => pair,
        Err(e) => {
            return Err(e);
        },
    };
    match crate::coerce::convert_json_to_sql(pk_value, None) {
        Ok(v) => {
            proof {
                assert(!(pk_value@ is Other));
            }
            params.push(v);
        },
        Err(e) => {
            proof {
                assert(pk_value@ is Other);
            }
            return Err(e);
        },
    }
    let sql = crate::sqlbuild::update_sql(table_name, &names, pk_column);
    let engine_params = crate::engine::to_engine_values(&params);
    match crate::engine::execute(conn, sql.as_str(), &engine_params) {
        Ok(rows_affected) => not_found_when_zero(rows_affected, pk_column),
        Err(e) => Err(
            DbError::SqlExecution(crate::strutil::concat_str("Error al ejecutar UPDATE: ", e.as_str())),
        ),
    }
}

/// Deletes the rows matching the key; a key predicate matching no row is
/// reported as a missing record.
pub fn delete_table_row(
    conn: &rusqlite::Connection,
    table_name: &str,
    pk_column: &str,
    pk_value: &JsonVal,
) -> (r: Result<bool, DbError>)
    ensures
        r matches Ok(b) ==> b,
        (r matches Err(e) && e is UnsupportedValue) <==> pk_value@ is Other,
{
    let pk = match crate::coerce::convert_json_to_sql(pk_value, None) {
        Ok(v) => v,
        Err(e) => {
            return Err(e);
        },
    };
    let sql = crate::sqlbuild::delete_sql(table_name, pk_column);
    let mut params: Vec<SqlVal> = Vec::new();
    params.push(pk);
    let engine_params = crate::engine::to_engine_values(&params);
    match crate::engine::execute(conn, sql.as_str(), &engine_params) {
        Ok(rows_affected) => not_found_when_zero(rows_affected, pk_column),
        Err(e) => Err(
            DbError::SqlExecution(crate::strutil::concat_str("Error al ejecutar DELETE: ", e.as_str())),
        ),
    }
}

/// Whether a value can filter the single-record fetch: only text and numbers
/// can.
pub open spec fn usable_record_key(v: ValModel) -> bool {
    v is Int || v is Real || v is Str
}

/// Fetches one record by key, every column mapped to its JSON-safe form —
/// a blob as plain base64 text. Zero matching rows is a missing record; of
/// several matching rows the first is taken.
pub fn get_record_details(
    conn: &rusqlite::Connection,
    table_name: &str,
    id_column: &str,
    record_id: &JsonVal,
) -> (r: Result<crate::present::RecordDetails, DbError>)
    ensures
        r matches Ok(d) ==> d.table_name@ == table_name@,
        (r matches Err(e) && e is UnsupportedValue) ==> !usable_record_key(record_id@),
        !usable_record_key(record_id@) ==> r is Err,
        (r matches Err(e) && e is RecordNotFound) ==> usable_record_key(record_id@),
{
    let cols = match get_column_info(conn, table_name) {
        Ok(c) => c,
        Err(e) => {
            return Err(e);
        },
    };
    let pk = match record_id {
        JsonVal::Str(s) => SqlVal::Text(s.clone()),
        JsonVal::Int(i) => SqlVal::Int(*i),
        JsonVal::Real(s) => SqlVal::Real(s.clone()),
        _ => {
            let mut m = String::new();
            m.append("Unsupported record_id type");
            return Err(DbError::UnsupportedValue(m));
        },
    };
    let sql = crate::sqlbuild::select_by_key_sql(table_name, id_column);
    let mut params: Vec<SqlVal> = Vec::new();
    params.push(pk);
    let engine_params = crate::engine::to_engine_values(&params);
    let rows = match crate::engine::query_rows(conn, sql.as_str(), &engine_params) {
        Ok(rows) => rows,
        Err(e) => {
            return Err(
                DbError::SqlExecution(
                    crate::strutil::concat_str("Error fetching record: ", e.as_str()),
                ),
            );
        },
    };
    let record = match crate::present::present_fetched_record(&cols, &rows, id_column) {
        Ok(rec) => rec,
        Err(e) => {
            return Err(e);
        },
    };
    let mut tname = String::new();
    tname.append(table_name);
    Ok(crate::present::RecordDetails { table_name: tname, record })
}

/// Lists a whole table: the discovered column names and every row presented
/// for display, ordered by the numeric value of the designated ordering
/// column when the table has one. Every presented row carries exactly the
/// listed columns, in order.
pub fn consulta_tabla(conn: &rusqlite::Connection, table_name: &str) -> (r: Result<
    crate::present::TableData,
    DbError,
>)
    ensures
        r matches Ok(td) ==> td.table_name@ == table_name@ && (forall|i: int|
            0 <= i < td.rows@.len() ==> #[trigger] td.rows@[i]@.len() == td.columns@.len()
                && (forall|j: int|
                0 <= j < td.columns@.len() ==> (#[trigger] td.rows@[i]@[j].0)@
                    == td.columns@[j]@)),
{
    let cols = match get_column_info(conn, table_name) {
        Ok(c) => c,
        Err(e) => {
            return Err(e);
        },
    };
    if cols.len() == 0 {
        return Err(
            DbError::Schema(crate::strutil::concat_str("No existe la tabla: ", table_name)),
        );
    }
    let has_no = crate::schema::has_column(&cols, "No.");
    let sql = crate::sqlbuild::select_all_sql(table_name, has_no);
    let no_params: Vec<rusqlite::types::Value> = Vec::new();
    let rows = match crate::engine::query_rows(conn, sql.as_str(), &no_params) {
        Ok(rows) => rows,
        Err(e) => {
            return Err(
                DbError::SqlExecution(
                    crate::strutil::concat_str("Error al consultar los datos: ", e.as_str()),
                ),
            );
        },
    };
    let names = column_names(&cols);
    let out_rows = match crate::present::present_all_rows(&cols, &rows) {
        Ok(out) => out,
        Err(e) => {
            return Err(e);
        },
    };
    let mut tname = String::new();
    tname.append(table_name);
    Ok(crate::present::TableData { table_name: tname, columns: names, rows: out_rows })
}

} // verus!
