//! Table and column management: creating, listing and dropping tables, adding
//! and dropping columns under the protected-column rule, and the raw,
//! caller-trusted statement runner.
use vstd::prelude::*;
use crate::errors::DbError;
use crate::schema::protected_spec;
use crate::values::SqlVal;

verus! {

/// One listed table and the path of its associated image, when the caller
/// has looked one up on disk.
pub struct TableInfo {
    pub name: String,
    pub image_path: Option<String>,
}

/// The kinds of column a table can gain: plain text, image bytes, or a date.
#[derive(Clone, Copy, Debug, PartialEq, Eq, Structural)]
pub enum ColumnType {
    Text,
    Image,
    DateTime,
}

/// A raw statement request: the database, the SQL text, and its positional
/// text parameters. No safety net — the caller is trusted.
pub struct ExecuteSqlParams {
    pub db_name: String,
    pub sql: String,
    pub params: Vec<String>,
}

/// The duplicate-table rule: a name that already exists is refused with
/// exactly the given message, unless replacement was asked for.
pub fn refuse_existing_table(exists: bool, force_replace: bool, message: String) -> (r: Result<
    (),
    DbError,
>)
    ensures
        (exists && !force_replace) <==> (r matches Err(e) && e matches DbError::DuplicateTable(m)
            && m@ == message@),
        (r is Ok) <==> !(exists && !force_replace),
{
    if exists && !force_replace {
        Err(DbError::DuplicateTable(message))
    } else {
        Ok(())
    }
}

/// Reads a COUNT(*) answer: whether the first cell of the first row is a
/// positive integer.
pub open spec fn count_answer_positive(rows: Seq<Vec<SqlVal>>) -> bool {
    rows.len() >= 1 && rows[0]@.len() >= 1 && (rows[0]@[0]@ matches
    crate::values::StoredModel::Int(n) && n > 0)
}

fn read_count_positive(rows: &Vec<Vec<SqlVal>>) -> (r: bool)
    ensures
        r == count_answer_positive(rows@),
{
    if rows.len() >= 1 && rows[0].len() >= 1 {
        match &rows[0][0] {
            SqlVal::Int(n) => *n > 0,
            _ => false,
        }
    } else {
        false
    }
}

/// Creates a table with its initial key column, refusing a name that already
/// exists.
pub fn create_table(conn: &rusqlite::Connection, table_name: &str) -> (r: Result<(), DbError>)
    ensures
        r matches Err(e) ==> (e is DuplicateTable || e is SqlExecution),
{
    let exists = match check_table_exists(conn, table_name) {
        Ok(b) => b,
        Err(e) => {
            return Err(e);
        },
    };
    let mut m = String::new();
    m.append("La tabla '");
    m.append(table_name);
    m.append("' ya existe. Por favor, utilice otro nombre.");
    match refuse_existing_table(exists, false, m) {
        Ok(_) => (),
        Err(e) => {
            return Err(e);
        },
    }
    let sql = crate::sqlbuild::create_table_sql(table_name);
    let no_params: Vec<rusqlite::types::Value> = Vec::new();
    match crate::engine::execute(conn, sql.as_str(), &no_params) {
        Ok(_) => Ok(()),
        Err(e) => Err(
            DbError::SqlExecution(crate::strutil::concat_str("Error al crear la tabla: ", e.as_str())),
        ),
    }
}

/// Whether a table of the given name exists.
pub fn check_table_exists(conn: &rusqlite::Connection, table_name: &str) -> (r: Result<
    bool,
    DbError,
>)
    ensures
        r matches Err(e) ==> e is SqlExecution,
{
    let mut params: Vec<SqlVal> = Vec::new();
    let mut name = String::new();
    name.append(table_name);
    params.push(SqlVal::Text(name));
    let engine_params = crate::engine::to_engine_values(&params);
    let rows = match crate::engine::query_rows(
        conn,
        "SELECT COUNT(*) FROM sqlite_master WHERE type='table' AND name=?",
        &engine_params,
    ) {
        Ok(rows) => rows,
        Err(e) => {
            return Err(
                DbError::SqlExecution(
                    crate::strutil::concat_str("Error al ejecutar la consulta: ", e.as_str()),
                ),
            );
        },
    };
    Ok(read_count_positive(&rows))
}

/// Whether the table has a column of exactly the given name. A table the
/// engine does not know is a schema failure, not a false answer.
pub fn check_column_exists(conn: &rusqlite::Connection, table_name: &str, column_name: &str) -> (r:
    Result<bool, DbError>)
    ensures
        r matches Err(e) ==> e is Schema,
{
    let cols = match crate::adapter::get_column_info(conn, table_name) {
        Ok(c) => c,
        Err(e) => {
            return Err(e);
        },
    };
    Ok(crate::schema::has_column(&cols, column_name))
}

/// Whether every fetched row names a table: a text value in its first cell.
pub open spec fn all_rows_name_tables(rows: Seq<Vec<SqlVal>>) -> bool {
    forall|i: int|
        0 <= i < rows.len() ==> (#[trigger] rows[i])@.len() >= 1 && rows[i]@[0]@ is Text
}

/// Reads the fetched table names: one entry per row, the text of its first
/// cell, in order; a row without a text name fails the whole reading.
fn read_table_names(rows: &Vec<Vec<SqlVal>>) -> (r: Result<Vec<String>, DbError>)
    ensures
        (r is Ok) <==> all_rows_name_tables(rows@),
        r matches Err(e) ==> e is SqlExecution,
        r matches Ok(names) ==> names@.len() == rows@.len() && (forall|i: int|
            0 <= i < rows@.len() ==> (rows@[i]@[0]@ matches crate::values::StoredModel::Text(t)
                && (#[trigger] names@[i])@ == t)),
{
    let mut names: Vec<String> = Vec::new();
    let mut i: usize = 0;
    while i < rows.len()
        invariant
            i <= rows@.len(),
            names@.len() == i,
            forall|k: int|
                0 <= k < i ==> (#[trigger] rows@[k])@.len() >= 1 && rows@[k]@[0]@ is Text,
            forall|k: int|
                0 <= k < i ==> (rows@[k]@[0]@ matches crate::values::StoredModel::Text(t) && (
                #[trigger] names@[k])@ == t),
        decreases rows@.len() - i,
    {
        if rows[i].len() >= 1 {
            match &rows[i][0] {
                SqlVal::Text(name) => {
                    names.push(name.clone());
                },
                _ => {
                    let mut m = String::new();
                    m.append("Error al obtener nombre de tabla");
                    return Err(DbError::SqlExecution(m));
                },
            }
        } else {
            let mut m = String::new();
            m.append("Error al obtener nombre de tabla");
            return Err(DbError::SqlExecution(m));
        }
        i = i + 1;
    }
    Ok(names)
}

/// Lists the user tables of the database: one entry per fetched row, in
/// order, named by the row's text cell. Image lookup is the caller's: every
/// entry comes back without one.
pub fn list_tables(conn: &rusqlite::Connection) -> (r: Result<Vec<TableInfo>, DbError>)
    ensures
        r matches Ok(v) ==> forall|i: int| 0 <= i < v@.len() ==> (#[trigger] v@[i].image_path) is None,
{
    let no_params: Vec<rusqlite::types::Value> = Vec::new();
    let rows = match crate::engine::query_rows(
        conn,
        "SELECT name FROM sqlite_master WHERE type='table' AND name NOT LIKE 'sqlite_%'",
        &no_params,
    ) {
        Ok(rows) => rows,
        Err(e) => {
            return Err(
                DbError::SqlExecution(
                    crate::strutil::concat_str("Error al ejecutar la consulta: ", e.as_str()),
                ),
            );
        },
    };
    let names = match read_table_names(&rows) {
        Ok(names) => names,
        Err(e) => {
            return Err(e);
        },
    };
    let mut tables: Vec<TableInfo> = Vec::new();
    let mut i: usize = 0;
    while i < names.len()
        invariant
            i <= names@.len(),
            tables@.len() == i,
            forall|k: int| 0 <= k < i ==> (#[trigger] tables@[k].image_path) is None,
            forall|k: int| 0 <= k < i ==> (#[trigger] tables@[k].name)@ == names@[k]@,
        decreases names@.len() - i,
    {
        tables.push(TableInfo { name: names[i].clone(), image_path: None });
        i = i + 1;
    }
    Ok(tables)
}

/// Drops a table if it exists. Cleaning up an associated image file is the
/// caller's.
pub fn delete_table(conn: &rusqlite::Connection, table_name: &str) -> (r: Result<(), DbError>)
    ensures
        r matches Err(e) ==> e is SqlExecution,
{
    let sql = crate::sqlbuild::drop_table_sql(table_name);
    let no_params: Vec<rusqlite::types::Value> = Vec::new();
    match crate::engine::execute(conn, sql.as_str(), &no_params) {
        Ok(_) => Ok(()),
        Err(e) => Err(
            DbError::SqlExecution(
                crate::strutil::concat_str("Error al eliminar la tabla: ", e.as_str()),
            ),
        ),
    }
}

/// The SQL type a column kind maps to in the ALTER TABLE text.
pub open spec fn sql_type_of(kind: ColumnType) -> Seq<char> {
    match kind {
        ColumnType::Text => "TEXT"@,
        ColumnType::Image => "BLOB"@,
        ColumnType::DateTime => "DATETIME"@,
    }
}

fn sql_type_for(kind: ColumnType) -> (r: &'static str)
    ensures
        r@ == sql_type_of(kind),
{
    match kind {
        ColumnType::Text => "TEXT",
        ColumnType::Image => "BLOB",
        ColumnType::DateTime => "DATETIME",
    }
}

/// Adds a column of the chosen kind, refusing a protected name whatever the
/// kind, and a name already present regardless of its letter case.
pub fn add_new_column(
    conn: &rusqlite::Connection,
    table_name: &str,
    column_name: &str,
    column_type: ColumnType,
) -> (r: Result<(), DbError>)
    ensures
        protected_spec(column_name@) <==> (r matches Err(e) && e is ProtectedColumn),
        r is Ok ==> !protected_spec(column_name@),
{
    if crate::schema::is_protected_column(column_name) {
        return Err(
            DbError::ProtectedColumn(protected_message(column_name)),
        );
    }
    let cols = match crate::adapter::get_column_info(conn, table_name) {
        Ok(c) => c,
        Err(e) => {
            return Err(e);
        },
    };
    let mut m = String::new();
    m.append("Column '");
    m.append(column_name);
    m.append("' already exists in table '");
    m.append(table_name);
    m.append("'");
    match crate::schema::refuse_duplicate_column(&cols, column_name, m) {
        Ok(_) => (),
        Err(e) => {
            return Err(e);
        },
    }
    let sql_type = sql_type_for(column_type);
    let sql = crate::sqlbuild::add_column_sql(table_name, column_name, sql_type);
    let no_params: Vec<rusqlite::types::Value> = Vec::new();
    match crate::engine::execute(conn, sql.as_str(), &no_params) {
        Ok(_) => Ok(()),
        Err(e) => Err(
            DbError::SqlExecution(
                crate::strutil::concat_str("Error al agregar la columna: ", e.as_str()),
            ),
        ),
    }
}

/// How an engine rejection of an added column is classified: a message that
/// names a duplicate column is the duplicate error, anything else a plain
/// statement failure.
fn map_add_column_error(e: String) -> (r: DbError)
    ensures
        crate::strutil::contains_sub(e@, "duplicate column name"@) <==> r is DuplicateColumn,
        !crate::strutil::contains_sub(e@, "duplicate column name"@) <==> r is SqlExecution,
{
    if crate::strutil::str_contains(e.as_str(), "duplicate column name") {
        let mut m = String::new();
        m.append("La columna ya existe");
        DbError::DuplicateColumn(m)
    } else {
        DbError::SqlExecution(e)
    }
}

/// Adds a date column, refusing a name already present regardless of case.
pub fn add_date_column(conn: &rusqlite::Connection, table_name: &str, column_name: &str) -> (r:
    Result<(), DbError>)
    ensures
        r matches Err(e) ==> (e is DuplicateColumn || e is Schema || e is SqlExecution),
{
    let cols = match crate::adapter::get_column_info(conn, table_name) {
        Ok(c) => c,
        Err(e) => {
            return Err(e);
        },
    };
    let mut m = String::new();
    m.append("La columna ya existe");
    match crate::schema::refuse_duplicate_column(&cols, column_name, m) {
        Ok(_) => (),
        Err(e) => {
            return Err(e);
        },
    }
    let sql = crate::sqlbuild::add_column_sql(table_name, column_name, "DATETIME");
    let no_params: Vec<rusqlite::types::Value> = Vec::new();
    match crate::engine::execute(conn, sql.as_str(), &no_params) {
        Ok(_) => Ok(()),
        Err(e) => Err(map_add_column_error(e)),
    }
}

/// Drops a column, refusing a protected name. An engine rejection is reported
/// as the engine being too old: column dropping needs a recent version of it.
pub fn delete_column(conn: &rusqlite::Connection, table_name: &str, column_name: &str) -> (r:
    Result<(), DbError>)
    ensures
        protected_spec(column_name@) <==> (r matches Err(e) && e is ProtectedColumn),
        r is Ok ==> !protected_spec(column_name@),
        r matches Err(e) ==> (e is ProtectedColumn || e is UnsupportedEngineFeature),
{
    if crate::schema::is_protected_column(column_name) {
        return Err(
            DbError::ProtectedColumn(protected_message(column_name)),
        );
    }
    let sql = crate::sqlbuild::drop_column_sql(table_name, column_name);
    let no_params: Vec<rusqlite::types::Value> = Vec::new();
    match crate::engine::execute(conn, sql.as_str(), &no_params) {
        Ok(_) => Ok(()),
        Err(e) => {
            let mut m = String::new();
            m.append("Error al eliminar la columna: ");
            m.append(e.as_str());
            m.append(". Es posible que su versión de SQLite no soporte DROP COLUMN.");
            Err(DbError::UnsupportedEngineFeature(m))
        },
    }
}

fn protected_message(column_name: &str) -> (r: String)
    ensures
        r@ == "La columna '"@ + column_name@ + "' está protegida."@,
{
    let mut m = String::new();
    m.append("La columna '");
    m.append(column_name);
    m.append("' está protegida.");
    m
}

/// Wraps positional parameters for binding: one text value per given string,
/// in order.
pub fn text_params(params: &Vec<String>) -> (r: Vec<SqlVal>)
    ensures
        r@.len() == params@.len(),
        forall|i: int|
            0 <= i < params@.len() ==> (#[trigger] r@[i])@ == crate::values::StoredModel::Text(
                params@[i]@,
            ),
{
    let mut values: Vec<SqlVal> = Vec::new();
    let mut i: usize = 0;
    while i < params.len()
        invariant
            i <= params@.len(),
            values@.len() == i,
            forall|k: int|
                0 <= k < i ==> (#[trigger] values@[k])@ == crate::values::StoredModel::Text(
                    params@[k]@,
                ),
        decreases params@.len() - i,
    {
        values.push(SqlVal::Text(params[i].clone()));
        i = i + 1;
    }
    values
}

/// Runs a caller-trusted statement with positional text parameters, each
/// given string bound as text, in order.
pub fn execute_sql(conn: &rusqlite::Connection, params: &ExecuteSqlParams) -> (r: Result<
    bool,
    DbError,
>)
    ensures
        r matches Ok(b) ==> b,
        r matches Err(e) ==> e is SqlExecution,
{
    let values = text_params(&params.params);
    let engine_params = crate::engine::to_engine_values(&values);
    match crate::engine::execute(conn, params.sql.as_str(), &engine_params) {
        Ok(_) => Ok(true),
        Err(e) => Err(
            DbError::SqlExecution(crate::strutil::concat_str("Error al ejecutar SQL: ", e.as_str())),
        ),
    }
}

} // verus!
