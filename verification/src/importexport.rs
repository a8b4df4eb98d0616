//! Exporting a table to a JSON document and importing one back, inside a
//! single transaction. The document carries the table's name, its verbatim
//! CREATE TABLE text, and its rows; on import under a new name the table name
//! inside the CREATE text is rewritten by a small recognizer for the
//! statement's head.
use vstd::prelude::*;
use crate::errors::DbError;
use crate::strutil::lower_seq;
use crate::values::{JsonVal, SqlVal, lookup_spec};

verus! {

/// The shape of an export document.
pub struct TableExport {
    pub table_name: String,
    pub create_statement: String,
    pub data: Vec<Vec<(String, JsonVal)>>,
}

/// The whitespace the statement head may carry between its words.
pub open spec fn is_space(c: char) -> bool {
    c == ' ' || c == '\t' || c == '\n' || c == '\r' || c == '\u{b}' || c == '\u{c}'
}

/// Whether a quote character an identifier may be wrapped in stands at a position.
pub open spec fn is_quote_char(c: char) -> bool {
    c == '"' || c == '`'
}

/// Whether the given word stands at position `i`, letter case ignored.
pub open spec fn word_at(s: Seq<char>, i: int, w: Seq<char>) -> bool {
    0 <= i && i + w.len() <= s.len() && lower_seq(s.subrange(i, i + w.len())) == lower_seq(w)
}

/// The first position at or after `i` that does not hold whitespace.
pub open spec fn skip_spaces(s: Seq<char>, i: int) -> int
    decreases s.len() - i,
    when 0 <= i <= s.len()
{
    if i < s.len() && is_space(s[i]) {
        skip_spaces(s, i + 1)
    } else {
        i
    }
}

/// The end of an `IF NOT EXISTS` group — the three words each followed by
/// whitespace — when one stands at position `d`.
pub open spec fn match_ine(s: Seq<char>, d: int) -> Option<int>
    recommends
        0 <= d <= s.len(),
{
    if !word_at(s, d, "IF"@) {
        None
    } else {
        let a = skip_spaces(s, d + 2);
        if a == d + 2 || !word_at(s, a, "NOT"@) {
            None
        } else {
            let b = skip_spaces(s, a + 3);
            if b == a + 3 || !word_at(s, b, "EXISTS"@) {
                None
            } else {
                let c = skip_spaces(s, b + 6);
                if c == b + 6 {
                    None
                } else {
                    Some(c)
                }
            }
        }
    }
}

/// One past a closing quote when one stands at the position.
pub open spec fn past_close_quote(s: Seq<char>, e: int) -> int {
    if 0 <= e < s.len() && is_quote_char(s[e]) {
        e + 1
    } else {
        e
    }
}

/// The end of the table-name token when the old name — optionally wrapped in
/// quote characters, letter case ignored — stands at position `p`.
pub open spec fn match_name(s: Seq<char>, p: int, old: Seq<char>) -> Option<int> {
    if 0 <= p < s.len() && is_quote_char(s[p]) && word_at(s, p + 1, old) {
        Some(past_close_quote(s, p + 1 + old.len()))
    } else if word_at(s, p, old) {
        Some(past_close_quote(s, p + old.len()))
    } else {
        None
    }
}

/// The head of a CREATE TABLE statement for the old name, when one stands at
/// position `i`: the result carries where the optional `IF NOT EXISTS` group
/// starts, where it ends, and where the whole head ends.
pub open spec fn match_header_at(s: Seq<char>, old: Seq<char>, i: int) -> Option<(int, int, int)>
    recommends
        0 <= i <= s.len(),
{
    if !word_at(s, i, "CREATE"@) {
        None
    } else {
        let a = skip_spaces(s, i + 6);
        if a == i + 6 || !word_at(s, a, "TABLE"@) {
            None
        } else {
            let d = skip_spaces(s, a + 5);
            if d == a + 5 {
                None
            } else {
                let g1e = match match_ine(s, d) {
                    Some(x) => x,
                    None => d,
                };
                match match_name(s, g1e, old) {
                    Some(end) => Some((d, g1e, end)),
                    None => if g1e != d {
                        match match_name(s, d, old) {
                            Some(end) => Some((d, d, end)),
                            None => None,
                        }
                    } else {
                        None
                    },
                }
            }
        }
    }
}

/// The first position at or after `i` where a CREATE TABLE head for the old
/// name stands, with the head's inner positions.
pub open spec fn find_header(s: Seq<char>, old: Seq<char>, i: int) -> Option<(int, int, int, int)>
    decreases s.len() - i,
    when 0 <= i <= s.len()
{
    if i >= s.len() {
        None
    } else {
        match match_header_at(s, old, i) {
            Some((d, g1e, end)) => Some((i, d, g1e, end)),
            None => find_header(s, old, i + 1),
        }
    }
}

/// The CREATE text with the first statement head for the old name rewritten
/// to carry the new name, quoted; the optional `IF NOT EXISTS` group is kept
/// as it stood. Text without such a head is returned unchanged.
pub open spec fn renamed_create(s: Seq<char>, old: Seq<char>, new: Seq<char>) -> Seq<char> {
    match find_header(s, old, 0) {
        Some((st, g1s, g1e, end)) => s.subrange(0, st) + "CREATE TABLE "@ + s.subrange(g1s, g1e)
            + seq!['"'] + new + seq!['"'] + s.subrange(end, s.len() as int),
        None => s,
    }
}

fn word_at_exec(s: &str, i: usize, w: &str) -> (r: bool)
    requires
        i <= s@.len(),
    ensures
        r == word_at(s@, i as int, w@),
{
    let n = s.unicode_len();
    let m = w.unicode_len();
    if m > n - i {
        return false;
    }
    let mut j: usize = 0;
    while j < m
        invariant
            j <= m,
            m == w@.len(),
            n == s@.len(),
            i + m <= n,
            forall|k: int|
                0 <= k < j ==> crate::strutil::lower_char(s@[i + k]) == crate::strutil::lower_char(
                    w@[k],
                ),
        decreases m - j,
    {
        let a = crate::strutil::lower_char_at(s, i + j);
        let b = crate::strutil::lower_char_at(w, j);
        if a != b {
            proof {
                let sub = s@.subrange(i as int, i as int + m as int);
                if lower_seq(sub) == lower_seq(w@) {
                    assert(lower_seq(sub)[j as int] == lower_seq(w@)[j as int]);
                    assert(sub[j as int] == s@[i + j]);
                }
            }
            return false;
        }
        j = j + 1;
    }
    proof {
        let sub = s@.subrange(i as int, i as int + m as int);
        assert(lower_seq(sub) =~= lower_seq(w@));
    }
    true
}

fn is_space_exec(c: char) -> (r: bool)
    ensures
        r == is_space(c),
{
    c == ' ' || c == '\t' || c == '\n' || c == '\r' || c == '\u{b}' || c == '\u{c}'
}

fn is_quote_char_exec(c: char) -> (r: bool)
    ensures
        r == is_quote_char(c),
{
    c == '"' || c == '`'
}

fn skip_spaces_exec(s: &str, i: usize) -> (r: usize)
    requires
        i <= s@.len(),
    ensures
        r as int == skip_spaces(s@, i as int),
        i <= r <= s@.len(),
{
    let n = s.unicode_len();
    let mut j: usize = i;
    while j < n
        invariant
            i <= j <= n,
            n == s@.len(),
            skip_spaces(s@, i as int) == skip_spaces(s@, j as int),
        decreases n - j,
    {
        let c = s.get_char(j);
        if is_space_exec(c) {
            j = j + 1;
        } else {
            return j;
        }
    }
    j
}

fn match_ine_exec(s: &str, d: usize) -> (r: Option<usize>)
    requires
        d <= s@.len(),
    ensures
        match r {
            Some(x) => match_ine(s@, d as int) == Some(x as int) && d <= x <= s@.len(),
            None => match_ine(s@, d as int) is None,
        },
{
    if !word_at_exec(s, d, "IF") {
        return None;
    }
    let n = s.unicode_len();
    proof {
        reveal_strlit("IF");
        reveal_strlit("NOT");
        reveal_strlit("EXISTS");
        assert(d + 2 <= n);
    }
    let a = skip_spaces_exec(s, d + 2);
    if a == d + 2 || !word_at_exec(s, a, "NOT") {
        return None;
    }
    proof {
        assert(a + 3 <= n);
    }
    let b = skip_spaces_exec(s, a + 3);
    if b == a + 3 || !word_at_exec(s, b, "EXISTS") {
        return None;
    }
    proof {
        assert(b + 6 <= n);
    }
    let c = skip_spaces_exec(s, b + 6);
    if c == b + 6 {
        None
    } else {
        Some(c)
    }
}

fn match_name_exec(s: &str, p: usize, old: &str) -> (r: Option<usize>)
    requires
        p <= s@.len(),
    ensures
        match r {
            Some(x) => match_name(s@, p as int, old@) == Some(x as int) && p <= x <= s@.len(),
            None => match_name(s@, p as int, old@) is None,
        },
{
    let n = s.unicode_len();
    let quoted_path = p < n && is_quote_char_exec(s.get_char(p)) && word_at_exec(s, p + 1, old);
    if quoted_path {
        let e = p + 1 + old.unicode_len();
        if e < n && is_quote_char_exec(s.get_char(e)) {
            Some(e + 1)
        } else {
            Some(e)
        }
    } else if word_at_exec(s, p, old) {
        let e = p + old.unicode_len();
        if e < n && is_quote_char_exec(s.get_char(e)) {
            Some(e + 1)
        } else {
            Some(e)
        }
    } else {
        None
    }
}

fn match_header_at_exec(s: &str, old: &str, i: usize) -> (r: Option<(usize, usize, usize)>)
    requires
        i <= s@.len(),
    ensures
        match r {
            Some((d, g1e, end)) => match_header_at(s@, old@, i as int) == Some(
                (d as int, g1e as int, end as int),
            ) && i <= d <= g1e <= end <= s@.len(),
            None => match_header_at(s@, old@, i as int) is None,
        },
{
    if !word_at_exec(s, i, "CREATE") {
        return None;
    }
    let n = s.unicode_len();
    proof {
        reveal_strlit("CREATE");
        reveal_strlit("TABLE");
        assert(i + 6 <= n);
    }
    let a = skip_spaces_exec(s, i + 6);
    if a == i + 6 || !word_at_exec(s, a, "TABLE") {
        return None;
    }
    proof {
        assert(a + 5 <= n);
    }
    let d = skip_spaces_exec(s, a + 5);
    if d == a + 5 {
        return None;
    }
    let g1e = match match_ine_exec(s, d) {
        Some(x) => x,
        None => d,
    };
    match match_name_exec(s, g1e, old) {
        Some(end) => Some((d, g1e, end)),
        None => {
            if g1e != d {
                match match_name_exec(s, d, old) {
                    Some(end) => Some((d, d, end)),
                    None => None,
                }
            } else {
                None
            }
        },
    }
}

/// Rewrites the table name inside a CREATE TABLE text: the first statement
/// head carrying the old name — letter case ignored, the name optionally
/// wrapped in quote characters, an `IF NOT EXISTS` group kept — gains the new
/// name, double-quoted. Text without such a head comes back unchanged.
pub fn rename_create_statement(stmt: &str, old_name: &str, new_name: &str) -> (r: String)
    ensures
        r@ == renamed_create(stmt@, old_name@, new_name@),
{
    let n = stmt.unicode_len();
    let mut i: usize = 0;
    proof {
        assert(0 <= 0 <= stmt@.len());
    }
    while i < n
        invariant
            i <= n,
            n == stmt@.len(),
            find_header(stmt@, old_name@, 0) == find_header(stmt@, old_name@, i as int),
        decreases n - i,
    {
        match match_header_at_exec(stmt, old_name, i) {
            Some((g1s, g1e, end)) => {
                let mut out = String::new();
                let prefix = stmt.substring_char(0, i);
                out.append(prefix);
                out.append("CREATE TABLE ");
                let kept = stmt.substring_char(g1s, g1e);
                out.append(kept);
                crate::strutil::push_char(&mut out, '"');
                out.append(new_name);
                crate::strutil::push_char(&mut out, '"');
                let suffix = stmt.substring_char(end, n);
                out.append(suffix);
                proof {
                    assert(out@ =~= renamed_create(stmt@, old_name@, new_name@));
                }
                return out;
            },
            None => {
                i = i + 1;
            },
        }
    }
    let mut out = String::new();
    out.append(stmt);
    proof {
        assert(out@ =~= stmt@);
    }
    out
}

/// Whether some value of some row is a structured value with no storage form.
pub open spec fn some_row_has_other(data: Seq<Vec<(String, JsonVal)>>) -> bool {
    exists|i: int, j: int|
        0 <= i < data.len() && 0 <= j < data[i]@.len() && (#[trigger] data[i]@[j].1)@ is Other
}

/// The verbatim CREATE TABLE text a fetched answer holds: the text of the
/// first cell of the first row, or nothing when the answer holds no such text
/// — the table does not exist.
pub open spec fn create_text_of(rows: Seq<Vec<SqlVal>>) -> Option<Seq<char>> {
    if rows.len() >= 1 && rows[0]@.len() >= 1 && rows[0]@[0]@ is Text {
        Some(rows[0]@[0]@->Text_0)
    } else {
        None
    }
}

/// Extracts the verbatim CREATE TABLE text from a fetched answer; an answer
/// without one is a schema failure.
fn extract_create_text(rows: &Vec<Vec<SqlVal>>) -> (r: Result<String, DbError>)
    ensures
        match r {
            Ok(t) => create_text_of(rows@) == Some(t@),
            Err(e) => create_text_of(rows@) is None && e is Schema,
        },
{
    if rows.len() >= 1 && rows[0].len() >= 1 {
        match &rows[0][0] {
            SqlVal::Text(sql) => Ok(sql.clone()),
            _ => {
                let mut m = String::new();
                m.append("No se pudo obtener la estructura de la tabla");
                Err(DbError::Schema(m))
            },
        }
    } else {
        let mut m = String::new();
        m.append("No se pudo obtener la estructura de la tabla");
        Err(DbError::Schema(m))
    }
}

/// Renders every fetched row as an export record: one record per row, in
/// order, each cell per the export rendering — blobs as null; a row whose
/// width differs from the column list fails the whole export, and nothing
/// else does.
fn export_rows(
    cols: &Vec<crate::schema::ColumnInfo>,
    rows: &Vec<Vec<SqlVal>>,
) -> (r: Result<Vec<Vec<(String, JsonVal)>>, DbError>)
    ensures
        (r is Err) <==> (exists|i: int|
            0 <= i < rows@.len() && (#[trigger] rows@[i])@.len() != cols@.len()),
        r matches Err(e) ==> e is Schema,
        r matches Ok(out) ==> out@.len() == rows@.len() && (forall|i: int|
            0 <= i < rows@.len() ==> (#[trigger] out@[i])@.len() == cols@.len()) && (forall|
            i: int,
            j: int,
        |
            0 <= i < rows@.len() && 0 <= j < cols@.len() ==> (#[trigger] out@[i]@[j].0)@
                == cols@[j].name@) && (forall|i: int, j: int|
            0 <= i < rows@.len() && 0 <= j < cols@.len() ==> (#[trigger] out@[i]@[j].1)@
                == crate::values::export_json_of(rows@[i]@[j]@)),
{
    let mut out: Vec<Vec<(String, JsonVal)>> = Vec::new();
    let mut i: usize = 0;
    while i < rows.len()
        invariant
            i <= rows@.len(),
            out@.len() == i,
            forall|k: int| 0 <= k < i ==> (#[trigger] rows@[k])@.len() == cols@.len(),
            forall|k: int| 0 <= k < i ==> (#[trigger] out@[k])@.len() == cols@.len(),
            forall|k: int, j: int|
                0 <= k < i && 0 <= j < cols@.len() ==> (#[trigger] out@[k]@[j].0)@
                    == cols@[j].name@,
            forall|k: int, j: int|
                0 <= k < i && 0 <= j < cols@.len() ==> (#[trigger] out@[k]@[j].1)@
                    == crate::values::export_json_of(rows@[k]@[j]@),
        decreases rows@.len() - i,
    {
        let row = &rows[i];
        if row.len() != cols.len() {
            let mut m = String::new();
            m.append("Error columnas");
            return Err(DbError::Schema(m));
        }
        let mut record: Vec<(String, JsonVal)> = Vec::new();
        let mut j: usize = 0;
        while j < cols.len()
            invariant
                row@.len() == cols@.len(),
                row@ == rows@[i as int]@,
                i < rows@.len(),
                j <= cols@.len(),
                record@.len() == j,
                forall|k: int| 0 <= k < j ==> (#[trigger] record@[k].0)@ == cols@[k].name@,
                forall|k: int|
                    0 <= k < j ==> (#[trigger] record@[k].1)@ == crate::values::export_json_of(
                        row@[k]@,
                    ),
            decreases cols@.len() - j,
        {
            let v = crate::values::rusqlite_to_json(row[j].duplicate());
            record.push((cols[j].name.clone(), v));
            j = j + 1;
        }
        out.push(record);
        i = i + 1;
    }
    Ok(out)
}

/// The column list of an import: the first row's keys, in order.
fn first_row_columns(row: &Vec<(String, JsonVal)>) -> (r: Vec<String>)
    ensures
        r@.len() == row@.len(),
        forall|i: int| 0 <= i < row@.len() ==> (#[trigger] r@[i])@ == row@[i].0@,
{
    let mut out: Vec<String> = Vec::new();
    let mut j: usize = 0;
    while j < row.len()
        invariant
            j <= row@.len(),
            out@.len() == j,
            forall|k: int| 0 <= k < j ==> (#[trigger] out@[k])@ == row@[k].0@,
        decreases row@.len() - j,
    {
        out.push(row[j].0.clone());
        j = j + 1;
    }
    out
}

/// What one imported cell stores: the row's value under the column, mapped by
/// the import rule, or NULL when the row has no such key; nothing when the
/// value is structured and has no storage form.
pub open spec fn import_cell_of(row: Seq<(String, JsonVal)>, key: Seq<char>) -> Option<
    crate::values::StoredModel,
> {
    match lookup_spec(row, key) {
        Some(v) => crate::values::import_stored_of(v),
        None => Some(crate::values::StoredModel::Null),
    }
}

/// Builds the bound row of one imported record: one value per column of the
/// insert, each per `import_cell_of`; a structured value fails the build, and
/// nothing else does.
fn build_import_params(row: &Vec<(String, JsonVal)>, columns: &Vec<String>) -> (r: Result<
    Vec<SqlVal>,
    DbError,
>)
    ensures
        match r {
            Ok(params) => params@.len() == columns@.len() && (forall|j: int|
                0 <= j < columns@.len() ==> Some((#[trigger] params@[j])@) == import_cell_of(
                    row@,
                    columns@[j]@,
                )),
            Err(e) => e is UnsupportedValue && crate::adapter::has_other_value(row@),
        },
{
    let mut params: Vec<SqlVal> = Vec::new();
    let mut j: usize = 0;
    while j < columns.len()
        invariant
            j <= columns@.len(),
            params@.len() == j,
            forall|k: int|
                0 <= k < j ==> Some((#[trigger] params@[k])@) == import_cell_of(
                    row@,
                    columns@[k]@,
                ),
        decreases columns@.len() - j,
    {
        let cell = match crate::values::lookup_value(row, columns[j].as_str()) {
            Some(v) => match crate::values::json_to_rusqlite(v) {
                Ok(c) => c,
                Err(e) => {
                    proof {
                        let key = columns@[j as int]@;
                        let vm = lookup_spec(row@, key)->Some_0;
                        assert(vm is Other);
                        crate::values::lemma_lookup_some_exists(row@, key, vm);
                    }
                    return Err(e);
                },
            },
            None => SqlVal::Null,
        };
        params.push(cell);
        j = j + 1;
    }
    Ok(params)
}

/// Exports a table: its verbatim CREATE TABLE text and every row as a JSON
/// record, blobs left out as null.
pub fn export_table_to_json(conn: &rusqlite::Connection, table_name: &str) -> (r: Result<
    TableExport,
    DbError,
>)
    ensures
        r matches Ok(te) ==> te.table_name@ == table_name@,
{
    let mut params: Vec<SqlVal> = Vec::new();
    let mut name_param = String::new();
    name_param.append(table_name);
    params.push(SqlVal::Text(name_param));
    let engine_params = crate::engine::to_engine_values(&params);
    let stmt_rows = match crate::engine::query_rows(
        conn,
        "SELECT sql FROM sqlite_master WHERE type='table' AND name=?1",
        &engine_params,
    ) {
        Ok(rows) => rows,
        Err(e) => {
            return Err(
                DbError::Schema(
                    crate::strutil::concat_str(
                        "No se pudo obtener la estructura de la tabla: ",
                        e.as_str(),
                    ),
                ),
            );
        },
    };
    let create_statement = match extract_create_text(&stmt_rows) {
        Ok(t) => t,
        Err(e) => {
            return Err(e);
        },
    };
    let cols = match crate::adapter::get_column_info(conn, table_name) {
        Ok(c) => c,
        Err(e) => {
            return Err(e);
        },
    };
    let sql = crate::sqlbuild::select_all_sql(table_name, false);
    let no_params: Vec<rusqlite::types::Value> = Vec::new();
    let rows = match crate::engine::query_rows(conn, sql.as_str(), &no_params) {
        Ok(rows) => rows,
        Err(e) => {
            return Err(DbError::SqlExecution(e));
        },
    };
    let data = match export_rows(&cols, &rows) {
        Ok(out) => out,
        Err(e) => {
            return Err(e);
        },
    };
    let mut tname = String::new();
    tname.append(table_name);
    Ok(TableExport { table_name: tname, create_statement, data })
}

/// Imports a table from an export document, refusing a name that already
/// exists.
pub fn import_table_from_json(conn: &mut rusqlite::Connection, import_data: &TableExport) -> (r:
    Result<bool, DbError>)
    ensures
        r matches Ok(b) ==> b,
        (r matches Err(e) && e is UnsupportedValue) ==> some_row_has_other(import_data.data@),
{
    import_table_from_json_internal(conn, import_data, false, &None)
}

/// Imports a table from an export document, optionally replacing an existing
/// table of the same name, optionally under a new name — the CREATE text is
/// rewritten accordingly.
pub fn import_table_from_json_with_options(
    conn: &mut rusqlite::Connection,
    import_data: &TableExport,
    force_replace: bool,
    new_table_name: &Option<String>,
) -> (r: Result<bool, DbError>)
    ensures
        r matches Ok(b) ==> b,
        (r matches Err(e) && e is UnsupportedValue) ==> some_row_has_other(import_data.data@),
{
    import_table_from_json_internal(conn, import_data, force_replace, new_table_name)
}

fn import_table_from_json_internal(
    conn: &mut rusqlite::Connection,
    import_data: &TableExport,
    force_replace: bool,
    new_table_name: &Option<String>,
) -> (r: Result<bool, DbError>)
    ensures
        r matches Ok(b) ==> b,
        (r matches Err(e) && e is UnsupportedValue) ==> some_row_has_other(import_data.data@),
{
    let final_name: &str = match new_table_name {
        Some(n) => n.as_str(),
        None => import_data.table_name.as_str(),
    };
    let exists = match crate::tables::check_table_exists(conn, final_name) {
        Ok(b) => b,
        Err(e) => {
            return Err(e);
        },
    };
    let mut m = String::new();
    m.append("La tabla '");
    m.append(final_name);
    m.append("' ya existe. ¿Desea reemplazarla o cambiar el nombre?");
    match crate::tables::refuse_existing_table(exists, force_replace, m) {
        Ok(_) => (),
        Err(e) => {
            return Err(e);
        },
    }
    let create_stmt: String = if !crate::strutil::str_eq(
        final_name,
        import_data.table_name.as_str(),
    ) {
        rename_create_statement(
            import_data.create_statement.as_str(),
            import_data.table_name.as_str(),
            final_name,
        )
    } else {
        import_data.create_statement.clone()
    };
    let drop_sql = crate::sqlbuild::drop_table_sql(final_name);
    let mut columns: Vec<String> = Vec::new();
    if import_data.data.len() > 0 {
        columns = first_row_columns(&import_data.data[0]);
    }
    let insert_stmt = crate::sqlbuild::insert_sql(final_name, &columns);

    let tx = match crate::engine::begin_transaction(conn) {
        Ok(tx) => tx,
        Err(e) => {
            return Err(DbError::SqlExecution(e));
        },
    };
    let no_params: Vec<rusqlite::types::Value> = Vec::new();
    if force_replace {
        match crate::engine::tx_execute(&tx, drop_sql.as_str(), &no_params) {
            Ok(_) => (),
            Err(e) => {
                return Err(DbError::SqlExecution(e));
            },
        }
    }
    match crate::engine::tx_execute(&tx, create_stmt.as_str(), &no_params) {
        Ok(_) => (),
        Err(e) => {
            return Err(
                DbError::SqlExecution(crate::strutil::concat_str("Error al crear tabla: ", e.as_str())),
            );
        },
    }
    let mut i: usize = 0;
    while i < import_data.data.len()
        invariant
            i <= import_data.data@.len(),
        decreases import_data.data@.len() - i,
    {
        let row = &import_data.data[i];
        let row_params = match build_import_params(row, &columns) {
            Ok(params) => params,
            Err(e) => {
                proof {
                    let k = choose|k: int|
                        0 <= k < row@.len() && (#[trigger] row@[k].1)@ is Other;
                    assert((import_data.data@[i as int]@[k].1)@ is Other);
                    assert(some_row_has_other(import_data.data@));
                }
                return Err(e);
            },
        };
        let engine_params = crate::engine::to_engine_values(&row_params);
        match crate::engine::tx_execute(&tx, insert_stmt.as_str(), &engine_params) {
            Ok(_) => (),
            Err(e) => {
                return Err(
                    DbError::SqlExecution(
                        crate::strutil::concat_str("Error insertando fila: ", e.as_str()),
                    ),
                );
            },
        }
        i = i + 1;
    }
    match crate::engine::tx_commit(tx) {
        Ok(_) => Ok(true),
        Err(e) => Err(
            DbError::SqlExecution(
                crate::strutil::concat_str("Error al confirmar transacción: ", e.as_str()),
            ),
        ),
    }
}

} // verus!
