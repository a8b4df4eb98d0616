//! Builders for the SQL text of the record engine. Every identifier embedded
//! in the text passes through `quote_identifier`; values never do — they are
//! always left to bound parameters, each shown as `?` here.
use vstd::prelude::*;
use crate::quoting::{quote_identifier, quoted};

verus! {

/// A comma-separated list of quoted identifiers.
pub open spec fn quoted_list(cols: Seq<Seq<char>>) -> Seq<char>
    decreases cols.len(),
{
    if cols.len() == 0 {
        Seq::empty()
    } else if cols.len() == 1 {
        quoted(cols[0])
    } else {
        quoted_list(cols.drop_last()) + ", "@ + quoted(cols.last())
    }
}

/// A comma-separated list of `n` parameter placeholders.
pub open spec fn placeholder_list(n: nat) -> Seq<char>
    decreases n,
{
    if n == 0 {
        Seq::empty()
    } else if n == 1 {
        "?"@
    } else {
        placeholder_list((n - 1) as nat) + ", ?"@
    }
}

/// A comma-separated list of `quoted name = ?` assignments.
pub open spec fn set_clause(cols: Seq<Seq<char>>) -> Seq<char>
    decreases cols.len(),
{
    if cols.len() == 0 {
        Seq::empty()
    } else if cols.len() == 1 {
        quoted(cols[0]) + " = ?"@
    } else {
        set_clause(cols.drop_last()) + ", "@ + quoted(cols.last()) + " = ?"@
    }
}

fn append_quoted_list(out: &mut String, cols: &Vec<String>)
    ensures
        final(out)@ == old(out)@ + quoted_list(cols.deep_view()),
{
    let ghost base = out@;
    let mut i: usize = 0;
    while i < cols.len()
        invariant
            i <= cols@.len(),
            out@ == base + quoted_list(cols.deep_view().subrange(0, i as int)),
        decreases cols@.len() - i,
    {
        if i > 0 {
            out.append(", ");
        }
        let q = quote_identifier(cols[i].as_str());
        out.append(q.as_str());
        proof {
            let dv = cols.deep_view();
            assert(dv.subrange(0, i + 1).drop_last() =~= dv.subrange(0, i as int));
            assert(dv.subrange(0, i + 1).last() == dv[i as int]);
            if i == 0 {
                assert(quoted_list(dv.subrange(0, 1)) == quoted(dv[0]));
            }
            assert(out@ =~= base + quoted_list(dv.subrange(0, i + 1)));
        }
        i = i + 1;
    }
    proof {
        assert(cols.deep_view().subrange(0, cols@.len() as int) =~= cols.deep_view());
    }
}

fn append_placeholders(out: &mut String, n: usize)
    ensures
        final(out)@ == old(out)@ + placeholder_list(n as nat),
{
    let ghost base = out@;
    let mut i: usize = 0;
    while i < n
        invariant
            i <= n,
            out@ == base + placeholder_list(i as nat),
        decreases n - i,
    {
        if i > 0 {
            out.append(", ?");
        } else {
            out.append("?");
        }
        proof {
            assert(out@ =~= base + placeholder_list((i + 1) as nat));
        }
        i = i + 1;
    }
}

fn append_set_clause(out: &mut String, cols: &Vec<String>)
    ensures
        final(out)@ == old(out)@ + set_clause(cols.deep_view()),
{
    let ghost base = out@;
    let mut i: usize = 0;
    while i < cols.len()
        invariant
            i <= cols@.len(),
            out@ == base + set_clause(cols.deep_view().subrange(0, i as int)),
        decreases cols@.len() - i,
    {
        if i > 0 {
            out.append(", ");
        }
        let q = quote_identifier(cols[i].as_str());
        out.append(q.as_str());
        out.append(" = ?");
        proof {
            let dv = cols.deep_view();
            assert(dv.subrange(0, i + 1).drop_last() =~= dv.subrange(0, i as int));
            assert(dv.subrange(0, i + 1).last() == dv[i as int]);
            if i == 0 {
                assert(set_clause(dv.subrange(0, 1)) == quoted(dv[0]) + " = ?"@);
            }
            assert(out@ =~= base + set_clause(dv.subrange(0, i + 1)));
        }
        i = i + 1;
    }
    proof {
        assert(cols.deep_view().subrange(0, cols@.len() as int) =~= cols.deep_view());
    }
}

/// The introspection statement for a table's columns.
pub open spec fn pragma_table_info_sql_spec(table: Seq<char>) -> Seq<char> {
    "PRAGMA table_info("@ + quoted(table) + ")"@
}

/// Builds the introspection statement for a table's columns.
pub fn pragma_table_info_sql(table: &str) -> (r: String)
    ensures
        r@ == pragma_table_info_sql_spec(table@),
{
    let mut out = String::new();
    out.append("PRAGMA table_info(");
    let q = quote_identifier(table);
    out.append(q.as_str());
    out.append(")");
    proof {
        assert(out@ =~= pragma_table_info_sql_spec(table@));
    }
    out
}

/// The statement that reads every non-null, non-empty identifier value of the
/// managed column, cast to an integer.
pub open spec fn id_values_sql_spec(table: Seq<char>, id: Seq<char>) -> Seq<char> {
    "SELECT CAST("@ + quoted(id) + " AS INTEGER) FROM "@ + quoted(table) + " WHERE "@ + quoted(id)
        + " IS NOT NULL AND "@ + quoted(id) + " != ''"@
}

/// Builds the statement that reads the managed identifier column's values.
pub fn id_values_sql(table: &str, id: &str) -> (r: String)
    ensures
        r@ == id_values_sql_spec(table@, id@),
{
    let q_id = quote_identifier(id);
    let q_table = quote_identifier(table);
    let mut out = String::new();
    out.append("SELECT CAST(");
    out.append(q_id.as_str());
    out.append(" AS INTEGER) FROM ");
    out.append(q_table.as_str());
    out.append(" WHERE ");
    out.append(q_id.as_str());
    out.append(" IS NOT NULL AND ");
    out.append(q_id.as_str());
    out.append(" != ''");
    proof {
        assert(out@ =~= id_values_sql_spec(table@, id@));
    }
    out
}

/// The insert statement touching the given columns, one placeholder each.
pub open spec fn insert_sql_spec(table: Seq<char>, cols: Seq<Seq<char>>) -> Seq<char> {
    "INSERT INTO "@ + quoted(table) + " ("@ + quoted_list(cols) + ") VALUES ("@ + placeholder_list(
        cols.len(),
    ) + ")"@
}

/// Builds the insert statement touching the given columns.
pub fn insert_sql(table: &str, cols: &Vec<String>) -> (r: String)
    ensures
        r@ == insert_sql_spec(table@, cols.deep_view()),
{
    let mut out = String::new();
    out.append("INSERT INTO ");
    let q = quote_identifier(table);
    out.append(q.as_str());
    out.append(" (");
    append_quoted_list(&mut out, cols);
    out.append(") VALUES (");
    append_placeholders(&mut out, cols.len());
    out.append(")");
    proof {
        assert(out@ =~= insert_sql_spec(table@, cols.deep_view()));
    }
    out
}

/// The sparse update statement: assignments for the given columns, filtered
/// by the key column.
pub open spec fn update_sql_spec(table: Seq<char>, cols: Seq<Seq<char>>, key: Seq<char>) -> Seq<
    char,
> {
    "UPDATE "@ + quoted(table) + " SET "@ + set_clause(cols) + " WHERE "@ + quoted(key) + " = ?"@
}

/// Builds the sparse update statement.
pub fn update_sql(table: &str, cols: &Vec<String>, key: &str) -> (r: String)
    ensures
        r@ == update_sql_spec(table@, cols.deep_view(), key@),
{
    let mut out = String::new();
    out.append("UPDATE ");
    let q = quote_identifier(table);
    out.append(q.as_str());
    out.append(" SET ");
    append_set_clause(&mut out, cols);
    out.append(" WHERE ");
    let qk = quote_identifier(key);
    out.append(qk.as_str());
    out.append(" = ?");
    proof {
        assert(out@ =~= update_sql_spec(table@, cols.deep_view(), key@));
    }
    out
}

/// The delete statement filtered by the key column.
pub open spec fn delete_sql_spec(table: Seq<char>, key: Seq<char>) -> Seq<char> {
    "DELETE FROM "@ + quoted(table) + " WHERE "@ + quoted(key) + " = ?"@
}

/// Builds the delete statement.
pub fn delete_sql(table: &str, key: &str) -> (r: String)
    ensures
        r@ == delete_sql_spec(table@, key@),
{
    let mut out = String::new();
    out.append("DELETE FROM ");
    let q = quote_identifier(table);
    out.append(q.as_str());
    out.append(" WHERE ");
    let qk = quote_identifier(key);
    out.append(qk.as_str());
    out.append(" = ?");
    proof {
        assert(out@ =~= delete_sql_spec(table@, key@));
    }
    out
}

/// The single-row select filtered by the key column.
pub open spec fn select_by_key_sql_spec(table: Seq<char>, key: Seq<char>) -> Seq<char> {
    "SELECT * FROM "@ + quoted(table) + " WHERE "@ + quoted(key) + " = ?"@
}

/// Builds the single-row select.
pub fn select_by_key_sql(table: &str, key: &str) -> (r: String)
    ensures
        r@ == select_by_key_sql_spec(table@, key@),
{
    let mut out = String::new();
    out.append("SELECT * FROM ");
    let q = quote_identifier(table);
    out.append(q.as_str());
    out.append(" WHERE ");
    let qk = quote_identifier(key);
    out.append(qk.as_str());
    out.append(" = ?");
    proof {
        assert(out@ =~= select_by_key_sql_spec(table@, key@));
    }
    out
}

/// The whole-table select, ordered by the numeric value of the designated
/// ordering column when the table has one.
pub open spec fn select_all_sql_spec(table: Seq<char>, order_by_no: bool) -> Seq<char> {
    "SELECT * FROM "@ + quoted(table) + (if order_by_no {
        " ORDER BY CAST("@ + quoted("No."@) + " AS INTEGER) ASC"@
    } else {
        Seq::<char>::empty()
    })
}

/// Builds the whole-table select.
pub fn select_all_sql(table: &str, order_by_no: bool) -> (r: String)
    ensures
        r@ == select_all_sql_spec(table@, order_by_no),
{
    let mut out = String::new();
    out.append("SELECT * FROM ");
    let q = quote_identifier(table);
    out.append(q.as_str());
    if order_by_no {
        out.append(" ORDER BY CAST(");
        let qn = quote_identifier("No.");
        out.append(qn.as_str());
        out.append(" AS INTEGER) ASC");
    }
    proof {
        assert(out@ =~= select_all_sql_spec(table@, order_by_no));
    }
    out
}

/// The statement creating a fresh table with its initial key column.
pub open spec fn create_table_sql_spec(table: Seq<char>) -> Seq<char> {
    "CREATE TABLE "@ + quoted(table) + " (id TEXT PRIMARY KEY)"@
}

/// Builds the statement creating a fresh table.
pub fn create_table_sql(table: &str) -> (r: String)
    ensures
        r@ == create_table_sql_spec(table@),
{
    let mut out = String::new();
    out.append("CREATE TABLE ");
    let q = quote_identifier(table);
    out.append(q.as_str());
    out.append(" (id TEXT PRIMARY KEY)");
    proof {
        assert(out@ =~= create_table_sql_spec(table@));
    }
    out
}

/// The statement adding a column of the given SQL type.
pub open spec fn add_column_sql_spec(table: Seq<char>, col: Seq<char>, sql_type: Seq<char>) -> Seq<
    char,
> {
    "ALTER TABLE "@ + quoted(table) + " ADD COLUMN "@ + quoted(col) + " "@ + sql_type
}

/// Builds the statement adding a column.
pub fn add_column_sql(table: &str, col: &str, sql_type: &str) -> (r: String)
    ensures
        r@ == add_column_sql_spec(table@, col@, sql_type@),
{
    let mut out = String::new();
    out.append("ALTER TABLE ");
    let q = quote_identifier(table);
    out.append(q.as_str());
    out.append(" ADD COLUMN ");
    let qc = quote_identifier(col);
    out.append(qc.as_str());
    out.append(" ");
    out.append(sql_type);
    proof {
        assert(out@ =~= add_column_sql_spec(table@, col@, sql_type@));
    }
    out
}

/// The statement dropping a column.
pub open spec fn drop_column_sql_spec(table: Seq<char>, col: Seq<char>) -> Seq<char> {
    "ALTER TABLE "@ + quoted(table) + " DROP COLUMN "@ + quoted(col)
}

/// Builds the statement dropping a column.
pub fn drop_column_sql(table: &str, col: &str) -> (r: String)
    ensures
        r@ == drop_column_sql_spec(table@, col@),
{
    let mut out = String::new();
    out.append("ALTER TABLE ");
    let q = quote_identifier(table);
    out.append(q.as_str());
    out.append(" DROP COLUMN ");
    let qc = quote_identifier(col);
    out.append(qc.as_str());
    proof {
        assert(out@ =~= drop_column_sql_spec(table@, col@));
    }
    out
}

/// The statement dropping a table if it exists.
pub open spec fn drop_table_sql_spec(table: Seq<char>) -> Seq<char> {
    "DROP TABLE IF EXISTS "@ + quoted(table)
}

/// Builds the statement dropping a table.
pub fn drop_table_sql(table: &str) -> (r: String)
    ensures
        r@ == drop_table_sql_spec(table@),
{
    let mut out = String::new();
    out.append("DROP TABLE IF EXISTS ");
    let q = quote_identifier(table);
    out.append(q.as_str());
    proof {
        assert(out@ =~= drop_table_sql_spec(table@));
    }
    out
}

} // verus!
