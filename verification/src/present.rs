//! Presentation of stored rows at the command surface: every column is mapped
//! to a JSON-safe value, blobs becoming base64 text. A blob too large for the
//! encoder (its text would not fit in memory) is presented as its byte count
//! instead; on any realizable row that case never arises.
use vstd::prelude::*;
use crate::codec::{b64_decode_of, b64_encode_of};
use crate::schema::{ColClass, ColumnInfo, class_of};
use crate::strutil::dec_of;
use crate::values::{JsonVal, SqlVal, StoredModel, ValModel};

verus! {

/// Whether a blob of this length can be encoded to base64 text.
pub open spec fn encodable(len: nat) -> bool {
    len <= usize::MAX as nat / 4
}

/// The byte-count presentation of a blob that is not shown as base64.
pub open spec fn blob_size_text(len: nat) -> Seq<char> {
    "BLOB("@ + dec_of(len) + " bytes)"@
}

/// How one stored cell is presented in a table listing: a blob in a
/// BLOB-typed column becomes a base64 data URI; a blob anywhere else is
/// summarized as its byte count.
pub open spec fn list_cell_of(v: StoredModel, class: ColClass) -> ValModel {
    match v {
        StoredModel::Null => ValModel::Null,
        StoredModel::Int(i) => ValModel::Int(i),
        StoredModel::Real(s) => ValModel::Real(s),
        StoredModel::Text(s) => ValModel::Str(s),
        StoredModel::Blob(b) => if class == ColClass::Blob && encodable(b.len()) {
            ValModel::Str("data:image/png;base64,"@ + b64_encode_of(b))
        } else {
            ValModel::Str(blob_size_text(b.len()))
        },
    }
}

/// How one stored cell is presented when a single record is fetched: a blob
/// becomes plain base64 text, whatever the column's declared type.
pub open spec fn detail_cell_of(v: StoredModel) -> ValModel {
    match v {
        StoredModel::Null => ValModel::Null,
        StoredModel::Int(i) => ValModel::Int(i),
        StoredModel::Real(s) => ValModel::Real(s),
        StoredModel::Text(s) => ValModel::Str(s),
        StoredModel::Blob(b) => if encodable(b.len()) {
            ValModel::Str(b64_encode_of(b))
        } else {
            ValModel::Str(blob_size_text(b.len()))
        },
    }
}

fn blob_size_string(len: usize) -> (r: String)
    ensures
        r@ == blob_size_text(len as nat),
{
    let mut out = String::new();
    out.append("BLOB(");
    let d = crate::strutil::usize_to_string(len);
    out.append(d.as_str());
    out.append(" bytes)");
    proof {
        assert(out@ =~= blob_size_text(len as nat));
    }
    out
}

/// Presents one stored cell for a table listing.
pub fn list_cell(v: &SqlVal, class: ColClass) -> (r: JsonVal)
    ensures
        r@ == list_cell_of(v@, class),
{
    match v {
        SqlVal::Null => JsonVal::Null,
        SqlVal::Int(i) => JsonVal::Int(*i),
        SqlVal::Real(s) => JsonVal::Real(s.clone()),
        SqlVal::Text(s) => JsonVal::Str(s.clone()),
        SqlVal::Blob(b) => {
            if class == ColClass::Blob && b.len() <= usize::MAX / 4 {
                let mut out = String::new();
                out.append("data:image/png;base64,");
                let enc = crate::codec::b64_encode(b);
                out.append(enc.as_str());
                proof {
                    assert(out@ =~= "data:image/png;base64,"@ + b64_encode_of(b@));
                }
                JsonVal::Str(out)
            } else {
                JsonVal::Str(blob_size_string(b.len()))
            }
        },
    }
}

/// Presents one stored cell for a single-record fetch. The base64 text of a
/// blob decodes back to exactly the stored bytes.
pub fn detail_cell(v: &SqlVal) -> (r: JsonVal)
    ensures
        r@ == detail_cell_of(v@),
        match v@ {
            StoredModel::Blob(b) => encodable(b.len()) ==> b64_decode_of(b64_encode_of(b)) == Some(
                b,
            ),
            _ => true,
        },
{
    match v {
        SqlVal::Null => JsonVal::Null,
        SqlVal::Int(i) => JsonVal::Int(*i),
        SqlVal::Real(s) => JsonVal::Real(s.clone()),
        SqlVal::Text(s) => JsonVal::Str(s.clone()),
        SqlVal::Blob(b) => {
            if b.len() <= usize::MAX / 4 {
                JsonVal::Str(crate::codec::b64_encode(b))
            } else {
                JsonVal::Str(blob_size_string(b.len()))
            }
        },
    }
}

/// Presents a whole row for a table listing, pairing each column name with
/// its presented value, in column order.
pub fn present_list_row(cols: &Vec<ColumnInfo>, row: &Vec<SqlVal>) -> (r: Vec<(String, JsonVal)>)
    requires
        row@.len() == cols@.len(),
    ensures
        r@.len() == cols@.len(),
        forall|i: int| 0 <= i < cols@.len() ==> (#[trigger] r@[i].0)@ == cols@[i].name@,
        forall|i: int|
            0 <= i < cols@.len() ==> (#[trigger] r@[i].1)@ == list_cell_of(
                row@[i]@,
                class_of(cols@[i].type_@),
            ),
{
    let mut out: Vec<(String, JsonVal)> = Vec::new();
    let mut i: usize = 0;
    while i < cols.len()
        invariant
            row@.len() == cols@.len(),
            i <= cols@.len(),
            out@.len() == i,
            forall|j: int| 0 <= j < i ==> (#[trigger] out@[j].0)@ == cols@[j].name@,
            forall|j: int|
                0 <= j < i ==> (#[trigger] out@[j].1)@ == list_cell_of(
                    row@[j]@,
                    class_of(cols@[j].type_@),
                ),
        decreases cols@.len() - i,
    {
        let class = crate::schema::classify_column_type(cols[i].type_.as_str());
        let val = list_cell(&row[i], class);
        out.push((cols[i].name.clone(), val));
        i = i + 1;
    }
    out
}

/// Presents a whole row for a single-record fetch, pairing each column name
/// with its presented value, in column order.
pub fn present_detail_row(cols: &Vec<ColumnInfo>, row: &Vec<SqlVal>) -> (r: Vec<(String, JsonVal)>)
    requires
        row@.len() == cols@.len(),
    ensures
        r@.len() == cols@.len(),
        forall|i: int| 0 <= i < cols@.len() ==> (#[trigger] r@[i].0)@ == cols@[i].name@,
        forall|i: int|
            0 <= i < cols@.len() ==> (#[trigger] r@[i].1)@ == detail_cell_of(row@[i]@),
{
    let mut out: Vec<(String, JsonVal)> = Vec::new();
    let mut i: usize = 0;
    while i < cols.len()
        invariant
            row@.len() == cols@.len(),
            i <= cols@.len(),
            out@.len() == i,
            forall|j: int| 0 <= j < i ==> (#[trigger] out@[j].0)@ == cols@[j].name@,
            forall|j: int|
                0 <= j < i ==> (#[trigger] out@[j].1)@ == detail_cell_of(row@[j]@),
        decreases cols@.len() - i,
    {
        let val = detail_cell(&row[i]);
        out.push((cols[i].name.clone(), val));
        i = i + 1;
    }
    out
}

/// Presents every fetched row for a table listing: one presented row per
/// fetched row, in order, each cell pinned by `list_cell_of`; a row whose
/// width differs from the column list — a schema changed mid-call — fails
/// the whole presentation, and nothing else does.
pub fn present_all_rows(cols: &Vec<ColumnInfo>, rows: &Vec<Vec<SqlVal>>) -> (r: Result<
    Vec<Vec<(String, JsonVal)>>,
    crate::errors::DbError,
>)
    ensures
        (r is Err) <==> (exists|i: int|
            0 <= i < rows@.len() && (#[trigger] rows@[i])@.len() != cols@.len()),
        r matches Err(e) ==> e is Schema,
        r matches Ok(out) ==> out@.len() == rows@.len() && (forall|i: int|
            0 <= i < rows@.len() ==> (#[trigger] out@[i])@.len() == cols@.len()) && (forall|
            i: int,
            j: int,
        |
            0 <= i < rows@.len() && 0 <= j < cols@.len() ==> (#[trigger] out@[i]@[j].0)@
                == cols@[j].name@) && (forall|i: int, j: int|
            0 <= i < rows@.len() && 0 <= j < cols@.len() ==> (#[trigger] out@[i]@[j].1)@
                == list_cell_of(rows@[i]@[j]@, class_of(cols@[j].type_@))),
{
    let mut out: Vec<Vec<(String, JsonVal)>> = Vec::new();
    let mut i: usize = 0;
    while i < rows.len()
        invariant
            i <= rows@.len(),
            out@.len() == i,
            forall|k: int| 0 <= k < i ==> (#[trigger] rows@[k])@.len() == cols@.len(),
            forall|k: int| 0 <= k < i ==> (#[trigger] out@[k])@.len() == cols@.len(),
            forall|k: int, j: int|
                0 <= k < i && 0 <= j < cols@.len() ==> (#[trigger] out@[k]@[j].0)@
                    == cols@[j].name@,
            forall|k: int, j: int|
                0 <= k < i && 0 <= j < cols@.len() ==> (#[trigger] out@[k]@[j].1)@ == list_cell_of(
                    rows@[k]@[j]@,
                    class_of(cols@[j].type_@),
                ),
        decreases rows@.len() - i,
    {
        if rows[i].len() != cols.len() {
            return Err(
                crate::errors::DbError::Schema(
                    crate::strutil::concat_str("Error columnas: ", "la fila no coincide"),
                ),
            );
        }
        let presented = present_list_row(&cols, &rows[i]);
        out.push(presented);
        i = i + 1;
    }
    Ok(out)
}

/// Presents a single fetched record: no row at all is a missing record, a
/// first row whose width differs from the column list is a schema failure,
/// and otherwise the first matching row is the one presented, cell for cell
/// per `detail_cell_of`.
pub fn present_fetched_record(cols: &Vec<ColumnInfo>, rows: &Vec<Vec<SqlVal>>, key_column: &str) -> (r:
    Result<Vec<(String, JsonVal)>, crate::errors::DbError>)
    ensures
        (rows@.len() == 0) <==> (r matches Err(e) && e is RecordNotFound),
        (rows@.len() > 0 && rows@[0]@.len() != cols@.len()) <==> (r matches Err(e) && e is Schema),
        (r is Ok) <==> (rows@.len() > 0 && rows@[0]@.len() == cols@.len()),
        r matches Ok(rec) ==> rec@.len() == cols@.len() && (forall|i: int|
            0 <= i < cols@.len() ==> (#[trigger] rec@[i].0)@ == cols@[i].name@) && (forall|i: int|
            0 <= i < cols@.len() ==> (#[trigger] rec@[i].1)@ == detail_cell_of(rows@[0]@[i]@)),
{
    if rows.len() == 0 {
        return Err(
            crate::errors::DbError::RecordNotFound(
                crate::strutil::concat_str("No se encontró ninguna fila con ", key_column),
            ),
        );
    }
    let row = &rows[0];
    if row.len() != cols.len() {
        return Err(
            crate::errors::DbError::Schema(
                crate::strutil::concat_str("Error columnas: ", "la fila no coincide"),
            ),
        );
    }
    Ok(present_detail_row(cols, row))
}

/// A listed table: its name, its column names in order, and its presented rows.
pub struct TableData {
    /// Nombre de la tabla
    pub table_name: String,
    /// Columnas de la tabla
    pub columns: Vec<String>,
    /// Filas de datos
    pub rows: Vec<Vec<(String, JsonVal)>>,
}

/// A fetched record: the table it came from and its presented columns.
pub struct RecordDetails {
    /// Nombre de la tabla
    pub table_name: String,
    /// Datos del registro
    pub record: Vec<(String, JsonVal)>,
}

} // verus!
