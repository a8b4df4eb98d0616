//! Laws that tie the adapter's pieces together: what a freshly created row
//! shows when it is read back.
use vstd::prelude::*;
use crate::coerce::{MissingFieldPolicy, insert_cell_of, is_special_column};
use crate::codec::b64_decode_of;
use crate::present::detail_cell_of;
use crate::schema::{ColClass, ColumnInfo, class_of};
use crate::values::{JsonVal, ValModel, lookup_spec};

verus! {

/// Create-read round trip for an ordinary column: the value a fresh insert
/// stores presents, when the row is read back, exactly the text the payload
/// supplied; a column the payload left unset presents the documented default
/// — the configured empty string or NULL, or the supplied timestamp for a
/// DATETIME column. Together with the one-stored-value-per-column shape of
/// the built insert, the read-back record's keys are a superset of the
/// payload keys that name real columns.
pub proof fn lemma_create_read_round_trip(
    col: ColumnInfo,
    payload: Seq<(String, JsonVal)>,
    id_column: Seq<char>,
    key: int,
    policy: MissingFieldPolicy,
    now: Seq<char>,
)
    requires
        col.name@ != id_column,
        !is_special_column(col.name@),
        class_of(col.type_@) == ColClass::Generic,
    ensures
        (lookup_spec(payload, col.name@) matches Some(v) && v is Str) ==> detail_cell_of(
            insert_cell_of(col, payload, id_column, key, policy, now),
        ) == lookup_spec(payload, col.name@)->Some_0,
        lookup_spec(payload, col.name@) is None ==> detail_cell_of(
            insert_cell_of(col, payload, id_column, key, policy, now),
        ) == (if policy == MissingFieldPolicy::EmptyString {
            ValModel::Str(Seq::<char>::empty())
        } else {
            ValModel::Null
        }),
{
}

/// Create-read round trip for a DATETIME column the payload left unset: the
/// stored default is the supplied timestamp, and reading the row back shows
/// that timestamp.
pub proof fn lemma_create_datetime_default(
    col: ColumnInfo,
    payload: Seq<(String, JsonVal)>,
    id_column: Seq<char>,
    key: int,
    policy: MissingFieldPolicy,
    now: Seq<char>,
)
    requires
        col.name@ != id_column,
        !is_special_column(col.name@),
        class_of(col.type_@) == ColClass::DateTime,
        lookup_spec(payload, col.name@) is None,
    ensures
        detail_cell_of(insert_cell_of(col, payload, id_column, key, policy, now)) == ValModel::Str(
            now,
        ),
{
}

/// BLOB storage: a payload string that decodes as base64, aimed at a
/// BLOB-typed column, is stored as exactly the decoded bytes — the write-side
/// half of the BLOB round trip, whose read-back side is the base64 text that
/// decodes to those same stored bytes.
pub proof fn lemma_blob_storage(
    col: ColumnInfo,
    payload: Seq<(String, JsonVal)>,
    id_column: Seq<char>,
    key: int,
    policy: MissingFieldPolicy,
    now: Seq<char>,
    s: Seq<char>,
)
    requires
        col.name@ != id_column,
        !is_special_column(col.name@),
        class_of(col.type_@) == ColClass::Blob,
        lookup_spec(payload, col.name@) == Some(ValModel::Str(s)),
        b64_decode_of(s) is Some,
    ensures
        insert_cell_of(col, payload, id_column, key, policy, now) == crate::values::StoredModel::Blob(
            b64_decode_of(s)->Some_0,
        ),
{
}

/// The managed identifier column of a fresh insert always stores the
/// allocated key as decimal text, whatever the payload supplied for it.
pub proof fn lemma_identifier_stored_as_text(
    col: ColumnInfo,
    payload: Seq<(String, JsonVal)>,
    id_column: Seq<char>,
    key: int,
    policy: MissingFieldPolicy,
    now: Seq<char>,
)
    requires
        col.name@ == id_column,
    ensures
        insert_cell_of(col, payload, id_column, key, policy, now) == crate::values::StoredModel::Text(
            crate::strutil::dec_int_of(key),
        ),
{
}

} // verus!
