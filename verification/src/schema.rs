//! Column descriptors as the engine reports them, the classification of their
//! declared type tags into storage policies, and the protected-column rule.
use vstd::prelude::*;
use crate::strutil::lower_seq;

verus! {

/// One column as introspection reports it: its name and its declared type tag.
/// The tag is advisory engine-reported text, only ever used to pick a policy.
#[derive(Debug, PartialEq, Eq)]
pub struct ColumnInfo {
    /// Nombre de la columna
    pub name: String,
    /// Tipo de la columna (TEXT, BLOB, INTEGER, etc.)
    pub type_: String,
}

impl ColumnInfo {
    /// A structural copy of the descriptor.
    pub fn duplicate(&self) -> (r: ColumnInfo)
        ensures
            r.name@ == self.name@,
            r.type_@ == self.type_@,
    {
        ColumnInfo { name: self.name.clone(), type_: self.type_.clone() }
    }
}

/// The closed set of storage policies a column can fall under. Any tag other
/// than the two recognized ones falls through to `Generic`.
#[derive(Clone, Copy, Debug, PartialEq, Eq, Structural)]
pub enum ColClass {
    Blob,
    DateTime,
    Generic,
}

/// The policy a declared type tag selects: exact matches of the recognized
/// tags, anything else generic.
pub open spec fn class_of(tag: Seq<char>) -> ColClass {
    if tag == "BLOB"@ {
        ColClass::Blob
    } else if tag == "DATETIME"@ {
        ColClass::DateTime
    } else {
        ColClass::Generic
    }
}

/// Classifies an engine-reported type tag into its storage policy.
pub fn classify_column_type(tag: &str) -> (r: ColClass)
    ensures
        r == class_of(tag@),
{
    if crate::strutil::str_eq(tag, "BLOB") {
        ColClass::Blob
    } else if crate::strutil::str_eq(tag, "DATETIME") {
        ColClass::DateTime
    } else {
        ColClass::Generic
    }
}

/// The protected column names, compared with ASCII case folded away.
pub open spec fn protected_spec(name: Seq<char>) -> bool {
    lower_seq(name) == lower_seq("ID"@) || lower_seq(name) == lower_seq("Zona"@) || lower_seq(name)
        == lower_seq("Campus"@)
}

/// Whether the name is protected from being added or dropped, regardless of case.
pub fn is_protected_column(name: &str) -> (r: bool)
    ensures
        r == protected_spec(name@),
{
    crate::strutil::eq_ignore_ascii_case(name, "ID") || crate::strutil::eq_ignore_ascii_case(
        name,
        "Zona",
    ) || crate::strutil::eq_ignore_ascii_case(name, "Campus")
}

/// Whether some column of the list carries exactly this name.
pub open spec fn has_column_spec(cols: Seq<ColumnInfo>, name: Seq<char>) -> bool {
    exists|i: int| 0 <= i < cols.len() && #[trigger] cols[i].name@ == name
}

/// Looks a name up among the columns, by exact match.
pub fn has_column(cols: &Vec<ColumnInfo>, name: &str) -> (r: bool)
    ensures
        r == has_column_spec(cols@, name@),
{
    let mut i: usize = 0;
    while i < cols.len()
        invariant
            i <= cols@.len(),
            forall|j: int| 0 <= j < i ==> #[trigger] cols@[j].name@ != name@,
        decreases cols@.len() - i,
    {
        if crate::strutil::str_eq(cols[i].name.as_str(), name) {
            return true;
        }
        i = i + 1;
    }
    false
}

/// Whether some column of the list carries this name once ASCII case is folded.
pub open spec fn has_column_ci_spec(cols: Seq<ColumnInfo>, name: Seq<char>) -> bool {
    exists|i: int| 0 <= i < cols.len() && lower_seq(#[trigger] cols[i].name@) == lower_seq(name)
}

/// The duplicate-column rule: a name already present among the columns, once
/// ASCII case is folded away, is refused with exactly the given message;
/// otherwise the addition may proceed.
pub fn refuse_duplicate_column(
    cols: &Vec<ColumnInfo>,
    column_name: &str,
    message: String,
) -> (r: Result<(), crate::errors::DbError>)
    ensures
        has_column_ci_spec(cols@, column_name@) <==> (r matches Err(e)
            && e matches crate::errors::DbError::DuplicateColumn(m) && m@ == message@),
        r is Ok <==> !has_column_ci_spec(cols@, column_name@),
{
    if has_column_ci(cols, column_name) {
        Err(crate::errors::DbError::DuplicateColumn(message))
    } else {
        Ok(())
    }
}

/// Looks a name up among the columns, ignoring ASCII case.
pub fn has_column_ci(cols: &Vec<ColumnInfo>, name: &str) -> (r: bool)
    ensures
        r == has_column_ci_spec(cols@, name@),
{
    let mut i: usize = 0;
    while i < cols.len()
        invariant
            i <= cols@.len(),
            forall|j: int| 0 <= j < i ==> lower_seq(#[trigger] cols@[j].name@) != lower_seq(name@),
        decreases cols@.len() - i,
    {
        if crate::strutil::eq_ignore_ascii_case(cols[i].name.as_str(), name) {
            return true;
        }
        i = i + 1;
    }
    false
}

} // verus!
