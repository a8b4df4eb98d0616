//! The error taxonomy of the record engine. Every failure is terminal to the
//! single request and carries a message the caller can display directly.
use vstd::prelude::*;

verus! {

/// Why a request failed. `SqlExecution` is the catch-all for an engine-level
/// rejection; the other variants are decided by the library itself.
#[derive(Debug)]
pub enum DbError {
    /// Neither recognized database file exists for the given base name.
    DatabaseNotFound(String),
    /// The table's columns could not be discovered.
    Schema(String),
    /// A value could not be coerced to the target column's storage type.
    UnsupportedValue(String),
    /// An update was requested with an empty set of changes.
    NoUpdatesProvided,
    /// The key predicate matched no row.
    RecordNotFound(String),
    /// The column is protected and may not be added or dropped.
    ProtectedColumn(String),
    /// A column of that name already exists in the table.
    DuplicateColumn(String),
    /// A table of that name already exists.
    DuplicateTable(String),
    /// The engine is too old for the requested operation.
    UnsupportedEngineFeature(String),
    /// The engine rejected the statement.
    SqlExecution(String),
}

impl DbError {
    /// The human-readable message carried by the error.
    pub fn message(&self) -> (r: String)
        ensures
            r@ == self.message_spec(),
    {
        match self {
            DbError::DatabaseNotFound(m) => m.clone(),
            DbError::Schema(m) => m.clone(),
            DbError::UnsupportedValue(m) => m.clone(),
            DbError::NoUpdatesProvided => {
                let mut s = String::new();
                s.append("No hay datos para actualizar.");
                s
            },
            DbError::RecordNotFound(m) => m.clone(),
            DbError::ProtectedColumn(m) => m.clone(),
            DbError::DuplicateColumn(m) => m.clone(),
            DbError::DuplicateTable(m) => m.clone(),
            DbError::UnsupportedEngineFeature(m) => m.clone(),
            DbError::SqlExecution(m) => m.clone(),
        }
    }

    /// The message as a sequence of characters.
    pub open spec fn message_spec(&self) -> Seq<char> {
        match self {
            DbError::DatabaseNotFound(m) => m@,
            DbError::Schema(m) => m@,
            DbError::UnsupportedValue(m) => m@,
            DbError::NoUpdatesProvided => "No hay datos para actualizar."@,
            DbError::RecordNotFound(m) => m@,
            DbError::ProtectedColumn(m) => m@,
            DbError::DuplicateColumn(m) => m@,
            DbError::DuplicateTable(m) => m@,
            DbError::UnsupportedEngineFeature(m) => m@,
            DbError::SqlExecution(m) => m@,
        }
    }

}

} // verus!
