//! The dynamically typed values that cross the command surface, and the
//! storage-ready values bound to SQL statements. Real numbers are carried as
//! their decimal text: the engine binding parses them back, and no arithmetic
//! is ever done on them here.
use vstd::prelude::*;
use crate::errors::DbError;

verus! {

/// A loosely typed input or output value: what a JSON payload holds.
/// `Real` carries the number's decimal text; `Other` carries the serialized
/// text of a structured value (an array or an object).
#[derive(Clone, Debug, PartialEq, Eq)]
pub enum JsonVal {
    Null,
    Bool(bool),
    Int(i64),
    Real(String),
    Str(String),
    Other(String),
}

/// The mathematical model of a `JsonVal`.
pub ghost enum ValModel {
    Null,
    Bool(bool),
    Int(int),
    Real(Seq<char>),
    Str(Seq<char>),
    Other(Seq<char>),
}

impl View for JsonVal {
    type V = ValModel;

    open spec fn view(&self) -> ValModel {
        match self {
            JsonVal::Null => ValModel::Null,
            JsonVal::Bool(b) => ValModel::Bool(*b),
            JsonVal::Int(i) => ValModel::Int(*i as int),
            JsonVal::Real(s) => ValModel::Real(s@),
            JsonVal::Str(s) => ValModel::Str(s@),
            JsonVal::Other(s) => ValModel::Other(s@),
        }
    }
}

/// A storage-ready value, one per storage class of the engine. `Real` again
/// carries decimal text; the trusted binding turns it into a machine real.
#[derive(Clone, Debug, PartialEq, Eq)]
pub enum SqlVal {
    Null,
    Int(i64),
    Real(String),
    Text(String),
    Blob(Vec<u8>),
}

/// The mathematical model of a `SqlVal`.
pub ghost enum StoredModel {
    Null,
    Int(int),
    Real(Seq<char>),
    Text(Seq<char>),
    Blob(Seq<u8>),
}

impl View for SqlVal {
    type V = StoredModel;

    open spec fn view(&self) -> StoredModel {
        match self {
            SqlVal::Null => StoredModel::Null,
            SqlVal::Int(i) => StoredModel::Int(*i as int),
            SqlVal::Real(s) => StoredModel::Real(s@),
            SqlVal::Text(s) => StoredModel::Text(s@),
            SqlVal::Blob(b) => StoredModel::Blob(b@),
        }
    }
}

impl SqlVal {
    /// A structural copy of the value.
    pub fn duplicate(&self) -> (r: SqlVal)
        ensures
            r@ == self@,
    {
        match self {
            SqlVal::Null => SqlVal::Null,
            SqlVal::Int(i) => SqlVal::Int(*i),
            SqlVal::Real(s) => SqlVal::Real(s.clone()),
            SqlVal::Text(s) => SqlVal::Text(s.clone()),
            SqlVal::Blob(b) => {
                let copy = b.clone();
                proof {
                    assert(copy@ =~= b@);
                }
                SqlVal::Blob(copy)
            },
        }
    }
}

/// How a stored value is rendered in an export document: blobs are not
/// exported and become null.
pub open spec fn export_json_of(v: StoredModel) -> ValModel {
    match v {
        StoredModel::Null => ValModel::Null,
        StoredModel::Int(i) => ValModel::Int(i),
        StoredModel::Real(s) => ValModel::Real(s),
        StoredModel::Text(s) => ValModel::Str(s),
        StoredModel::Blob(_) => ValModel::Null,
    }
}

/// Maps a stored value to its JSON rendering for an export document.
pub fn rusqlite_to_json(value: SqlVal) -> (r: JsonVal)
    ensures
        r@ == export_json_of(value@),
{
    match value {
        SqlVal::Null => JsonVal::Null,
        SqlVal::Int(i) => JsonVal::Int(i),
        SqlVal::Real(s) => JsonVal::Real(s),
        SqlVal::Text(s) => JsonVal::Str(s),
        SqlVal::Blob(_) => JsonVal::Null,
    }
}

/// How an import value is stored, when it can be: booleans become integers,
/// text stays text, and structured values are rejected.
pub open spec fn import_stored_of(v: ValModel) -> Option<StoredModel> {
    match v {
        ValModel::Null => Some(StoredModel::Null),
        ValModel::Bool(b) => Some(StoredModel::Int(if b { 1int } else { 0int })),
        ValModel::Int(i) => Some(StoredModel::Int(i)),
        ValModel::Real(s) => Some(StoredModel::Real(s)),
        ValModel::Str(s) => Some(StoredModel::Text(s)),
        ValModel::Other(_) => None,
    }
}

/// Maps a JSON import value to its stored form, rejecting structured values.
pub fn json_to_rusqlite(value: &JsonVal) -> (r: Result<SqlVal, DbError>)
    ensures
        match r {
            Ok(s) => import_stored_of(value@) == Some(s@),
            Err(e) => import_stored_of(value@) is None && e is UnsupportedValue,
        },
{
    match value {
        JsonVal::Null => Ok(SqlVal::Null),
        JsonVal::Bool(b) => Ok(SqlVal::Int(if *b { 1 } else { 0 })),
        JsonVal::Int(i) => Ok(SqlVal::Int(*i)),
        JsonVal::Real(s) => Ok(SqlVal::Real(s.clone())),
        JsonVal::Str(s) => Ok(SqlVal::Text(s.clone())),
        JsonVal::Other(_) => {
            let mut m = String::new();
            m.append("Tipo JSON no soportado para la importación");
            Err(DbError::UnsupportedValue(m))
        },
    }
}

/// The value under the first occurrence of the key in a payload, if any.
pub open spec fn lookup_spec(pairs: Seq<(String, JsonVal)>, key: Seq<char>) -> Option<ValModel>
    decreases pairs.len(),
{
    if pairs.len() == 0 {
        None
    } else if pairs[0].0@ == key {
        Some(pairs[0].1@)
    } else {
        lookup_spec(pairs.drop_first(), key)
    }
}

/// Finds the first value stored under the key in a payload.
pub fn lookup_value<'a>(pairs: &'a Vec<(String, JsonVal)>, key: &str) -> (r: Option<&'a JsonVal>)
    ensures
        match r {
            Some(v) => lookup_spec(pairs@, key@) == Some(v@),
            None => lookup_spec(pairs@, key@) is None,
        },
{
    let mut i: usize = 0;
    proof {
        assert(pairs@.skip(0) =~= pairs@);
    }
    while i < pairs.len()
        invariant
            i <= pairs@.len(),
            lookup_spec(pairs@, key@) == lookup_spec(pairs@.skip(i as int), key@),
        decreases pairs@.len() - i,
    {
        proof {
            assert(pairs@.skip(i as int)[0] == pairs@[i as int]);
            assert(pairs@.skip(i as int).drop_first() =~= pairs@.skip(i + 1));
        }
        if crate::strutil::str_eq(pairs[i].0.as_str(), key) {
            return Some(&pairs[i].1);
        }
        i = i + 1;
    }
    None
}

/// A value found under a key is one of the payload's values.
pub proof fn lemma_lookup_some_exists(pairs: Seq<(String, JsonVal)>, key: Seq<char>, v: ValModel)
    requires
        lookup_spec(pairs, key) == Some(v),
    ensures
        exists|i: int| 0 <= i < pairs.len() && #[trigger] pairs[i].1@ == v,
    decreases pairs.len(),
{
    if pairs.len() > 0 {
        if pairs[0].0@ == key {
            assert(pairs[0].1@ == v);
        } else {
            lemma_lookup_some_exists(pairs.drop_first(), key, v);
            let i = choose|i: int|
                0 <= i < pairs.drop_first().len() && #[trigger] pairs.drop_first()[i].1@ == v;
            assert(pairs[i + 1].1@ == v);
        }
    }
}

/// The text under the first occurrence of the key in a name-to-text map.
pub open spec fn lookup_str_spec(pairs: Seq<(String, String)>, key: Seq<char>) -> Option<Seq<char>>
    decreases pairs.len(),
{
    if pairs.len() == 0 {
        None
    } else if pairs[0].0@ == key {
        Some(pairs[0].1@)
    } else {
        lookup_str_spec(pairs.drop_first(), key)
    }
}

/// Finds the first text stored under the key in a name-to-text map.
pub fn lookup_str<'a>(pairs: &'a Vec<(String, String)>, key: &str) -> (r: Option<&'a String>)
    ensures
        match r {
            Some(v) => lookup_str_spec(pairs@, key@) == Some(v@),
            None => lookup_str_spec(pairs@, key@) is None,
        },
{
    let mut i: usize = 0;
    proof {
        assert(pairs@.skip(0) =~= pairs@);
    }
    while i < pairs.len()
        invariant
            i <= pairs@.len(),
            lookup_str_spec(pairs@, key@) == lookup_str_spec(pairs@.skip(i as int), key@),
        decreases pairs@.len() - i,
    {
        proof {
            assert(pairs@.skip(i as int)[0] == pairs@[i as int]);
            assert(pairs@.skip(i as int).drop_first() =~= pairs@.skip(i + 1));
        }
        if crate::strutil::str_eq(pairs[i].0.as_str(), key) {
            return Some(&pairs[i].1);
        }
        i = i + 1;
    }
    None
}

} // verus!
