//! A dynamic, schema-aware record engine over SQLite: generic insert, read,
//! update and delete against tables whose shape is discovered at call time.
//! Identifiers are made SQL-safe in one quoting function, every value is
//! bound as a statement parameter, loosely typed inputs are coerced per
//! column policy, and managed identifier columns get application-allocated
//! unique keys with gap filling. The calls into the storage engine itself sit
//! behind a small trusted boundary; everything around them is verified.

pub mod strutil;
pub mod quoting;
pub mod errors;
pub mod values;
pub mod schema;
pub mod codec;
pub mod coerce;
pub mod allocator;
pub mod sqlbuild;
pub mod engine;
pub mod present;
pub mod adapter;
pub mod tables;
pub mod appinfo;
pub mod importexport;
pub mod laws;
