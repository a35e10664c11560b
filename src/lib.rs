//! Aggregation of DNS lookups: one result entry per supported record type,
//! in a fixed order, with per-type failures carried as data.
pub mod record_type;
pub mod text;
pub mod aggregate;
pub mod laws;
