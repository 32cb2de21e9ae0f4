//! Verified core of a small ETL and query tool for per-country alcohol
//! consumption statistics kept in a single relational table.
//!
//! The tool fetches a CSV file, loads it into one table and offers create,
//! read, update and delete by country, plus a raw-query passthrough with an
//! audit log. The network, the file system and the storage engine belong to
//! the program around this library. The library holds what that program
//! decides with: how a source row is read, which statement goes to the
//! engine with which values, when a raw query is read for rows, what a log
//! entry looks like, and when a fetched answer is kept.

pub mod config;
pub mod fetch;
pub mod numeric;
pub mod query;
pub mod record;
pub mod source;
pub mod statement;

pub use crate::config::Config;
pub use crate::fetch::extract;
pub use crate::query::{general_query, log_query};
pub use crate::record::Record;
pub use crate::source::load;
pub use crate::statement::{
    create_record, delete_record, found_record, read_data, read_record, update_record, Statement,
};
