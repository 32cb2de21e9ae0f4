//! Where the tool keeps its files and where it fetches from.

use vstd::prelude::*;

verus! {

/// The database file, in the working directory.
pub const DEFAULT_DATABASE_PATH: &'static str = "DrinksDB.db";

/// Where the fetched source file is kept.
pub const DEFAULT_CSV_PATH: &'static str = "data/drinks.csv";

/// The published data set.
pub const DEFAULT_SOURCE_URL: &'static str =
    "https://raw.githubusercontent.com/fivethirtyeight/data/refs/heads/master/alcohol-consumption/drinks.csv";

/// The query log, in the working directory.
pub const DEFAULT_LOG_PATH: &'static str = "drinks_query_log.md";

/// The four places that the operations work on. Each operation is handed
/// the configuration; none keeps a path of its own.
#[derive(Debug, Clone, PartialEq, Eq)]
pub struct Config {
    /// The database file.
    pub database_path: String,
    /// The local copy of the source file.
    pub csv_path: String,
    /// The address that the source file is fetched from.
    pub source_url: String,
    /// The file that raw queries are logged to.
    pub log_path: String,
}

impl Config {
    /// Whether every place is the default one.
    pub open spec fn is_default(&self) -> bool {
        &&& self.database_path@ == DEFAULT_DATABASE_PATH@
        &&& self.csv_path@ == DEFAULT_CSV_PATH@
        &&& self.source_url@ == DEFAULT_SOURCE_URL@
        &&& self.log_path@ == DEFAULT_LOG_PATH@
    }
}

impl Default for Config {
    fn default() -> (config: Config)
        ensures
            config.is_default(),
    {
        Config {
            database_path: DEFAULT_DATABASE_PATH.to_owned(),
            csv_path: DEFAULT_CSV_PATH.to_owned(),
            source_url: DEFAULT_SOURCE_URL.to_owned(),
            log_path: DEFAULT_LOG_PATH.to_owned(),
        }
    }
}

} // verus!
