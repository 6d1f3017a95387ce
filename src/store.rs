use vstd::prelude::*;

verus! {

/// The store file used when no other is named.
pub const DEFAULT_DATABASE: &'static str = "./speedtest_daemon.db";

/// Creates the one table of the store where it is absent, so that running
/// it at every start is harmless.
pub const SCHEMA_SQL: &'static str = "CREATE TABLE IF NOT EXISTS results (
    timestamp NUMBER,
    download NUMBER,
    upload NUMBER,
    ping NUMBER,
    bytes_sent NUMBER,
    bytes_received NUMBER
);";

/// Appends one record; the six values are bound by position, in the order
/// of the table's columns.
pub const INSERT_SQL: &'static str = "INSERT INTO results (
    timestamp, download, upload, ping, bytes_sent, bytes_received
) VALUES (?1, ?2, ?3, ?4, ?5, ?6);";

/// Reads every record back: the epoch seconds, the same instant as a date
/// and time, and the five figures.
pub const READ_SQL: &'static str = "SELECT timestamp,
    datetime(timestamp, 'unixepoch'),
    download,
    upload,
    ping,
    bytes_sent,
    bytes_received
FROM results
ORDER BY timestamp;";

} // verus!
