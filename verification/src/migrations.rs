//! The schema of the event store: one table of events with its indexes,
//! and the table that records the schema version.

use vstd::prelude::*;

verus! {

/// The statements that create the schema, idempotently.
pub const INITIAL_SCHEMA: &'static str =
    "CREATE TABLE IF NOT EXISTS events (\n    id TEXT PRIMARY KEY,\n    created_at TEXT NOT NULL,\n    updated_at TEXT NOT NULL,\n    date TEXT NOT NULL,\n    time TEXT,\n    end_time TEXT,\n    event TEXT NOT NULL,\n    notes TEXT,\n    priority TEXT NOT NULL DEFAULT 'medium',\n    category TEXT NOT NULL DEFAULT 'other',\n    color TEXT,\n    tags TEXT,\n    status TEXT NOT NULL DEFAULT 'confirmed',\n    visibility TEXT NOT NULL DEFAULT 'private',\n    recurring TEXT,\n    reminder TEXT,\n    location TEXT,\n    metadata TEXT NOT NULL DEFAULT '{}'\n);\nCREATE INDEX IF NOT EXISTS idx_events_date ON events(date);\nCREATE INDEX IF NOT EXISTS idx_events_category ON events(category);\nCREATE INDEX IF NOT EXISTS idx_events_priority ON events(priority);\nCREATE TABLE IF NOT EXISTS schema_migrations (\n    version INTEGER PRIMARY KEY,\n    applied_at TEXT NOT NULL DEFAULT CURRENT_TIMESTAMP\n);\nINSERT OR IGNORE INTO schema_migrations (version) VALUES (1);\n";

/// One setting of the storage engine, applied when a connection opens.
#[derive(Debug, Clone, Copy, PartialEq, Eq)]
pub struct Pragma {
    pub name: &'static str,
    pub value: &'static str,
}

/// The schema of the event store.
pub struct Migrations;

impl Migrations {
    /// The migrations in the order in which they apply: the initial schema
    /// alone.
    pub fn get_migrations() -> (result: Vec<&'static str>)
        ensures
            result@.len() == 1,
            result@[0]@ == INITIAL_SCHEMA@,
    {
        let mut result: Vec<&'static str> = Vec::new();
        result.push(INITIAL_SCHEMA);
        result
    }

    /// The tuning of the storage engine: write-ahead logging, relaxed
    /// synchronous commit, and a page cache of 64000 KiB.
    pub fn get_pragmas() -> (result: Vec<Pragma>)
        ensures
            result@.len() == 3,
            result@[0].name@ == "journal_mode"@ && result@[0].value@ == "WAL"@,
            result@[1].name@ == "synchronous"@ && result@[1].value@ == "NORMAL"@,
            result@[2].name@ == "cache_size"@ && result@[2].value@ == "-64000"@,
    {
        let mut result: Vec<Pragma> = Vec::new();
        result.push(Pragma { name: "journal_mode", value: "WAL" });
        result.push(Pragma { name: "synchronous", value: "NORMAL" });
        result.push(Pragma { name: "cache_size", value: "-64000" });
        result
    }
}

} // verus!
