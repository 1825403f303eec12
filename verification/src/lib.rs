//! A schema migration engine for relational databases: it compares a
//! migrations folder with the record of applied migrations, classifies the
//! situation, computes structural diffs between schemas, classifies
//! destructive changes, and decides what to apply, revert or ask about.

pub mod applier;
pub mod checksum;
pub mod destructive;
pub mod differ;
pub mod history;
pub mod migrations_folder;
pub mod mssql;
pub mod schema;
pub mod schema_push;
pub mod walkers;
