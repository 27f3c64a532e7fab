//! Verified core of the `lp` music catalogue importer: identifier generation,
//! medium labels and keys, catalogue file-path handling, artwork records and
//! the value types that the importer and its repositories exchange.

pub mod media;
pub mod text;
pub mod ids;
pub mod paths;
pub mod artwork;
pub mod models;
pub mod readers;
pub mod record_text;
pub mod tag;
pub mod repositories;
