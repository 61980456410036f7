//! Result encoding for a PostgreSQL wire protocol server: command tags,
//! column metadata, row encoding and the responses an executor hands to the
//! protocol engine.

pub mod buffer;
pub mod encoder;
pub mod error;
pub mod field;
pub mod messages;
pub mod response;
pub mod sql_type;
pub mod tag;
