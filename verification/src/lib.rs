//! A content-addressed, file-level data-versioning engine: large files are
//! stored once under their content hash, and small sidecar records stand in
//! for them in the repository.
//!
//! The engine never touches the file system itself. Every operation is a
//! state machine that hands out one [`exchange::Request`] at a time and is
//! resumed with the [`exchange::Reply`]; the caller performs the requests.

pub mod text;
pub mod path;
pub mod outcome;
pub mod error;
pub mod file;
pub mod hash;
pub mod cache;
pub mod exchange;
pub mod repo;
pub mod config;
pub mod ignore;
pub mod copy;
pub mod add;
pub mod get;
pub mod status;
pub mod parse;
pub mod init;
pub mod info;
pub mod audit;
pub mod report;
pub mod model;
pub mod laws;
