//! Tar archives whose entries are compressed one by one, so that a single entry can be
//! read or extracted without decoding the rest.
//!
//! The crate decides and computes; it touches no file. A caller starts a run with
//! [`archive`], [`unarchive`] or [`ls`], hands it what it has read entry by entry, and
//! writes what the run answers.

pub mod archiver;
pub mod cli;
pub mod codec;
pub mod compression;
pub mod error;
pub mod listing;
pub mod metadata;
pub mod paths;
pub mod text;

pub use crate::archiver::archive;
pub use crate::archiver::ls;
pub use crate::archiver::unarchive;
pub use crate::archiver::ArchiveParams;
pub use crate::archiver::UnarchiveParams;
pub use crate::error::Error;
