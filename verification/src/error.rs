//! The errors that archiving, extracting and listing can end in.

use vstd::prelude::*;
use snap::Error as SnapError;
use vstd::std_specs::convert::FromSpecImpl;

verus! {

/// `std::io::Error`, carried through as an opaque value.
#[verifier::external_type_specification]
#[verifier::external_body]
pub struct ExIoError(std::io::Error);

/// `std::path::StripPrefixError`, carried through as an opaque value.
#[verifier::external_type_specification]
#[verifier::external_body]
pub struct ExStripPrefixError(std::path::StripPrefixError);

/// `glob::PatternError`, carried through as an opaque value.
#[verifier::external_type_specification]
#[verifier::external_body]
pub struct ExPatternError(glob::PatternError);

/// `glob::GlobError`, carried through as an opaque value.
#[verifier::external_type_specification]
#[verifier::external_body]
pub struct ExGlobError(glob::GlobError);

/// `snap::Error`, carried through as an opaque value.
#[verifier::external_type_specification]
#[verifier::external_body]
pub struct ExSnapError(SnapError);

/// `lz4_flex::block::DecompressError`, carried through as an opaque value.
#[verifier::external_type_specification]
#[verifier::external_body]
pub struct ExLz4DecompressError(lz4_flex::block::DecompressError);

/// Why an operation stopped. Every error ends the operation it arose in.
#[derive(Debug)]
pub enum Error {
    /// A source, target or path argument is missing or malformed.
    InvalidArg { path: String },
    /// A path that has to exist does not.
    PathNotExists { path: String },
    /// Reading, writing or creating a file failed.
    Io { source: std::io::Error },
    /// A matched path does not lie under the root it was matched from.
    StripPrefix { source: std::path::StripPrefixError },
    /// The match pattern is not well formed.
    Pattern { source: glob::PatternError },
    /// A matched path could not be read.
    Glob { source: glob::GlobError },
    /// The codec tag names no known codec.
    InvalidCompression { compression: String },
    /// Snappy could not compress or decompress a payload.
    Snappy { source: SnapError },
    /// Lz4 could not decompress a payload.
    Lz4Decompress { source: lz4_flex::block::DecompressError },
}

impl From<std::io::Error> for Error {
    fn from(err: std::io::Error) -> (r: Self) {
        Error::Io { source: err }
    }
}

impl FromSpecImpl<std::io::Error> for Error {
    open spec fn obeys_from_spec() -> bool {
        true
    }

    open spec fn from_spec(err: std::io::Error) -> Self {
        Error::Io { source: err }
    }
}

impl From<SnapError> for Error {
    fn from(err: SnapError) -> (r: Self) {
        Error::Snappy { source: err }
    }
}

impl FromSpecImpl<SnapError> for Error {
    open spec fn obeys_from_spec() -> bool {
        true
    }

    open spec fn from_spec(err: SnapError) -> Self {
        Error::Snappy { source: err }
    }
}

impl From<lz4_flex::block::DecompressError> for Error {
    fn from(err: lz4_flex::block::DecompressError) -> (r: Self) {
        Error::Lz4Decompress { source: err }
    }
}

impl FromSpecImpl<lz4_flex::block::DecompressError> for Error {
    open spec fn obeys_from_spec() -> bool {
        true
    }

    open spec fn from_spec(err: lz4_flex::block::DecompressError) -> Self {
        Error::Lz4Decompress { source: err }
    }
}

} // verus!
