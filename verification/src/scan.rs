//! What the library scanner hands the database: one song's metadata as
//! plain values. Reading tags out of audio files belongs to the daemon
//! around the engine; the scanner type itself is the stateless probe the
//! daemon drives over each file.

use vstd::prelude::*;

verus! {

/// Stands in for a missing tag value.
pub const UNKNOWN: &'static str = "unknown";

/// One song's scanned metadata.
pub struct Metadata {
    pub title: String,
    pub artist: String,
    pub album: String,
    pub file: String,
    pub playtime_ns: u64,
}

/// A stateless tag probe; the daemon runs each known probe over a file
/// until one of them answers.
pub struct Scanner;

impl Scanner {
    pub fn new() -> Scanner {
        Scanner
    }
}

} // verus!
