//! Operation configuration: which command runs, which container format is
//! used, and the knobs that tune the pipelines.

use vstd::prelude::*;

verus! {

/// The command to execute.
#[derive(Debug, Copy, Clone, PartialEq, Eq, Structural)]
pub enum Command {
    /// Compress the input
    C,
    /// Decompress the input
    X,
}

/// The container format of the archive.
#[derive(Debug, Copy, Clone, PartialEq, Eq, Structural)]
pub enum CompressType {
    TARZSTD,
    ZIP,
}

/// Configuration for one compress or decompress operation.
pub struct Args {
    /// The command to execute
    pub command: Command,

    /// Type of archive
    pub compress_type: CompressType,

    /// Input path
    pub input: String,

    /// Output path, must be a file
    /// (defaults to input path with compression extension)
    pub output: Option<String>,

    /// Log level
    pub log_level: u8,

    /// Compress level
    pub compress_level: Option<u8>,

    /// Disable long distance matching (only for zstd)
    pub no_long_distance_matching: bool,

    /// Only size smaller than this will be read in parallel
    pub small_file_size: u64,
}

/// The zstd compression level actually handed to the encoder, as a function
/// of the requested level: a missing level falls back to 3, and any request
/// is clamped into the encoder's accepted range 1..=22.
pub open spec fn effective_level_spec(requested: Option<u8>) -> u8 {
    let lvl = match requested {
        Some(l) => l,
        None => 3u8,
    };
    if lvl < 1 {
        1u8
    } else if lvl > 22 {
        22u8
    } else {
        lvl
    }
}

impl Args {
    /// The compression level handed to the block compressor: the requested
    /// level, defaulted to 3 when absent and clamped into 1..=22.
    pub fn effective_compress_level(&self) -> (r: u8)
        ensures
            r == effective_level_spec(self.compress_level),
            1 <= r <= 22,
    {
        let lvl: u8 = match self.compress_level {
            Some(l) => l,
            None => 3,
        };
        if lvl < 1 {
            1
        } else if lvl > 22 {
            22
        } else {
            lvl
        }
    }
}

} // verus!
