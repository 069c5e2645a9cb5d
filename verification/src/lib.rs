//! A directory-archiving engine: it turns a set of scanned file entries into a
//! single compressed container (a tar stream wrapped in a zstd block
//! compressor, or a per-entry-deflated zip container) and reverses the
//! process, reconstructing the entries with contents and modification times
//! intact.
//!
//! The archive containers themselves are produced and parsed by the `tar`,
//! `zstd` and `zip` crates behind a small set of trusted wrappers; everything
//! around those calls — the gather and extract pipelines, the streaming
//! threshold policy, path planning, progress accounting and failure
//! aggregation — is verified.

pub mod block;
pub mod config;
pub mod failures;
pub mod paths;
pub mod progress;
pub mod scan;
pub mod tar_pipeline;
pub mod tarball;
pub mod utils;
pub mod zip_pipeline;
pub mod zipstore;
