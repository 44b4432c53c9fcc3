//! Scraper library for GBIF biodiversity data.
//!
//! The library covers the scrape -> mark -> download -> crop pipeline:
//! resolving local taxon entries to registry species keys, paginating the
//! registry's occurrence search, persisting occurrences and media with
//! store-wide deduplication, the bulk marking policy that selects media to
//! download, the per-media download decisions with retry on rate limiting,
//! and the batched request/response protocol spoken with the external
//! image-cropping worker.
//!
//! All state lives in an in-memory relational [`db::Store`]; network and file
//! system effects are decided here and performed by the surrounding
//! application.

pub mod config;
pub mod cropper;
pub mod db;
pub mod download;
pub mod gbif;
pub mod resolver;
pub mod scrape;
pub mod taxref;
pub mod text;
pub mod utils;

use vstd::prelude::*;

verus! {

/// The error type of this library.
#[derive(Debug)]
pub enum Error {
    /// An HTTP request failed.
    ReqwestError(String),
    /// An IO error occurred.
    IoError(String),
    /// An error while parsing json.
    JsonError(String),
    /// Cache directory does not exist.
    NoCache,
    /// Error in the store.
    DbError,
    /// Download failed.
    DownloadFailed(String),
    /// We attempted to download a file whose media type is not supported.
    UnknownMediaType(String),
    /// The species was not found on GBIF.
    SpeciesNotFound(String),
    /// Failed to initialize the cropper.
    InitializeCropperFailed,
}

} // verus!
