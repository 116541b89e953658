//! Locating, retrieving and applying community-hosted binary patches.
//!
//! The crate covers the retrieval-and-patch pipeline: parsing a catalog
//! listing into structured records, deriving a download filename from a URL,
//! locating a patch payload inside a downloaded archive, and orchestrating
//! the application of that payload against a base binary.  Network and
//! filesystem work stays with the caller; everything here is specified and
//! verified over plain values.

pub mod text;
pub mod catalog;
pub mod scrape;
pub mod fetch;
pub mod archive;
pub mod patch;
pub mod ui_state;
