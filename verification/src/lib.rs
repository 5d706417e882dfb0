//! A webhook-driven continuous-deployment agent core, together with the
//! query-building and metadata model types it ships alongside.
//!
//! The deployment core receives CI completion notifications, authenticates
//! them with a keyed hash, decides whether they denote a deployable build of
//! the tracked branch, and drives a bounded FIFO download queue whose worker
//! fetches and installs the resulting artifact with exponential back-off.
//! Everything that computes or decides lives here, verified; the thin HTTP,
//! secret-store and file-system edges live outside the library.

use vstd::prelude::*;

pub mod config;
pub mod decimal;
pub mod downloader;
pub mod github;
pub mod google;
pub mod igdb;
pub mod query;
pub mod text;
pub mod tmdb;
pub mod unzip;
pub mod webhook;

verus! {

/// The two positional arguments the deployment agent is started with:
/// the name of the secret vault to read tokens from, and the directory
/// artifacts are extracted into.
pub struct ExecutableArgs {
    pub vault_name: String,
    pub extraction_directory: String,
}

} // verus!
