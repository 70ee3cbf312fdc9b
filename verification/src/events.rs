//! Process lifecycle events: plain data describing what happened, to be
//! reported by telemetry code outside this library.

use vstd::prelude::*;

verus! {

/// The process has started.
#[derive(Debug)]
pub struct VectorStarted;

/// The process has reloaded its configuration.
#[derive(Debug)]
pub struct VectorReloaded {
    /// The configuration paths that were loaded.
    pub config_paths: Vec<String>,
}

/// The process has stopped.
#[derive(Debug)]
pub struct VectorStopped;

/// The process has quit.
#[derive(Debug)]
pub struct VectorQuit;

/// A configuration reload was not successful.
#[derive(Debug)]
pub struct VectorReloadError;

/// Configuration files failed to load, aborting a reload.
#[derive(Debug)]
pub struct VectorConfigLoadError;

/// Recovery from a failed reload did not succeed.
#[derive(Debug)]
pub struct VectorRecoveryError;

} // verus!
