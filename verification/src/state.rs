//! Process-wide shared state for the API surface.

use vstd::prelude::*;

verus! {

/// Shared application state: created once at startup and handed to every
/// handler.
#[derive(Clone)]
pub struct AppState {
    pub app_version: String,
}

impl AppState {
    /// Builds the shared state carrying the application version string.
    pub fn new(app_version: String) -> (r: AppState)
        ensures
            r.app_version == app_version,
    {
        AppState { app_version }
    }
}

} // verus!
