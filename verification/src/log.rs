//! The logging plugin. Its setup installs a subscriber of the host's logging
//! system and is done by the application.
use vstd::prelude::*;

verus! {

/// Installs logging for the application; the filter is taken from the
/// `RUST_LOG` environment variable, e.g. "wgpu=error, info".
pub struct LogPlugin;

impl Default for LogPlugin {
    fn default() -> (p: Self) {
        Self {  }
    }
}

} // verus!
