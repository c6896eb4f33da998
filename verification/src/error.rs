use vstd::prelude::*;

verus! {

/// Why a future could not be registered with its executor.
#[derive(Debug, Clone, Copy, PartialEq, Eq, Structural)]
pub enum SpawnError {
    /// The executor has been torn down and accepts no more tasks.
    Shutdown,
    /// Registration failed for a reason the executor does not classify.
    Other,
}

impl SpawnError {
    /// Classifies a registration failure by whether the executor reported being shut down.
    pub fn from_shutdown(is_shutdown: bool) -> (e: SpawnError)
        ensures
            e == (if is_shutdown { SpawnError::Shutdown } else { SpawnError::Other }),
    {
        if is_shutdown {
            SpawnError::Shutdown
        } else {
            SpawnError::Other
        }
    }

    /// Whether this error says that the executor has shut down.
    pub fn is_shutdown(&self) -> (b: bool)
        ensures
            b == (*self == SpawnError::Shutdown),
    {
        match self {
            SpawnError::Shutdown => true,
            SpawnError::Other => false,
        }
    }
}

} // verus!
