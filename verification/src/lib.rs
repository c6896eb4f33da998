//! A type-erased handle for spawning `!Send` futures onto a single-threaded executor.
//!
//! A [`LocalSpawner`] hides which executor a future is handed to. It is built once from a value
//! that implements [`IntoLocalSpawner`]; afterwards it can be cloned, dropped, and asked to spawn.
//! Spawning runs in two phases: the adapter first sets storage aside for a future of a given
//! layout, then the future is written into that storage and registered with the executor.

pub mod adapter;
pub mod completer;
pub mod dioxus_spawner;
pub mod error;
pub mod layout;
pub mod local_executor;
pub mod local_pool;
pub mod local_set;
pub mod ownership;
pub mod spawner;
pub mod task;
pub mod vtable;

pub use adapter::IntoLocalSpawner;
pub use completer::{Registrar, SpawnCompleter, SpawnCompleterBuilder};
pub use dioxus_spawner::DioxusSpawner;
pub use error::SpawnError;
pub use layout::Layout;
pub use local_pool::registration_result;
pub use ownership::Ownership;
pub use spawner::LocalSpawner;
pub use task::{Storage, TaskObj};
pub use vtable::LocalSpawnerVtable;
