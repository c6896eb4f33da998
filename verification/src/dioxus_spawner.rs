use dioxus::dioxus_core::Runtime;
use dioxus::dioxus_core::ScopeId;
use std::rc::Rc;
use vstd::prelude::*;

use crate::error::SpawnError;

verus! {

/// `dioxus_core::Runtime`: the state that the components of one virtual DOM share.
#[verifier::external_type_specification]
#[verifier::external_body]
pub struct ExRuntime(dioxus::dioxus_core::Runtime);

/// `dioxus_core::ScopeId`: the name of one component's scope inside a runtime.
#[verifier::external_type_specification]
#[verifier::external_body]
pub struct ExScopeId(dioxus::dioxus_core::ScopeId);

/// Calls `Runtime::try_current`, which yields the runtime that this thread is running in, if
/// it is running in one. That depends on the caller's surroundings, so nothing is claimed.
#[verifier::external_body]
fn current_runtime() -> (runtime: Option<Rc<Runtime>>) {
    Runtime::try_current()
}

/// Calls `Runtime::try_current_scope_id`, which yields the scope that the runtime is working
/// in, if it is working in one. Nothing is claimed about the answer.
#[verifier::external_body]
fn current_scope(runtime: &Rc<Runtime>) -> (scope: Option<ScopeId>) {
    runtime.try_current_scope_id()
}

/// Stands for the Dioxus runtime that the calling component belongs to. It has no state of its
/// own.
///
/// It decides whether a task can be handed to that runtime. The hand-over itself is left to
/// the caller: Dioxus panics on it when the runtime does not hold the scope it is working in,
/// or when its virtual DOM is gone, and offers no way to ask for either beforehand.
#[derive(Copy, Clone, Debug)]
pub struct DioxusSpawner;

/// What the surroundings of a spawn call mean for it, given what the two lookups found, the
/// scope being looked for only in a runtime that was found.
///
/// With no runtime on the thread the executor is gone, or was never there: `Shutdown`. With a
/// runtime that is working in no scope there is nowhere to put the task: `Other`. With both,
/// the task can be handed over.
pub fn registration_in(runtime: &Option<Rc<Runtime>>, scope: &Option<ScopeId>) -> (r: Result<(), SpawnError>)
    ensures
        r == (match (*runtime, *scope) {
            (None, _) => Err::<(), SpawnError>(SpawnError::Shutdown),
            (Some(_), None) => Err::<(), SpawnError>(SpawnError::Other),
            (Some(_), Some(_)) => Ok::<(), SpawnError>(()),
        }),
{
    match runtime {
        None => Err(SpawnError::Shutdown),
        Some(_) => match scope {
            None => Err(SpawnError::Other),
            Some(_) => Ok(()),
        },
    }
}

impl DioxusSpawner {
    /// Looks for the runtime around the caller and for the scope it is working in, and says
    /// with `registration_in` whether a task can be handed over here and now.
    pub fn registration(&self) -> (r: Result<(), SpawnError>) {
        let runtime = current_runtime();
        let scope = match &runtime {
            Some(found) => current_scope(found),
            None => None,
        };
        registration_in(&runtime, &scope)
    }
}

} // verus!
