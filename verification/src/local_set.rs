use futures_task::LocalFutureObj;
use std::rc::Rc;
use tokio::task::LocalSet;
use vstd::prelude::*;

use crate::adapter::IntoLocalSpawner;
use crate::completer::{SpawnCompleter, SpawnCompleterBuilder};
use crate::error::SpawnError;
use crate::layout::Layout;
use crate::task::{Storage, TaskObj};

verus! {

/// `tokio::task::LocalSet`: a set of tasks that run on one thread.
#[verifier::external_type_specification]
#[verifier::external_body]
pub struct ExLocalSet(tokio::task::LocalSet);

/// Calls `LocalSet::spawn_local`, which adds the future to the set, and lets go of the handle
/// for awaiting it, which leaves the task in the set.
#[verifier::external_body]
fn spawn_local(set: &Rc<LocalSet>, future: LocalFutureObj<'static, ()>) {
    let _ = set.spawn_local(future);
}

/// The one result that a task set gives: it takes every task.
pub open spec fn set_outcomes() -> Set<Result<(), SpawnError>> {
    set![Ok(())]
}

impl IntoLocalSpawner for Rc<LocalSet> {
    type Handle = Rc<LocalSet>;

    open spec fn token(self) -> Rc<LocalSet> {
        self
    }

    open spec fn outcomes(handle: Rc<LocalSet>) -> Set<Result<(), SpawnError>> {
        set_outcomes()
    }

    fn into_handle(self) -> (handle: Rc<LocalSet>) {
        self
    }

    fn spawn_dyn<'a>(
        handle: &Rc<LocalSet>,
        builder: SpawnCompleterBuilder<'a>,
        future_layout: Layout,
    ) -> (completer: SpawnCompleter<'a>)
        ensures
            completer.task_storage() == completer.future_storage(),
    {
        let future = Storage::new(future_layout);
        let task = future;
        builder.build(task, future)
    }

    fn finish_spawn(handle: &Rc<LocalSet>, task: TaskObj) -> (r: Result<(), SpawnError>)
        ensures
            r == Ok::<(), SpawnError>(()),
    {
        spawn_local(handle, task.into_future());
        Ok(())
    }
}

} // verus!
