use async_executor::LocalExecutor;
use futures_task::LocalFutureObj;
use std::rc::Rc;
use vstd::prelude::*;

use crate::adapter::IntoLocalSpawner;
use crate::completer::{SpawnCompleter, SpawnCompleterBuilder};
use crate::error::SpawnError;
use crate::layout::Layout;
use crate::task::{Storage, TaskObj};

verus! {

/// `async_executor::LocalExecutor`: a single-threaded executor.
#[verifier::external_type_specification]
#[verifier::external_body]
pub struct ExLocalExecutor<'a>(async_executor::LocalExecutor<'a>);

/// `async_executor::Task`: the owner of a spawned task, which cancels it when dropped.
#[verifier::external_type_specification]
#[verifier::external_body]
#[verifier::reject_recursive_types(T)]
#[verifier::reject_recursive_types(M)]
pub struct ExExecutorTask<T, M>(async_executor::Task<T, M>);

/// Calls `LocalExecutor::spawn`, which queues the future and returns its owner. Nothing is
/// claimed about the owner.
#[verifier::external_body]
fn spawn(executor: &Rc<LocalExecutor<'static>>, future: LocalFutureObj<'static, ()>) -> (owner:
    async_executor::Task<()>) {
    executor.spawn(future)
}

/// Calls `Task::detach`, which lets the task run on without an owner.
#[verifier::external_body]
fn detach(owner: async_executor::Task<()>) {
    owner.detach()
}

/// The one result that this executor gives: it takes every task.
pub open spec fn executor_outcomes() -> Set<Result<(), SpawnError>> {
    set![Ok(())]
}

impl IntoLocalSpawner for Rc<LocalExecutor<'static>> {
    type Handle = Rc<LocalExecutor<'static>>;

    open spec fn token(self) -> Rc<LocalExecutor<'static>> {
        self
    }

    open spec fn outcomes(handle: Rc<LocalExecutor<'static>>) -> Set<Result<(), SpawnError>> {
        executor_outcomes()
    }

    fn into_handle(self) -> (handle: Rc<LocalExecutor<'static>>) {
        self
    }

    fn spawn_dyn<'a>(
        handle: &Rc<LocalExecutor<'static>>,
        builder: SpawnCompleterBuilder<'a>,
        future_layout: Layout,
    ) -> (completer: SpawnCompleter<'a>)
        ensures
            completer.task_storage() == completer.future_storage(),
    {
        let future = Storage::new(future_layout);
        let task = future;
        builder.build(task, future)
    }

    fn finish_spawn(handle: &Rc<LocalExecutor<'static>>, task: TaskObj) -> (r: Result<(), SpawnError>)
        ensures
            r == Ok::<(), SpawnError>(()),
    {
        detach(spawn(handle, task.into_future()));
        Ok(())
    }
}

} // verus!
