use futures_executor::LocalSpawner as PoolSpawner;
use futures_task::LocalFutureObj;
use futures_task::LocalSpawn;
use futures_task::SpawnError as PoolError;
use std::rc::Rc;
use vstd::prelude::*;

use crate::adapter::IntoLocalSpawner;
use crate::completer::{SpawnCompleter, SpawnCompleterBuilder};
use crate::error::SpawnError;
use crate::layout::Layout;
use crate::task::{Storage, TaskObj};

verus! {

/// `futures_executor::LocalSpawner`: a weak reference to the queue of a `LocalPool`.
#[verifier::external_type_specification]
#[verifier::external_body]
pub struct ExPoolSpawner(PoolSpawner);

/// `futures_task::SpawnError`: the reason a pool gives for refusing a task.
#[verifier::external_type_specification]
#[verifier::external_body]
pub struct ExPoolError(PoolError);

/// Calls `LocalSpawn::spawn_local_obj` on the pool's spawner, which queues the future if the
/// pool still exists and answers with an error if it does not. Which of the two happens
/// depends on the pool, so nothing is claimed about the answer.
#[verifier::external_body]
fn spawn_local_obj(spawner: &Rc<PoolSpawner>, future: LocalFutureObj<'static, ()>) -> (answer: Result<
    (),
    PoolError,
>) {
    spawner.spawn_local_obj(future)
}

/// Calls `futures_task::SpawnError::is_shutdown`. A shut-down pool is the only reason this
/// error type knows, and the function answers `true` for every value of it.
#[verifier::external_body]
fn is_shutdown(error: &PoolError) -> (b: bool)
    ensures
        b,
{
    error.is_shutdown()
}

/// What the pool's answer to a registration means for the caller: success stays success, and
/// a refusal is reported as `Shutdown` if the pool says so and as `Other` if it does not.
pub fn registration_result(answer: Result<(), bool>) -> (r: Result<(), SpawnError>)
    ensures
        r == (match answer {
            Ok(()) => Ok(()),
            Err(is_shutdown) => Err(
                if is_shutdown {
                    SpawnError::Shutdown
                } else {
                    SpawnError::Other
                },
            ),
        }),
{
    match answer {
        Ok(()) => Ok(()),
        Err(is_shutdown) => Err(SpawnError::from_shutdown(is_shutdown)),
    }
}

/// The results that a pool's spawner can give: the task was queued, or the pool is gone.
pub open spec fn pool_outcomes() -> Set<Result<(), SpawnError>> {
    set![Ok(()), Err(SpawnError::Shutdown)]
}

/// A pool never refuses a task for any reason but its own shutdown.
pub proof fn lemma_pool_refusal_is_shutdown(r: Result<(), SpawnError>)
    requires
        pool_outcomes().contains(r),
        r is Err,
    ensures
        r == Err::<(), SpawnError>(SpawnError::Shutdown),
{
}

impl IntoLocalSpawner for Rc<PoolSpawner> {
    type Handle = Rc<PoolSpawner>;

    open spec fn token(self) -> Rc<PoolSpawner> {
        self
    }

    open spec fn outcomes(handle: Rc<PoolSpawner>) -> Set<Result<(), SpawnError>> {
        pool_outcomes()
    }

    fn into_handle(self) -> (handle: Rc<PoolSpawner>) {
        self
    }

    fn spawn_dyn<'a>(
        handle: &Rc<PoolSpawner>,
        builder: SpawnCompleterBuilder<'a>,
        future_layout: Layout,
    ) -> (completer: SpawnCompleter<'a>)
        ensures
            completer.task_storage() == completer.future_storage(),
    {
        let future = Storage::new(future_layout);
        let task = future;
        builder.build(task, future)
    }

    fn finish_spawn(handle: &Rc<PoolSpawner>, task: TaskObj) -> (r: Result<(), SpawnError>) {
        let answer = match spawn_local_obj(handle, task.into_future()) {
            Ok(()) => Ok(()),
            Err(error) => Err(is_shutdown(&error)),
        };
        registration_result(answer)
    }
}

} // verus!
