use std::future::Future;
use vstd::prelude::*;

use crate::layout::Layout;

verus! {

/// `futures_task::LocalFutureObj` is a future whose concrete type has been erased: it can be
/// polled, and nothing else is known of it. Nothing is claimed about its contents.
#[verifier::external_type_specification]
#[verifier::external_body]
#[verifier::reject_recursive_types(T)]
pub struct ExLocalFutureObj<'a, T>(futures_task::LocalFutureObj<'a, T>);

/// Storage set aside for one task: a region described by its layout, not yet holding a future.
#[derive(Debug, Clone, Copy, PartialEq, Eq, Structural)]
pub struct Storage {
    pub layout: Layout,
}

impl Storage {
    /// Sets storage aside for a value of the given layout.
    pub fn new(layout: Layout) -> (storage: Storage)
        ensures
            storage == (Storage { layout }),
    {
        Storage { layout }
    }

    /// The layout this storage was set aside for.
    pub fn layout(&self) -> (layout: Layout)
        ensures
            layout == self.layout,
    {
        self.layout
    }
}

/// An initialized future seen only through dynamic dispatch, together with the storage of the
/// task it belongs to and the layout of the concrete type it was written as.
pub struct TaskObj {
    task: Storage,
    layout: Layout,
    future: futures_task::LocalFutureObj<'static, ()>,
}

/// Calls `futures_task::LocalFutureObj::from` on the boxed future, which keeps the box and
/// forgets the concrete type. Nothing is claimed about the result.
#[verifier::external_body]
fn erase<F: Future<Output = ()> + 'static>(f: F) -> (obj: futures_task::LocalFutureObj<'static, ()>)
{
    futures_task::LocalFutureObj::from(Box::new(f))
}

impl TaskObj {
    pub closed spec fn spec_layout(&self) -> Layout {
        self.layout
    }

    /// Writes `f` into the storage set aside for the future and forgets its concrete type.
    /// The result is the view of the task whose storage is `task`, in which the future lies.
    ///
    /// The storage for the future must have been set aside for exactly the layout of `F`.
    pub fn write<F: Future<Output = ()> + 'static>(task: Storage, future: Storage, f: F) -> (written:
        TaskObj)
        requires
            future.layout == Layout::of::<F>(),
        ensures
            written.layout() == Layout::of::<F>(),
            written.layout() == future.layout,
            written.task_storage() == task,
    {
        TaskObj { task, layout: future.layout(), future: erase(f) }
    }

    pub closed spec fn spec_task_storage(&self) -> Storage {
        self.task
    }

    /// The storage of the task that the future belongs to.
    #[verifier::when_used_as_spec(spec_task_storage)]
    pub fn task_storage(&self) -> (storage: Storage)
        ensures
            storage == self.spec_task_storage(),
    {
        self.task
    }

    /// The layout of the concrete future behind this view.
    #[verifier::when_used_as_spec(spec_layout)]
    pub fn layout(&self) -> (layout: Layout)
        ensures
            layout == self.spec_layout(),
    {
        self.layout
    }

    /// Gives up the view for the executor to poll.
    pub fn into_future(self) -> (future: futures_task::LocalFutureObj<'static, ()>)
        ensures
            future == self.dyn_view(),
    {
        self.future
    }

    /// The erased future held inside, as the executor will poll it.
    pub closed spec fn dyn_view(&self) -> futures_task::LocalFutureObj<'static, ()> {
        self.future
    }
}

} // verus!
