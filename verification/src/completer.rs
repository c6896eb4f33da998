use std::future::Future;
use vstd::prelude::*;

use crate::error::SpawnError;
use crate::layout::Layout;
use crate::task::{Storage, TaskObj};

verus! {

/// The registration step of one handle: its opaque token bound to the function that hands an
/// initialized task to the executor.
pub trait Registrar {
    /// Every result that registering a task through this handle may return. Unless an
    /// implementation narrows this down, any result may come.
    open spec fn outcomes(&self) -> Set<Result<(), SpawnError>> {
        Set::full()
    }

    /// Whether registering `task` through this handle can answer `r`. Unless an
    /// implementation narrows this down, any answer can come for any task.
    open spec fn answers(&self, task: TaskObj, r: Result<(), SpawnError>) -> bool {
        true
    }

    /// Hands the task to the executor.
    fn finish_spawn(&self, task: TaskObj) -> (r: Result<(), SpawnError>)
        ensures
            self.outcomes().contains(r),
            self.answers(task, r),
    ;
}

/// The first phase of one spawn call: knows where the task will be registered, and waits for
/// the adapter to set storage aside.
pub struct SpawnCompleterBuilder<'a> {
    /// Where the task of this spawn call will be registered.
    pub registrar: &'a dyn Registrar,
}

/// The second phase of one spawn call: storage has been set aside, and the future can be
/// written into it and registered.
pub struct SpawnCompleter<'a> {
    builder: SpawnCompleterBuilder<'a>,
    task: Storage,
    future: Storage,
}

impl<'a> SpawnCompleterBuilder<'a> {
    /// Every result that the spawn call this builder belongs to may return.
    pub open spec fn outcomes(&self) -> Set<Result<(), SpawnError>> {
        self.registrar.outcomes()
    }

    /// Whether registering `task` in the spawn call this builder belongs to can answer `r`.
    pub open spec fn answers(&self, task: TaskObj, r: Result<(), SpawnError>) -> bool {
        self.registrar.answers(task, r)
    }

    /// Binds the builder to the storage that the adapter has set aside: `task` for the whole
    /// task, `future` for the future inside it. The two may be the same.
    pub fn build(self, task: Storage, future: Storage) -> (completer: SpawnCompleter<'a>)
        ensures
            completer.builder() == self,
            completer.task_storage() == task,
            completer.future_storage() == future,
    {
        SpawnCompleter { builder: self, task, future }
    }
}

impl<'a> SpawnCompleter<'a> {
    /// The builder this completer was built from.
    pub closed spec fn builder(&self) -> SpawnCompleterBuilder<'a> {
        self.builder
    }

    /// The storage set aside for the whole task.
    pub closed spec fn spec_task_storage(&self) -> Storage {
        self.task
    }

    /// The storage set aside for the future.
    pub closed spec fn spec_future_storage(&self) -> Storage {
        self.future
    }

    /// Every result that completing this spawn call may return.
    pub open spec fn outcomes(&self) -> Set<Result<(), SpawnError>> {
        self.builder().outcomes()
    }

    /// Whether a spawn call that writes a future of the given layout and registers it can
    /// return `r`: some view of a future of that layout, in the task storage that was set
    /// aside, is answered with `r` by the registration.
    pub open spec fn completes_with(&self, layout: Layout, r: Result<(), SpawnError>) -> bool {
        exists|task: TaskObj|
            task.layout() == layout && task.task_storage() == self.task_storage()
                && #[trigger] self.builder().answers(task, r)
    }

    #[verifier::when_used_as_spec(spec_task_storage)]
    pub fn task_storage(&self) -> (storage: Storage)
        ensures
            storage == self.spec_task_storage(),
    {
        self.task
    }

    #[verifier::when_used_as_spec(spec_future_storage)]
    pub fn future_storage(&self) -> (storage: Storage)
        ensures
            storage == self.spec_future_storage(),
    {
        self.future
    }

    /// Whether the storage that was set aside has the layout of `F`, so that a future of type
    /// `F` may be written into it.
    pub fn accepts<F>(&self) -> (b: bool)
        ensures
            b == (self.future_storage().layout == Layout::of::<F>()),
    {
        self.future.layout().fits::<F>()
    }

    /// Writes the future into the storage that was set aside, registers the task, and hands
    /// back what the registration answered.
    ///
    /// The storage must have been set aside for the layout of `F`: writing a future of any
    /// other layout is a programming error, ruled out here before the call is made.
    pub fn spawn<F: Future<Output = ()> + 'static>(self, f: F) -> (r: Result<(), SpawnError>)
        requires
            self.future_storage().layout == Layout::of::<F>(),
        ensures
            self.outcomes().contains(r),
            self.completes_with(Layout::of::<F>(), r),
    {
        let task = TaskObj::write(self.task, self.future, f);
        let r = self.builder.registrar.finish_spawn(task);
        assert(self.builder().answers(task, r));
        r
    }
}

} // verus!
