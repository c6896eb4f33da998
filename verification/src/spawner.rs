use std::future::Future;
use std::rc::Rc;
use vstd::prelude::*;

use crate::adapter::IntoLocalSpawner;
use crate::completer::{Registrar, SpawnCompleter, SpawnCompleterBuilder};
use crate::error::SpawnError;
use crate::layout::Layout;
use crate::task::TaskObj;
use crate::vtable::LocalSpawnerVtable;

verus! {

/// The four slots of a function table, bound to one token and seen without the adapter's type.
trait Slots {
    spec fn outcomes(&self) -> Set<Result<(), SpawnError>>;

    spec fn answers(&self, task: TaskObj, r: Result<(), SpawnError>) -> bool;

    spec fn clone_hook_ran(&self) -> bool;

    spec fn allocated(&self, builder: SpawnCompleterBuilder, layout: Layout, completer: SpawnCompleter) -> bool;

    fn builder<'a>(&'a self) -> (builder: SpawnCompleterBuilder<'a>)
        ensures
            builder.outcomes() == self.outcomes(),
            forall|task: TaskObj, r: Result<(), SpawnError>|
                #[trigger] builder.answers(task, r) == self.answers(task, r),
    ;

    fn spawn_dyn<'a>(&self, builder: SpawnCompleterBuilder<'a>, future_layout: Layout) -> (completer:
        SpawnCompleter<'a>)
        ensures
            self.allocated(builder, future_layout, completer),
            completer.builder() == builder,
            completer.future_storage().layout == future_layout,
    ;

    fn on_clone(&self)
        ensures
            self.clone_hook_ran(),
    ;

    fn on_drop(&self)
        opens_invariants none
        no_unwind
    {
    }
}

/// One opaque token paired with the function table of the adapter that made it.
struct Bound<T: IntoLocalSpawner + 'static> {
    handle: T::Handle,
    vtable: &'static LocalSpawnerVtable<T>,
}

impl<T: IntoLocalSpawner + 'static> Registrar for Bound<T> {
    closed spec fn outcomes(&self) -> Set<Result<(), SpawnError>> {
        T::outcomes(self.handle)
    }

    closed spec fn answers(&self, task: TaskObj, r: Result<(), SpawnError>) -> bool {
        call_ensures(T::finish_spawn, (&self.handle, task), r)
    }

    fn finish_spawn(&self, task: TaskObj) -> (r: Result<(), SpawnError>) {
        self.vtable.finish_spawn(&self.handle, task)
    }
}

impl<T: IntoLocalSpawner + 'static> Slots for Bound<T> {
    closed spec fn outcomes(&self) -> Set<Result<(), SpawnError>> {
        T::outcomes(self.handle)
    }

    closed spec fn answers(&self, task: TaskObj, r: Result<(), SpawnError>) -> bool {
        call_ensures(T::finish_spawn, (&self.handle, task), r)
    }

    closed spec fn clone_hook_ran(&self) -> bool {
        call_ensures(T::on_clone, (&self.handle,), ())
    }

    closed spec fn allocated(&self, builder: SpawnCompleterBuilder, layout: Layout, completer: SpawnCompleter) -> bool {
        call_ensures(T::spawn_dyn, (&self.handle, builder, layout), completer)
    }

    fn builder<'a>(&'a self) -> (builder: SpawnCompleterBuilder<'a>) {
        SpawnCompleterBuilder { registrar: self }
    }

    fn spawn_dyn<'a>(&self, builder: SpawnCompleterBuilder<'a>, future_layout: Layout) -> (completer:
        SpawnCompleter<'a>) {
        self.vtable.spawn_dyn(&self.handle, builder, future_layout)
    }

    fn on_clone(&self) {
        self.vtable.on_clone(&self.handle)
    }

    fn on_drop(&self) {
        self.vtable.on_drop(&self.handle)
    }
}

/// A token and its table with the adapter's type erased.
struct Pair {
    slots: Box<dyn Slots>,
}

/// A handle for spawning `!Send` futures onto one executor, whichever it is.
///
/// Clones share one token and one table. The token stays valid until the last clone is gone.
pub struct LocalSpawner {
    inner: Rc<Pair>,
}

impl LocalSpawner {
    /// Every result that spawning through this handle may return.
    pub closed spec fn outcomes(&self) -> Set<Result<(), SpawnError>> {
        self.inner.slots.outcomes()
    }

    /// Whether registering `task` through this handle can answer `r`: whether the adapter's
    /// own registration, called on the handle's token with that task, can return `r`.
    pub closed spec fn answers(&self, task: TaskObj, r: Result<(), SpawnError>) -> bool {
        self.inner.slots.answers(task, r)
    }

    /// Whether the adapter's own allocation, called on the handle's token with that builder
    /// and that layout, can return `completer`.
    pub closed spec fn allocated(
        &self,
        builder: SpawnCompleterBuilder,
        layout: Layout,
        completer: SpawnCompleter,
    ) -> bool {
        self.inner.slots.allocated(builder, layout, completer)
    }

    /// Whether `builder` is a builder of this handle: whether it registers where the handle
    /// registers.
    pub open spec fn builds(&self, builder: SpawnCompleterBuilder) -> bool {
        forall|task: TaskObj, r: Result<(), SpawnError>| #[trigger]
            builder.answers(task, r) == self.answers(task, r)
    }

    /// Whether a spawn call through this handle for a future of the given layout can return
    /// `r`: the adapter's allocation, asked on the handle's token for that layout with a
    /// builder of this handle, answered with storage of that layout, and the registration of
    /// a future of that layout in that storage answered `r`.
    pub open spec fn spawns_with(&self, layout: Layout, r: Result<(), SpawnError>) -> bool {
        exists|builder: SpawnCompleterBuilder, completer: SpawnCompleter|
            self.builds(builder) && #[trigger] self.allocated(builder, layout, completer)
                && completer.builder() == builder && completer.future_storage().layout == layout
                && completer.completes_with(layout, r)
    }

    /// Whether the adapter's clone hook has been called on this handle's token and has
    /// returned.
    pub closed spec fn clone_hook_ran(&self) -> bool {
        self.inner.slots.clone_hook_ran()
    }

    /// Wraps an executor's own spawner: the handle's token is the one the adapter makes of it,
    /// and the handle's operations are the adapter's own on that token.
    pub fn new<T: IntoLocalSpawner + 'static>(inner: T) -> (spawner: Self)
        ensures
            spawner.outcomes() == T::outcomes(inner.token()),
            forall|task: TaskObj, r: Result<(), SpawnError>| #[trigger]
                spawner.answers(task, r) == call_ensures(T::finish_spawn, (&inner.token(), task), r),
            spawner.clone_hook_ran() == call_ensures(T::on_clone, (&inner.token(),), ()),
            forall|builder: SpawnCompleterBuilder, layout: Layout, completer: SpawnCompleter| #[trigger]
                spawner.allocated(builder, layout, completer) == call_ensures(
                    T::spawn_dyn,
                    (&inner.token(), builder, layout),
                    completer,
                ),
    {
        let handle = T::into_handle(inner);
        let pair = Pair { slots: Box::new(Bound::<T> { handle, vtable: LocalSpawnerVtable::<T>::get() }) };
        LocalSpawner { inner: Rc::new(pair) }
    }

    /// Spawns a future: has storage set aside for its layout, writes it there, and registers
    /// the task. Returns what the adapter's registration answered, once the executor has taken
    /// the task or refused it.
    pub fn spawn<F: Future<Output = ()> + 'static>(&self, f: F) -> (r: Result<(), SpawnError>)
        ensures
            self.outcomes().contains(r),
            self.spawns_with(Layout::of::<F>(), r),
    {
        let builder = self.inner.slots.builder();
        let completer = self.inner.slots.spawn_dyn(builder, Layout::new::<F>());
        let r = completer.spawn(f);
        assert(self.builds(builder) && self.allocated(builder, Layout::of::<F>(), completer));
        r
    }
}

/// A handle made from an adapter, and every clone of it, answers a spawn call only with what
/// the adapter's registration can answer on the token the handle was made with.
pub proof fn lemma_clones_answer_alike<T: IntoLocalSpawner + 'static>(
    inner: T,
    first: LocalSpawner,
    cloned: LocalSpawner,
    r: Result<(), SpawnError>,
)
    requires
        call_ensures(LocalSpawner::new::<T>, (inner,), first),
        call_ensures(<LocalSpawner as Clone>::clone, (&first,), cloned),
        cloned.outcomes().contains(r),
    ensures
        T::outcomes(inner.token()).contains(r),
{
}

impl Clone for LocalSpawner {
    /// Shares the token and the table with a new handle, and tells the adapter through its
    /// clone hook.
    fn clone(&self) -> (cloned: Self)
        ensures
            cloned == *self,
            self.clone_hook_ran(),
    {
        self.inner.slots.on_clone();
        LocalSpawner { inner: self.inner.clone() }
    }
}

impl Drop for LocalSpawner {
    /// Tells the adapter that this handle is going away.
    fn drop(&mut self)
        ensures
            *final(self) == *old(self),
        opens_invariants none
        no_unwind
    {
        self.inner.slots.on_drop();
    }
}

} // verus!
