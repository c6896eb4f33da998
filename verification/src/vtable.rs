use std::marker::PhantomData;
use vstd::prelude::*;

use crate::adapter::IntoLocalSpawner;
use crate::completer::{SpawnCompleter, SpawnCompleterBuilder};
use crate::error::SpawnError;
use crate::layout::Layout;
use crate::task::TaskObj;

verus! {

/// The function table of one adapter type: four slots, each of which calls the adapter's own
/// operation and hands back what that call returned. It holds no data, so every table of one
/// adapter type is the same table.
pub struct LocalSpawnerVtable<T> {
    adapter: PhantomData<T>,
}

impl<T: IntoLocalSpawner + 'static> LocalSpawnerVtable<T> {
    /// The table of adapter type `T`.
    pub closed spec fn table() -> Self {
        LocalSpawnerVtable { adapter: PhantomData }
    }

    /// The table of adapter type `T`, which lives as long as the process.
    pub fn get() -> (vtable: &'static Self)
        ensures
            *vtable == Self::table(),
    {
        &LocalSpawnerVtable { adapter: PhantomData }
    }

    /// The allocation slot.
    pub fn spawn_dyn<'a>(
        &self,
        handle: &T::Handle,
        builder: SpawnCompleterBuilder<'a>,
        future_layout: Layout,
    ) -> (completer: SpawnCompleter<'a>)
        ensures
            call_ensures(T::spawn_dyn, (handle, builder, future_layout), completer),
            completer.builder() == builder,
            completer.future_storage().layout == future_layout,
    {
        T::spawn_dyn(handle, builder, future_layout)
    }

    /// The registration slot.
    pub fn finish_spawn(&self, handle: &T::Handle, task: TaskObj) -> (r: Result<(), SpawnError>)
        ensures
            call_ensures(T::finish_spawn, (handle, task), r),
            T::outcomes(*handle).contains(r),
    {
        T::finish_spawn(handle, task)
    }

    /// The slot called when a handle is cloned.
    pub fn on_clone(&self, handle: &T::Handle)
        ensures
            call_ensures(T::on_clone, (handle,), ()),
    {
        T::on_clone(handle)
    }

    /// The slot called when a handle is dropped.
    pub fn on_drop(&self, handle: &T::Handle)
        ensures
            call_ensures(T::on_drop, (handle,), ()),
        opens_invariants none
        no_unwind
    {
        T::on_drop(handle)
    }
}

/// Any two tables of one adapter type are equal: the table is not rebuilt per call.
pub proof fn lemma_vtable_identity<T: IntoLocalSpawner + 'static>(
    a: LocalSpawnerVtable<T>,
    b: LocalSpawnerVtable<T>,
)
    ensures
        a == b,
        a == LocalSpawnerVtable::<T>::table(),
{
}

} // verus!
