use vstd::prelude::*;

use crate::completer::{SpawnCompleter, SpawnCompleterBuilder};
use crate::error::SpawnError;
use crate::layout::Layout;
use crate::task::TaskObj;

verus! {

/// What an executor's own spawner must offer to be wrapped in a `LocalSpawner`.
///
/// The spawner is turned into an opaque token once. Every later operation is handed that token
/// and nothing else.
pub trait IntoLocalSpawner: Sized {
    /// The opaque token. Only this adapter's own functions read it.
    type Handle;

    /// The token that `into_handle` yields for this spawner. Unless an adapter says which it
    /// is, nothing is known of it.
    open spec fn token(self) -> Self::Handle {
        arbitrary()
    }

    /// Every result that `finish_spawn` may return on this token. Unless an adapter narrows
    /// this down, any result may come.
    open spec fn outcomes(handle: Self::Handle) -> Set<Result<(), SpawnError>> {
        Set::full()
    }

    /// Consumes the spawner and yields its token.
    fn into_handle(self) -> (handle: Self::Handle)
        ensures
            handle == self.token(),
    ;

    /// Sets storage aside for a future of the given layout and binds the builder to it.
    fn spawn_dyn<'a>(
        handle: &Self::Handle,
        builder: SpawnCompleterBuilder<'a>,
        future_layout: Layout,
    ) -> (completer: SpawnCompleter<'a>)
        ensures
            completer.builder() == builder,
            completer.future_storage().layout == future_layout,
    ;

    /// Takes the initialized task, seen only through dynamic dispatch, and hands it to the
    /// executor's queue.
    fn finish_spawn(handle: &Self::Handle, task: TaskObj) -> (r: Result<(), SpawnError>)
        ensures
            Self::outcomes(*handle).contains(r),
    ;

    /// Told that one more `LocalSpawner` now shares the token. Does nothing unless overridden.
    fn on_clone(handle: &Self::Handle) {
    }

    /// Told that one `LocalSpawner` sharing the token is going away. Does nothing unless
    /// overridden.
    fn on_drop(handle: &Self::Handle)
        opens_invariants none
        no_unwind
    {
    }
}

/// Whatever adapter sets the storage aside, what it hands back for the layout of `F` accepts a
/// future of type `F`, and registers where the builder said: the layout asked for at
/// allocation and the layout written always match.
pub proof fn lemma_allocation_matches_write<'a, T: IntoLocalSpawner, F>(
    handle: T::Handle,
    builder: SpawnCompleterBuilder<'a>,
    completer: SpawnCompleter<'a>,
)
    requires
        call_ensures(T::spawn_dyn, (&handle, builder, Layout::of::<F>()), completer),
    ensures
        completer.future_storage().layout == Layout::of::<F>(),
        completer.outcomes() == builder.outcomes(),
{
}

} // verus!
