use std::cell::Cell;
use std::rc::Rc;

use dioxus::prelude::{Element, ScopeId, VNode, VirtualDom};
use ispawn::dioxus_spawner::registration_in;
use ispawn::{
    DioxusSpawner, IntoLocalSpawner, Layout, LocalSpawner, SpawnCompleter, SpawnCompleterBuilder, SpawnError,
    Storage, TaskObj,
};

fn app() -> Element {
    VNode::empty()
}

/// Hands a task to the runtime around the caller where `DioxusSpawner` says that it can.
struct InScope(DioxusSpawner);

impl IntoLocalSpawner for InScope {
    type Handle = DioxusSpawner;

    fn into_handle(self) -> DioxusSpawner {
        self.0
    }

    fn spawn_dyn<'a>(
        _handle: &DioxusSpawner,
        builder: SpawnCompleterBuilder<'a>,
        future_layout: Layout,
    ) -> SpawnCompleter<'a> {
        let storage = Storage::new(future_layout);
        builder.build(storage, storage)
    }

    fn finish_spawn(handle: &DioxusSpawner, task: TaskObj) -> Result<(), SpawnError> {
        handle.registration()?;
        let _ = dioxus::prelude::spawn(task.into_future());
        Ok(())
    }
}

#[test]
fn dioxus_spawns_inside_a_runtime() {
    let mut dom = VirtualDom::new(app);
    dom.rebuild_in_place();

    let spawner = LocalSpawner::new(InScope(DioxusSpawner));
    let value = Rc::new(Cell::new(0));
    let sink = value.clone();
    let spawned = dom.in_scope(ScopeId::ROOT, || spawner.spawn(async move { sink.set(42); }));
    assert_eq!(spawned, Ok(()));

    dom.process_events();
    assert_eq!(value.get(), 42);
}

#[test]
fn dioxus_without_a_runtime_reports_shutdown() {
    assert_eq!(DioxusSpawner.registration(), Err(SpawnError::Shutdown));

    let spawner = LocalSpawner::new(InScope(DioxusSpawner));
    let value = Rc::new(Cell::new(0));
    let sink = value.clone();
    assert_eq!(spawner.spawn(async move { sink.set(42); }), Err(SpawnError::Shutdown));
    assert_eq!(value.get(), 0);
}

#[test]
fn dioxus_after_the_runtime_is_gone_reports_shutdown() {
    let spawner = LocalSpawner::new(InScope(DioxusSpawner));
    let clone = spawner.clone();
    {
        let mut dom = VirtualDom::new(app);
        dom.rebuild_in_place();
        assert_eq!(dom.in_scope(ScopeId::ROOT, || DioxusSpawner.registration()), Ok(()));
        assert_eq!(dom.in_scope(ScopeId::ROOT, || spawner.spawn(async {})), Ok(()));
    }
    drop(spawner);
    assert_eq!(DioxusSpawner.registration(), Err(SpawnError::Shutdown));
    assert_eq!(clone.spawn(async {}), Err(SpawnError::Shutdown));
}

#[test]
fn dioxus_in_a_runtime_without_a_scope_reports_other() {
    let mut dom = VirtualDom::new(app);
    dom.rebuild_in_place();
    assert_eq!(dom.in_runtime(|| DioxusSpawner.registration()), Err(SpawnError::Other));

    let spawner = LocalSpawner::new(InScope(DioxusSpawner));
    let value = Rc::new(Cell::new(0));
    let sink = value.clone();
    let refused = dom.in_runtime(|| spawner.spawn(async move { sink.set(42); }));
    assert_eq!(refused, Err(SpawnError::Other));

    dom.process_events();
    assert_eq!(value.get(), 0);
}

#[test]
fn dioxus_surroundings_decide_the_registration() {
    let mut dom = VirtualDom::new(app);
    dom.rebuild_in_place();
    let runtime = dom.runtime();

    assert_eq!(registration_in(&None, &None), Err(SpawnError::Shutdown));
    assert_eq!(registration_in(&None, &Some(ScopeId::ROOT)), Err(SpawnError::Shutdown));
    assert_eq!(registration_in(&Some(runtime.clone()), &None), Err(SpawnError::Other));
    assert_eq!(registration_in(&Some(runtime), &Some(ScopeId::ROOT)), Ok(()));
}
