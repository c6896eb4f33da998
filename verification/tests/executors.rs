use std::rc::Rc;

use ispawn::{LocalSpawner, SpawnError};

#[test]
fn test_async_executor() {
    let ex = Rc::new(async_executor::LocalExecutor::new());
    let spawner = LocalSpawner::new(ex.clone());

    let (result_tx, mut result_rx) = localq::mpsc::channel(1);
    spawner
        .spawn(async move {
            result_tx.try_send(42).unwrap();
        })
        .unwrap();

    let result = pollster::block_on(ex.run(async move { result_rx.recv().await }));

    assert_eq!(result.unwrap(), 42);
}

#[test]
fn test_async_executor_drop_before_spawner() {
    let ex = Rc::new(async_executor::LocalExecutor::new());
    let spawner = LocalSpawner::new(ex.clone());

    drop(ex);

    spawner.spawn(async move {}).unwrap();
}

#[test]
fn test_futures_executor() {
    let mut ex = futures_executor::LocalPool::new();
    let spawner = ex.spawner();
    let spawner = LocalSpawner::new(Rc::new(spawner));

    let (result_tx, mut result_rx) = localq::mpsc::channel(1);
    spawner
        .spawn(async move {
            result_tx.try_send(42).unwrap();
        })
        .unwrap();

    let result = ex.run_until(async move { result_rx.recv().await });

    assert_eq!(result.unwrap(), 42);
}

#[test]
fn test_tokio_executor() {
    let rt = tokio::runtime::Builder::new_current_thread()
        .build()
        .unwrap();
    let ex = Rc::new(tokio::task::LocalSet::new());
    let spawner = LocalSpawner::new(ex.clone());

    let (result_tx, mut result_rx) = localq::mpsc::channel(1);
    spawner
        .spawn(async move {
            result_tx.try_send(42).unwrap();
        })
        .unwrap();

    let result = ex.block_on(&rt, async move { result_rx.recv().await });

    assert_eq!(result.unwrap(), 42);
}

#[test]
fn test_tokio_executor_drop_before_spawner() {
    let rt = tokio::runtime::Builder::new_current_thread()
        .build()
        .unwrap();
    let ex = Rc::new(tokio::task::LocalSet::new());
    let spawner = LocalSpawner::new(ex.clone());

    drop(ex);
    drop(rt);

    spawner.spawn(async move {}).unwrap();
}

#[test]
fn futures_executor_after_shutdown_reports_shutdown() {
    let ex = futures_executor::LocalPool::new();
    let spawner = LocalSpawner::new(Rc::new(ex.spawner()));

    drop(ex);

    let refused = spawner.spawn(async move {});
    assert_eq!(refused, Err(SpawnError::Shutdown));
    assert!(refused.unwrap_err().is_shutdown());
}

#[test]
fn futures_executor_clone_spawns_after_first_handle_is_dropped() {
    let mut ex = futures_executor::LocalPool::new();
    let first_handle = LocalSpawner::new(Rc::new(ex.spawner()));
    let clone = first_handle.clone();
    drop(first_handle);

    let (result_tx, mut result_rx) = localq::mpsc::channel(1);
    clone
        .spawn(async move {
            result_tx.try_send(7).unwrap();
        })
        .unwrap();

    let result = ex.run_until(async move { result_rx.recv().await });
    assert_eq!(result.unwrap(), 7);
}

#[test]
fn async_executor_runs_every_task_spawned_through_clones() {
    let ex = Rc::new(async_executor::LocalExecutor::new());
    let first = LocalSpawner::new(ex.clone());
    let second = first.clone();

    let (result_tx, mut result_rx) = localq::mpsc::channel(2);
    let other_tx = result_tx.clone();
    first
        .spawn(async move {
            result_tx.try_send(1).unwrap();
        })
        .unwrap();
    second
        .spawn(async move {
            other_tx.try_send(2).unwrap();
        })
        .unwrap();

    let sum = pollster::block_on(ex.run(async move {
        let a = result_rx.recv().await.unwrap();
        let b = result_rx.recv().await.unwrap();
        a + b
    }));
    assert_eq!(sum, 3);
}

#[test]
fn tokio_clone_keeps_the_set_alive() {
    let rt = tokio::runtime::Builder::new_current_thread()
        .build()
        .unwrap();
    let ex = Rc::new(tokio::task::LocalSet::new());
    let spawner = LocalSpawner::new(ex.clone());
    let clone = spawner.clone();
    drop(spawner);
    assert_eq!(Rc::strong_count(&ex), 2);

    let (result_tx, mut result_rx) = localq::mpsc::channel(1);
    clone
        .spawn(async move {
            result_tx.try_send(42).unwrap();
        })
        .unwrap();
    let result = ex.block_on(&rt, async move { result_rx.recv().await });
    assert_eq!(result.unwrap(), 42);

    drop(clone);
    assert_eq!(Rc::strong_count(&ex), 1);
}
