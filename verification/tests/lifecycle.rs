//! Sub-transaction lifecycle scenarios: creation, commit, rollback,
//! default-action conversion and the scope-exit finalizer.

use spiext::engine::{Command, Engine};
use spiext::subtxn::{Client, SubTransactionExt};

#[test]
fn commit_restores_captured_engine_state() {
    let mut engine = Engine::new();
    let scope0 = engine.current_allocation_scope();
    let owner0 = engine.current_resource_owner();
    let client = Client {};
    let xact = client.sub_transaction(&mut engine);
    // Creation switches back to the outer allocation scope and captures it.
    assert_eq!(xact.memory_context(), scope0);
    assert_eq!(engine.current_allocation_scope(), scope0);
    assert_eq!(engine.nesting_depth(), 2);
    let _client = xact.commit(&mut engine);
    // Finalization restores what was captured at creation.
    assert_eq!(engine.current_allocation_scope(), scope0);
    assert_eq!(engine.current_resource_owner(), owner0);
    assert_eq!(engine.nesting_depth(), 1);
}

#[test]
fn commit_keeps_effects() {
    let mut engine = Engine::new();
    let client = Client {};
    let xact = client.sub_transaction(&mut engine);
    xact.update(&mut engine, &Command::Write(7), None).unwrap();
    let client = xact.commit(&mut engine);
    let rows = client.select(&mut engine, &Command::Read, None).unwrap();
    assert_eq!(rows, vec![7]);
}

#[test]
fn explicit_rollback_undoes_update() {
    // An explicit rollback takes effect even though nothing failed.
    let mut engine = Engine::new();
    let client = Client {};
    client.update(&mut engine, &Command::Write(1), None).unwrap();
    let xact = client.sub_transaction(&mut engine);
    xact.update(&mut engine, &Command::Write(2), None).unwrap();
    assert_eq!(
        xact.select(&mut engine, &Command::Read, None).unwrap(),
        vec![1, 2]
    );
    let client = xact.rollback(&mut engine);
    assert_eq!(
        client.select(&mut engine, &Command::Read, None).unwrap(),
        vec![1]
    );
    assert_eq!(engine.nesting_depth(), 1);
}

#[test]
fn rollback_of_outer_scope_undoes_committed_inner_scopes() {
    let mut engine = Engine::new();
    let client = Client {};
    let outer = client.sub_transaction(&mut engine);
    outer.update(&mut engine, &Command::Write(10), None).unwrap();
    assert_eq!(
        outer.select(&mut engine, &Command::Read, Some(1)).unwrap(),
        vec![10]
    );
    let inner = outer.sub_transaction(&mut engine);
    inner.update(&mut engine, &Command::Write(11), None).unwrap();
    assert_eq!(
        inner.select(&mut engine, &Command::Read, None).unwrap(),
        vec![10, 11]
    );
    let outer = inner.commit(&mut engine);
    let innermost = outer.sub_transaction(&mut engine);
    innermost
        .update(&mut engine, &Command::Write(12), None)
        .unwrap();
    let outer = innermost.commit(&mut engine);
    // Both inner scopes committed their work into the outer scope ...
    assert_eq!(
        outer.select(&mut engine, &Command::Read, None).unwrap(),
        vec![10, 11, 12]
    );
    // ... and rolling the outer scope back undoes all of it.
    let client = outer.rollback(&mut engine);
    assert_eq!(
        client.select(&mut engine, &Command::Read, None).unwrap(),
        Vec::<u64>::new()
    );
    assert_eq!(engine.nesting_depth(), 1);
}

#[test]
fn scope_exit_runs_commit_by_default() {
    let mut engine = Engine::new();
    let client = Client {};
    let xact = client.sub_transaction(&mut engine);
    xact.update(&mut engine, &Command::Write(3), None).unwrap();
    let client = xact.scope_exit(&mut engine);
    assert_eq!(
        client.select(&mut engine, &Command::Read, None).unwrap(),
        vec![3]
    );
    assert_eq!(engine.nesting_depth(), 1);
}

#[test]
fn converted_handle_rolls_back_at_scope_exit() {
    // Conversion consumes the original handle without touching the engine;
    // only the converted handle's scope exit fires, and it fires once.
    let mut engine = Engine::new();
    let client = Client {};
    let xact = client.sub_transaction(&mut engine);
    xact.update(&mut engine, &Command::Write(4), None).unwrap();
    let depth_before = engine.nesting_depth();
    let xact = xact.rollback_on_drop();
    // The conversion itself performed no engine operation.
    assert_eq!(engine.nesting_depth(), depth_before);
    let client = xact.scope_exit(&mut engine);
    assert_eq!(
        client.select(&mut engine, &Command::Read, None).unwrap(),
        Vec::<u64>::new()
    );
    assert_eq!(engine.nesting_depth(), 1);
}

#[test]
fn conversion_back_and_forth_keeps_scope_identity() {
    let mut engine = Engine::new();
    let client = Client {};
    let xact = client.sub_transaction(&mut engine);
    xact.update(&mut engine, &Command::Write(5), None).unwrap();
    let xact = xact.rollback_on_drop().commit_on_drop();
    let client = xact.scope_exit(&mut engine);
    assert_eq!(
        client.select(&mut engine, &Command::Read, None).unwrap(),
        vec![5]
    );
}

#[test]
fn select_limit_is_applied() {
    let mut engine = Engine::new();
    let client = Client {};
    client.update(&mut engine, &Command::Write(1), None).unwrap();
    client.update(&mut engine, &Command::Write(2), None).unwrap();
    client.update(&mut engine, &Command::Write(3), None).unwrap();
    assert_eq!(
        client.select(&mut engine, &Command::Read, None).unwrap(),
        vec![1, 2, 3]
    );
    assert_eq!(
        client.select(&mut engine, &Command::Read, Some(2)).unwrap(),
        vec![1, 2]
    );
    assert_eq!(
        client.select(&mut engine, &Command::Read, Some(5)).unwrap(),
        vec![1, 2, 3]
    );
    assert_eq!(
        client.select(&mut engine, &Command::Read, Some(0)).unwrap(),
        Vec::<u64>::new()
    );
    assert_eq!(
        client.select(&mut engine, &Command::Read, Some(-1)).unwrap(),
        Vec::<u64>::new()
    );
}

#[test]
fn parent_is_returned_through_the_nest() {
    let mut engine = Engine::new();
    let client = Client {};
    let outer = client.sub_transaction(&mut engine);
    let inner = outer.sub_transaction(&mut engine);
    let outer = inner.rollback(&mut engine);
    let _client: Client = outer.commit(&mut engine);
    assert_eq!(engine.nesting_depth(), 1);
}
