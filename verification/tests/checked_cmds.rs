//! Checked command scenarios: the ephemeral-scope surface on the client,
//! the direct surface on a handle, and the end-to-end flows.

use spiext::checked::CheckedCommands;
use spiext::engine::{Command, Engine};
use spiext::error::{Error, ErrorData, ELEVEL_ERROR};
use spiext::subtxn::{Client, SubTransactionExt};

fn invalid(message: &str) -> Command {
    Command::Invalid(ErrorData::with_message(
        ELEVEL_ERROR,
        42,
        String::from(message),
    ))
}

#[test]
fn checked_select_on_handle_succeeds() {
    let mut engine = Engine::new();
    let client = Client {};
    let xact = client.sub_transaction(&mut engine);
    xact.update(&mut engine, &Command::Write(1), None).unwrap();
    let (engine, res) = xact.checked_select(engine, &Command::Read, None);
    let (rows, xact) = res.unwrap();
    assert_eq!(rows, vec![1]);
    let mut engine = engine;
    let _client = xact.commit(&mut engine);
}

#[test]
fn failed_checked_select_consumes_the_handle_scope() {
    let mut engine = Engine::new();
    let client = Client {};
    client.update(&mut engine, &Command::Write(1), None).unwrap();
    let xact = client.sub_transaction(&mut engine);
    xact.update(&mut engine, &Command::Write(2), None).unwrap();
    // Running the checked command directly on the handle means a failure
    // rolls back and consumes the caller's own scope.
    let (engine, res) = xact.checked_select(engine, &invalid("syntax error at or near \"SLECT\""), None);
    match res {
        Err(Error::PG(pe)) => assert_eq!(
            pe.message,
            Some(String::from("syntax error at or near \"SLECT\""))
        ),
        _ => panic!("expected an engine-originating error"),
    }
    let mut engine = engine;
    assert_eq!(engine.nesting_depth(), 1);
    assert!(!engine.has_pending_error());
    assert_eq!(
        Client {}.select(&mut engine, &Command::Read, None).unwrap(),
        vec![1]
    );
}

#[test]
fn failed_checked_select_inside_live_scope_spares_it() {
    let mut engine = Engine::new();
    let client = Client {};
    let xact = client.sub_transaction(&mut engine);
    xact.update(&mut engine, &Command::Write(1), None).unwrap();
    // A checked command off the borrowed client opens its own ephemeral
    // scope, so its failure leaves the caller's scope alive.
    let (engine, res) = xact
        .parent()
        .checked_select(engine, &invalid("syntax error at or near \"SLECT\""), None);
    match res {
        Err(Error::PG(pe)) => assert_eq!(
            pe.message,
            Some(String::from("syntax error at or near \"SLECT\""))
        ),
        _ => panic!("expected an engine-originating error"),
    }
    let mut engine = engine;
    assert!(!engine.has_pending_error());
    // The scope is still live and shows the row inserted before the
    // failing call.
    assert_eq!(
        xact.select(&mut engine, &Command::Read, None).unwrap(),
        vec![1]
    );
    let _client = xact.rollback(&mut engine);
}

#[test]
fn bare_client_checked_update_commits_by_default() {
    let engine = Engine::new();
    let client = Client {};
    let (engine, res) = client.checked_update(engine, &Command::Write(5), None);
    let (rows, client) = res.unwrap();
    assert_eq!(rows, Vec::<u64>::new());
    drop(client);
    let mut engine = engine;
    assert_eq!(engine.nesting_depth(), 1);
    // A later client sees the effect: the ephemeral scope auto-committed.
    assert_eq!(
        Client {}.select(&mut engine, &Command::Read, None).unwrap(),
        vec![5]
    );
}

#[test]
fn bare_client_failed_checked_update_leaves_no_trace() {
    let mut engine = Engine::new();
    let client = Client {};
    client.update(&mut engine, &Command::Write(3), None).unwrap();
    let (engine, res) = client.checked_update(engine, &invalid("bad command"), None);
    match res {
        Err(Error::PG(pe)) => assert_eq!(pe.message, Some(String::from("bad command"))),
        _ => panic!("expected an engine-originating error"),
    }
    let mut engine = engine;
    assert_eq!(engine.nesting_depth(), 1);
    assert!(!engine.has_pending_error());
    assert_eq!(
        Client {}.select(&mut engine, &Command::Read, None).unwrap(),
        vec![3]
    );
}

#[test]
fn explicit_rollback_after_checked_update() {
    let mut engine = Engine::new();
    let client = Client {};
    client.update(&mut engine, &Command::Write(1), None).unwrap();
    let xact = client.sub_transaction(&mut engine);
    let (engine, res) = xact.checked_update(engine, &Command::Write(2), None);
    let (_rows, xact) = res.unwrap();
    let mut engine = engine;
    assert_eq!(
        xact.select(&mut engine, &Command::Read, None).unwrap(),
        vec![1, 2]
    );
    // No failure occurred, yet the explicit rollback takes effect.
    let _client = xact.rollback(&mut engine);
    assert_eq!(
        Client {}.select(&mut engine, &Command::Read, None).unwrap(),
        vec![1]
    );
}

#[test]
fn checked_select_on_borrowed_client_returns_rows() {
    let mut engine = Engine::new();
    let client = Client {};
    client.update(&mut engine, &Command::Write(8), None).unwrap();
    let (engine, res) = (&client).checked_select(engine, &Command::Read, Some(1));
    assert_eq!(res.unwrap(), vec![8]);
    let engine = engine;
    assert_eq!(engine.nesting_depth(), 1);
}
