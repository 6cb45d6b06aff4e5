//! Error-catching boundary scenarios: a protected call that succeeds, one
//! the engine aborts, and one a native failure unwinds.

use spiext::catch_error::{catch_error, OpOutcome};
use spiext::engine::{Command, Engine, EngineSignal};
use spiext::error::{Error, ErrorData, NativeError, ELEVEL_ERROR, LogLevel};
use spiext::subtxn::{Client, SubTransaction, SubTransactionExt};

#[test]
fn protected_call_success_keeps_handle_usable() {
    let mut engine = Engine::new();
    let client = Client {};
    let xact = client.sub_transaction(&mut engine);
    let (engine, res) = catch_error(
        engine,
        xact,
        |mut e: Engine, x: SubTransaction<Client>| {
            let rows = x.update(&mut e, &Command::Write(7), None).unwrap();
            (e, OpOutcome::Completed(rows, x))
        },
    );
    let mut engine = engine;
    let (rows, xact) = res.unwrap();
    assert_eq!(rows, Vec::<u64>::new());
    // The returned handle is still eligible for further use.
    assert_eq!(
        xact.select(&mut engine, &Command::Read, None).unwrap(),
        vec![7]
    );
    let inner = xact.sub_transaction(&mut engine);
    let xact = inner.rollback(&mut engine);
    let client = xact.commit(&mut engine);
    assert_eq!(
        client.select(&mut engine, &Command::Read, None).unwrap(),
        vec![7]
    );
}

#[test]
fn protected_call_engine_failure_is_captured_and_rolled_back() {
    let mut engine = Engine::new();
    let client = Client {};
    let xact = client.sub_transaction(&mut engine);
    // Work done in the scope before the failing command ...
    xact.update(&mut engine, &Command::Write(1), None).unwrap();
    let bad = Command::Invalid(ErrorData::with_message(
        ELEVEL_ERROR,
        42,
        String::from("syntax error at or near \"SLECT\""),
    ));
    let (engine, res) = catch_error(
        engine,
        xact,
        |mut e: Engine, x: SubTransaction<Client>| match x.select(&mut e, &bad, None) {
            Ok(rows) => (e, OpOutcome::Completed(rows, x)),
            Err(signal) => (e, OpOutcome::EngineSignal(signal)),
        },
    );
    let mut engine = engine;
    match res {
        Err(Error::PG(pe)) => {
            assert_eq!(
                pe.message,
                Some(String::from("syntax error at or near \"SLECT\""))
            );
            assert_eq!(pe.elevel, LogLevel::ERROR);
            assert_eq!(pe.sqlerrcode, 42);
        }
        _ => panic!("expected an engine-originating error"),
    }
    // ... was rolled back together with the scope.
    assert_eq!(engine.nesting_depth(), 1);
    assert!(!engine.has_pending_error());
    // The engine can immediately execute a new command.
    let client = Client {};
    assert_eq!(
        client.select(&mut engine, &Command::Read, None).unwrap(),
        Vec::<u64>::new()
    );
    client.update(&mut engine, &Command::Write(9), None).unwrap();
    assert_eq!(
        client.select(&mut engine, &Command::Read, None).unwrap(),
        vec![9]
    );
}

#[test]
fn protected_call_native_failure_propagates_unchanged() {
    let mut engine = Engine::new();
    let client = Client {};
    let xact = client.sub_transaction(&mut engine);
    let (engine, res) = catch_error(
        engine,
        xact,
        |e: Engine, _x: SubTransaction<Client>| {
            (
                e,
                OpOutcome::<Vec<u64>, Client>::NativeFailure(NativeError { payload: 77 }),
            )
        },
    );
    match res {
        Err(Error::Rust(n)) => assert_eq!(n, NativeError { payload: 77 }),
        _ => panic!("expected the native failure to come through unchanged"),
    }
    let engine = engine;
    assert_eq!(engine.nesting_depth(), 1);
    assert!(!engine.has_pending_error());
}

#[test]
fn protected_call_may_nest_scopes() {
    let mut engine = Engine::new();
    let client = Client {};
    let xact = client.sub_transaction(&mut engine);
    let (engine, res) = catch_error(
        engine,
        xact,
        |mut e: Engine, x: SubTransaction<Client>| {
            let inner = x.sub_transaction(&mut e);
            inner.update(&mut e, &Command::Write(3), None).unwrap();
            let x = inner.commit(&mut e);
            let rows = x.select(&mut e, &Command::Read, None).unwrap();
            (e, OpOutcome::Completed(rows, x))
        },
    );
    let mut engine = engine;
    let (rows, xact) = res.unwrap();
    assert_eq!(rows, vec![3]);
    let client = xact.commit(&mut engine);
    assert_eq!(
        client.select(&mut engine, &Command::Read, None).unwrap(),
        vec![3]
    );
}

#[test]
fn into_postgres_error_extracts_the_record() {
    let data = ErrorData::with_message(ELEVEL_ERROR, 5, String::from("boom"));
    let err = Error::PG(spiext::error::PostgresError::from(data));
    let pe = err.into_postgres_error();
    assert_eq!(pe.message, Some(String::from("boom")));
    assert_eq!(pe.sqlerrcode, 5);
}

#[test]
fn engine_signal_reports_pending_record() {
    let mut engine = Engine::new();
    let client = Client {};
    let bad = Command::Invalid(ErrorData::with_message(
        ELEVEL_ERROR,
        1,
        String::from("bad"),
    ));
    let res: Result<Vec<u64>, EngineSignal> = client.select(&mut engine, &bad, None);
    assert!(res.is_err());
    assert!(engine.has_pending_error());
}
