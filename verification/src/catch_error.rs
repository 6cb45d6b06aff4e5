//! The error-catching boundary.
//!
//! [`catch_error`] runs a caller-supplied operation that owns a
//! sub-transaction handle.  The operation reports how it came back in an
//! [`OpOutcome`]: completed normally, aborted by the engine's failure
//! signal, or aborted by a native failure unrelated to the engine.  On the
//! engine's signal the boundary copies the pending error record out of the
//! engine, clears the pending state so execution can continue, rolls the
//! sub-transaction back, and returns the record as an ordinary
//! [`Error::PG`] value.  A native failure is passed through unmodified as
//! [`Error::Rust`], to be re-raised by the caller.
//!
//! Before the operation runs, the boundary takes an auxiliary handle to the
//! same scope ([`SubTransaction::internal_clone`]) and disarms the one the
//! operation owns, so that exactly one of the two can ever release the
//! scope — the auxiliary alone is authorized to roll it back afterwards.

use vstd::prelude::*;

use crate::engine::{Engine, EngineModel, EngineSignal};
use crate::error::{Error, NativeError, PostgresError, spec_from_error_data};
use crate::subtxn::{
    SubTransaction, lemma_with_armed_accessors, lemma_with_armed_same, lemma_with_armed_twice,
};

verus! {

/// How a protected operation came back to the boundary.
pub enum OpOutcome<R, Parent> {
    /// The operation finished normally, handing back its result and the
    /// handle it was given.
    Completed(R, SubTransaction<Parent>),
    /// The engine raised its failure signal; the handle was consumed by
    /// the unwinding and the engine holds the pending error record.
    EngineSignal(EngineSignal),
    /// A native failure unrelated to the engine unwound the operation.
    NativeFailure(NativeError),
}

/// What every outcome of a protected operation must guarantee: the engine
/// is left well-formed, a completed operation hands back a handle to the
/// same scope, still innermost, and an aborted operation has unwound back
/// to the boundary's scope (with the error record pending if the engine
/// raised it).
pub open spec fn op_outcome_ok<R, Parent>(
    h: SubTransaction<Parent>,
    res: (Engine, OpOutcome<R, Parent>),
) -> bool {
    &&& res.0@.wf()
    &&& match res.1 {
        OpOutcome::Completed(_r, x) => x.same_scope_as(h) && x.is_innermost(res.0@),
        OpOutcome::EngineSignal(_) => res.0@.pending is Some && h.is_innermost(res.0@),
        OpOutcome::NativeFailure(_) => h.is_innermost(res.0@),
    }
}

/// The engine state after the boundary recovered from the engine's failure
/// signal: the boundary's level is gone with all its effects, the resource
/// owner and allocation scope captured at the scope's creation are current
/// again, and no error is pending.
pub open spec fn recovered(m: EngineModel, owner: u64, scope: u64) -> EngineModel {
    EngineModel {
        levels: m.levels.drop_last(),
        cur_owner: owner,
        cur_scope: scope,
        pending: None,
        next_id: m.next_id,
    }
}

/// The boundary's guarantee when the operation completed: the returned
/// handle is the one the operation handed back, with its release duty
/// restored, and it is still the innermost handle of its unchanged scope.
pub open spec fn catch_completed_post<R, Parent, Try>(
    try_func: Try,
    engine: Engine,
    subtxn: SubTransaction<Parent>,
    eout: Engine,
    r: R,
    x: SubTransaction<Parent>,
) -> bool where Try: FnOnce(Engine, SubTransaction<Parent>) -> (Engine, OpOutcome<R, Parent>) {
    &&& exists|b: bool|
        call_ensures(
            try_func,
            (engine, subtxn.with_armed(false)),
            (eout, OpOutcome::Completed(r, x.with_armed(b))),
        )
    &&& x.same_scope_as(subtxn)
    &&& x.armed() == subtxn.armed()
    &&& x.is_innermost(eout@)
}

/// The boundary's guarantee when the engine raised its failure signal:
/// the surfaced record is the one that was pending when the operation
/// aborted, and the engine has been recovered — scope rolled back,
/// captured state restored, no error pending.
pub open spec fn catch_engine_error_post<R, Parent, Try>(
    try_func: Try,
    engine: Engine,
    subtxn: SubTransaction<Parent>,
    eout: Engine,
    pe: crate::error::PostgresError,
) -> bool where Try: FnOnce(Engine, SubTransaction<Parent>) -> (Engine, OpOutcome<R, Parent>) {
    exists|mid: Engine|
        {
            &&& call_ensures(
                try_func,
                (engine, subtxn.with_armed(false)),
                (mid, OpOutcome::EngineSignal(EngineSignal {})),
            )
            &&& mid@.pending is Some
            &&& pe == spec_from_error_data(mid@.pending.unwrap())
            &&& eout@ == recovered(
                mid@,
                subtxn.spec_resource_owner(),
                subtxn.spec_memory_context(),
            )
        }
}

/// The boundary's guarantee when a native failure unwound the operation:
/// the payload is passed through unmodified, and if the handle still held
/// its release duty the auxiliary's scope exit has released the scope as
/// committed (the auxiliary is commit-flavoured by construction).
pub open spec fn catch_native_error_post<R, Parent, Try>(
    try_func: Try,
    engine: Engine,
    subtxn: SubTransaction<Parent>,
    eout: Engine,
    n: NativeError,
) -> bool where Try: FnOnce(Engine, SubTransaction<Parent>) -> (Engine, OpOutcome<R, Parent>) {
    exists|mid: Engine|
        {
            &&& call_ensures(
                try_func,
                (engine, subtxn.with_armed(false)),
                (mid, OpOutcome::NativeFailure(n)),
            )
            &&& (subtxn.armed() ==> eout@ == mid@.release_t().set_owner_t(
                subtxn.spec_resource_owner(),
            ).set_scope_t(subtxn.spec_memory_context()))
            &&& (!subtxn.armed() ==> eout@ == mid@)
        }
}

/// Run `try_func` within the sub-transaction `subtxn`, rolling the
/// sub-transaction back and capturing the error record if the engine's
/// failure signal aborts it.
///
/// On completion the returned handle has its release duty restored exactly
/// as `subtxn` had it and remains eligible for commit, rollback or further
/// nesting.  On the engine's signal the scope is rolled back, the engine's
/// pending-error state is cleared, and the record is returned as
/// [`Error::PG`].  A native failure comes back unmodified as
/// [`Error::Rust`]; the auxiliary handle then releases the scope as its
/// own exit fires, as it would when the native unwinding leaves the
/// boundary.
#[verifier::rlimit(60)]
pub fn catch_error<R, Parent, Try>(engine: Engine, subtxn: SubTransaction<Parent>, try_func: Try) -> (out: (
    Engine,
    Result<(R, SubTransaction<Parent>), Error>,
))
    where Try: FnOnce(Engine, SubTransaction<Parent>) -> (Engine, OpOutcome<R, Parent>),

    requires
        engine@.wf(),
        subtxn.is_innermost(engine@),
        call_requires(try_func, (engine, subtxn.with_armed(false))),
        forall|res: (Engine, OpOutcome<R, Parent>)|
            call_ensures(try_func, (engine, subtxn.with_armed(false)), res) ==> op_outcome_ok(
                subtxn,
                res,
            ),
    ensures
        out.0@.wf(),
        out.1 matches Ok((r, x)) ==> catch_completed_post(try_func, engine, subtxn, out.0, r, x),
        out.1 matches Err(Error::PG(pe)) ==> catch_engine_error_post::<R, Parent, Try>(
            try_func,
            engine,
            subtxn,
            out.0,
            pe,
        ),
        out.1 matches Err(Error::Rust(n)) ==> catch_native_error_post::<R, Parent, Try>(
            try_func,
            engine,
            subtxn,
            out.0,
            n,
        ),
{
    let mut subtxn = subtxn;
    let ghost subtxn0 = subtxn;
    // Auxiliary handle to the same scope: it alone may roll the scope back
    // below, and `subtxn` is disarmed so the two never both act.
    let mut aux = subtxn.internal_clone();
    let (engine2, outcome) = try_func(engine, subtxn);
    proof {
        assert(call_ensures(try_func, (engine, subtxn0.with_armed(false)), (engine2, outcome)));
        assert(op_outcome_ok(subtxn0, (engine2, outcome)));
    }
    let ghost outcome0 = outcome;
    match outcome {
        OpOutcome::Completed(r, x) => {
            let mut x = x;
            let ghost x0 = x;
            // Hand the release duty back to the returned handle and strip
            // it from the auxiliary.
            let saved = aux.release_flag();
            x.set_release(saved);
            aux.set_release(false);
            proof {
                assert(outcome0 == OpOutcome::Completed(r, x0));
                assert(x == x0.with_armed(saved));
                lemma_with_armed_accessors(x0, saved);
                lemma_with_armed_twice(x0, saved, x0.armed());
                lemma_with_armed_same(x0);
                assert(x.with_armed(x0.armed()) == x0);
                assert(call_ensures(
                    try_func,
                    (engine, subtxn0.with_armed(false)),
                    (engine2, OpOutcome::Completed(r, x.with_armed(x0.armed()))),
                ));
                assert(catch_completed_post(try_func, engine, subtxn0, engine2, r, x));
            }
            (engine2, Ok((r, x)))
        },
        OpOutcome::EngineSignal(_) => {
            let mut engine2 = engine2;
            let ghost mid = engine2;
            // The record lives in the engine's error path; switch to the
            // transaction-wide scope, which outlives it, before copying.
            let tx_scope = engine2.current_transaction_scope();
            engine2.set_allocation_scope(tx_scope);
            let data = engine2.copy_pending_error();
            let err = PostgresError::from(data);
            engine2.clear_pending_error();
            // Roll the scope back; this undoes everything the operation
            // did and restores the captured engine state.
            let _parent = aux.rollback(&mut engine2);
            proof {
                assert(engine2@ =~~= recovered(
                    mid@,
                    subtxn0.spec_resource_owner(),
                    subtxn0.spec_memory_context(),
                ));
                assert(catch_engine_error_post::<R, Parent, Try>(
                    try_func,
                    engine,
                    subtxn0,
                    engine2,
                    crate::error::spec_from_error_data(mid@.pending.unwrap()),
                ));
            }
            (engine2, Err(Error::PG(err)))
        },
        OpOutcome::NativeFailure(n) => {
            let mut engine2 = engine2;
            // Nothing to recover: the scope runs its default action (the
            // auxiliary carries the original release duty) and the failure
            // is re-exposed unchanged.
            let _parent = aux.scope_exit(&mut engine2);
            proof {
                assert(catch_native_error_post::<R, Parent, Try>(
                    try_func,
                    engine,
                    subtxn0,
                    engine2,
                    n,
                ));
            }
            (engine2, Err(Error::Rust(n)))
        },
    }
}

} // verus!
