//! Checked command execution.
//!
//! A checked command runs one command under the error-catching boundary and
//! surfaces an engine failure as an ordinary [`Error`] value instead of a
//! propagating signal.  The surface is available:
//!
//! - on an open [`SubTransaction`] handle: the command runs directly inside
//!   the caller's own scope, with no extra nesting; on failure that scope is
//!   rolled back and consumed;
//! - on the bare [`Client`], owned or borrowed: an ephemeral scope is opened
//!   around the single command, committed on success and rolled back on
//!   failure, so a failed command leaves no trace.

use vstd::prelude::*;

use crate::catch_error::{OpOutcome, catch_error, op_outcome_ok, recovered};
use crate::engine::{Command, Engine, EngineModel, limited};
use crate::error::{Error, spec_from_error_data};
use crate::subtxn::{Client, SubTransaction, lemma_with_armed_accessors};

verus! {

/// The engine after an ephemeral scope ran one successful command and was
/// committed: the command's effect (if any) now sits in the level that was
/// innermost before, everything else is as it was, and two fresh
/// identities were consumed.
pub open spec fn ephemeral_commit(m: EngineModel, command: Command) -> EngineModel {
    match command {
        Command::Write(effect) => EngineModel {
            levels: m.record_t(effect).levels,
            next_id: (m.next_id + 2) as u64,
            ..m
        },
        _ => EngineModel { next_id: (m.next_id + 2) as u64, ..m },
    }
}

/// The engine after an ephemeral scope's command failed and the scope was
/// rolled back: nothing of the command remains, no error is pending, and
/// two fresh identities were consumed.
pub open spec fn ephemeral_abort(m: EngineModel) -> EngineModel {
    EngineModel { pending: None, next_id: (m.next_id + 2) as u64, ..m }
}

/// Exactly what each result of a checked command in an ephemeral scope
/// means: success hands back the command's rows with its effect committed
/// into the enclosing level; an invalid command — and only an invalid
/// command — yields the engine's error record with nothing of the command
/// left behind.  A native failure cannot arise here.
pub open spec fn ephemeral_post(
    m0: EngineModel,
    m1: EngineModel,
    command: Command,
    limit: Option<i64>,
    res: Result<Vec<u64>, Error>,
) -> bool {
    match res {
        Ok(rows) => {
            &&& m1 == ephemeral_commit(m0, command)
            &&& match command {
                Command::Read => rows@ == limited(m0.visible(), limit),
                Command::Write(_) => rows@ == Seq::<u64>::empty(),
                Command::Invalid(_) => false,
            }
        },
        Err(Error::PG(pe)) => command matches Command::Invalid(d) && pe == spec_from_error_data(d)
            && m1 == ephemeral_abort(m0),
        Err(Error::Rust(_)) => false,
    }
}

/// Opening an ephemeral scope, running one successful command and
/// committing the scope nets out to [`ephemeral_commit`].
proof fn lemma_ephemeral_commit_shape(m: EngineModel, command: Command)
    requires
        m.levels.len() >= 1,
        !(command is Invalid),
    ensures
        ({
            let mb = m.begin_t().set_scope_t(m.cur_scope);
            let mrun = match command {
                Command::Write(effect) => mb.record_t(effect),
                _ => mb,
            };
            mrun.release_t().set_owner_t(m.cur_owner).set_scope_t(m.cur_scope) == ephemeral_commit(
                m,
                command,
            )
        }),
{
    let mb = m.begin_t().set_scope_t(m.cur_scope);
    let mrun = match command {
        Command::Write(effect) => mb.record_t(effect),
        _ => mb,
    };
    let lhs = mrun.release_t().set_owner_t(m.cur_owner).set_scope_t(m.cur_scope);
    assert(lhs.levels =~~= ephemeral_commit(m, command).levels);
    assert(lhs =~~= ephemeral_commit(m, command));
}

/// Opening an ephemeral scope and having its one command fail nets out to
/// [`ephemeral_abort`].
proof fn lemma_ephemeral_abort_shape(m: EngineModel, data: crate::error::ErrorData)
    requires
        m.levels.len() >= 1,
    ensures
        recovered(
            m.begin_t().set_scope_t(m.cur_scope).raise_t(data),
            m.cur_owner,
            m.cur_scope,
        ) == ephemeral_abort(m),
{
    let lhs = recovered(m.begin_t().set_scope_t(m.cur_scope).raise_t(data), m.cur_owner, m.cur_scope);
    assert(lhs.levels =~~= ephemeral_abort(m).levels);
    assert(lhs =~~= ephemeral_abort(m));
}

/// Open an ephemeral scope at the current position, run one command in it
/// under the error-catching boundary, and commit the scope on success; on
/// failure the boundary has already rolled it back.
fn checked_command_ephemeral(engine: Engine, command: &Command, limit: Option<i64>) -> (out: (
    Engine,
    Result<Vec<u64>, Error>,
))
    requires
        engine@.wf(),
        engine@.can_begin(),
    ensures
        out.0@.wf(),
        ephemeral_post(engine@, out.0@, *command, limit, out.1),
{
    let ghost m0 = engine@;
    let mut engine = engine;
    let xact = SubTransaction::new((), &mut engine);
    let (engine2, res) = xact.checked_command(engine, command, limit);
    match res {
        Ok((rows, x)) => {
            let mut engine2 = engine2;
            let _unit = x.commit(&mut engine2);
            proof {
                lemma_ephemeral_commit_shape(m0, *command);
            }
            (engine2, Ok(rows))
        },
        Err(err) => {
            proof {
                if err matches Error::PG(_) {
                    let d = choose|d: crate::error::ErrorData|
                        *command == Command::Invalid(d);
                    lemma_ephemeral_abort_shape(m0, d);
                }
            }
            (engine2, Err(err))
        },
    }
}

/// Commands that report an engine failure as an ordinary error value.
pub trait CheckedCommands: Sized {
    /// What a successful command hands back besides the rows.
    type Output;

    /// What the engine must look like before a checked command may run.
    spec fn checked_pre(self, m: EngineModel) -> bool;

    /// Exactly what each result of a checked command means, relating the
    /// engine state before (`m0`) and after (`m1`) to the command and the
    /// result.
    spec fn checked_post(
        self,
        m0: EngineModel,
        m1: EngineModel,
        command: Command,
        limit: Option<i64>,
        res: Result<Self::Output, Error>,
    ) -> bool;

    /// Execute a read-only command, returning an error if one occurred.
    fn checked_select(self, engine: Engine, command: &Command, limit: Option<i64>) -> (out: (
        Engine,
        Result<Self::Output, Error>,
    ))
        requires
            engine@.wf(),
            self.checked_pre(engine@),
        ensures
            out.0@.wf(),
            self.checked_post(engine@, out.0@, *command, limit, out.1),
    ;

    /// Execute a mutable command, returning an error if one occurred.
    fn checked_update(self, engine: Engine, command: &Command, limit: Option<i64>) -> (out: (
        Engine,
        Result<Self::Output, Error>,
    ))
        requires
            engine@.wf(),
            self.checked_pre(engine@),
        ensures
            out.0@.wf(),
            self.checked_post(engine@, out.0@, *command, limit, out.1),
    ;
}

impl<Parent> SubTransaction<Parent> {
    /// Run one command in this scope under the error-catching boundary.
    /// Shared by the checked select and update surfaces, whose model
    /// semantics coincide.
    fn checked_command(self, engine: Engine, command: &Command, limit: Option<i64>) -> (out: (
        Engine,
        Result<(Vec<u64>, SubTransaction<Parent>), Error>,
    ))
        requires
            engine@.wf(),
            self.is_innermost(engine@),
        ensures
            out.0@.wf(),
            self.checked_post(engine@, out.0@, *command, limit, out.1),
    {
        let ghost self0 = self;
        let ghost m0 = engine@;
        proof {
            lemma_with_armed_accessors(self0, false);
        }
        let try_func = |e: Engine, x: SubTransaction<Parent>| -> (res: (
            Engine,
            OpOutcome<Vec<u64>, Parent>,
        ))
            requires
                e@.wf(),
                x.is_innermost(e@),
            ensures
                op_outcome_ok(x, res),
                res.1 matches OpOutcome::Completed(rows, x2) ==> {
                    &&& x2 == x
                    &&& match *command {
                        Command::Read => res.0@ == e@ && rows@ == limited(e@.visible(), limit),
                        Command::Write(effect) => res.0@ == e@.record_t(effect) && rows@
                            == Seq::<u64>::empty(),
                        Command::Invalid(_) => false,
                    }
                },
                res.1 matches OpOutcome::EngineSignal(_) ==> *command matches Command::Invalid(d)
                    && res.0@ == e@.raise_t(d),
                !(res.1 matches OpOutcome::NativeFailure(_)),
            {
                let mut e = e;
                match x.select(&mut e, command, limit) {
                    Ok(rows) => (e, OpOutcome::Completed(rows, x)),
                    Err(signal) => (e, OpOutcome::EngineSignal(signal)),
                }
            };
        proof {
            assert forall|res: (Engine, OpOutcome<Vec<u64>, Parent>)|
                call_ensures(try_func, (engine, self0.with_armed(false)), res) implies op_outcome_ok(
                self0,
                res,
            ) by {
                lemma_with_armed_accessors(self0, false);
            }
        }
        let (engine2, res) = catch_error(engine, self, try_func);
        match res {
            Ok((rows, x)) => {
                proof {
                    let b = choose|b: bool|
                        call_ensures(
                            try_func,
                            (engine, self0.with_armed(false)),
                            (engine2, OpOutcome::Completed(rows, x.with_armed(b))),
                        );
                    assert(call_ensures(
                        try_func,
                        (engine, self0.with_armed(false)),
                        (engine2, OpOutcome::Completed(rows, x.with_armed(b))),
                    ));
                    lemma_with_armed_accessors(x, b);
                }
                (engine2, Ok((rows, x)))
            },
            Err(err) => {
                proof {
                    // A native failure cannot come out of this operation:
                    // the boundary would have had to observe one, which the
                    // operation's contract rules out.
                    if err matches Error::Rust(_) {
                        assert(false);
                    }
                }
                (engine2, Err(err))
            },
        }
    }
}

impl<Parent> CheckedCommands for SubTransaction<Parent> {
    type Output = (Vec<u64>, SubTransaction<Parent>);

    /// The handle must be the innermost live one.
    open spec fn checked_pre(self, m: EngineModel) -> bool {
        self.is_innermost(m)
    }

    /// Success hands back the rows and a handle to the same scope, still
    /// innermost, with the command's effect recorded in it; an invalid
    /// command — and only an invalid command — yields the engine's error
    /// record, with the caller's scope rolled back and consumed and the
    /// pending-error state cleared.  A native failure cannot arise here.
    open spec fn checked_post(
        self,
        m0: EngineModel,
        m1: EngineModel,
        command: Command,
        limit: Option<i64>,
        res: Result<(Vec<u64>, SubTransaction<Parent>), Error>,
    ) -> bool {
        match res {
            Ok((rows, x)) => {
                &&& x.same_scope_as(self)
                &&& x.armed() == self.armed()
                &&& x.action() == self.action()
                &&& x.is_innermost(m1)
                &&& match command {
                    Command::Read => m1 == m0 && rows@ == limited(m0.visible(), limit),
                    Command::Write(effect) => m1 == m0.record_t(effect) && rows@
                        == Seq::<u64>::empty(),
                    Command::Invalid(_) => false,
                }
            },
            Err(Error::PG(pe)) => command matches Command::Invalid(d) && pe
                == spec_from_error_data(d) && m1 == recovered(
                m0.raise_t(d),
                self.spec_resource_owner(),
                self.spec_memory_context(),
            ),
            Err(Error::Rust(_)) => false,
        }
    }

    fn checked_select(self, engine: Engine, command: &Command, limit: Option<i64>) -> (out: (
        Engine,
        Result<(Vec<u64>, SubTransaction<Parent>), Error>,
    )) {
        self.checked_command(engine, command, limit)
    }

    fn checked_update(self, engine: Engine, command: &Command, limit: Option<i64>) -> (out: (
        Engine,
        Result<(Vec<u64>, SubTransaction<Parent>), Error>,
    )) {
        self.checked_command(engine, command, limit)
    }
}

impl CheckedCommands for Client {
    type Output = (Vec<u64>, Client);

    /// The engine must have room for the ephemeral scope.
    open spec fn checked_pre(self, m: EngineModel) -> bool {
        m.can_begin()
    }

    /// The ephemeral-scope semantics ([`ephemeral_post`]), with the client
    /// handed back on success.
    open spec fn checked_post(
        self,
        m0: EngineModel,
        m1: EngineModel,
        command: Command,
        limit: Option<i64>,
        res: Result<(Vec<u64>, Client), Error>,
    ) -> bool {
        match res {
            Ok((rows, _client)) => ephemeral_post(m0, m1, command, limit, Ok(rows)),
            Err(err) => ephemeral_post(m0, m1, command, limit, Err(err)),
        }
    }

    fn checked_select(self, engine: Engine, command: &Command, limit: Option<i64>) -> (out: (
        Engine,
        Result<(Vec<u64>, Client), Error>,
    )) {
        let (engine2, res) = checked_command_ephemeral(engine, command, limit);
        match res {
            Ok(rows) => (engine2, Ok((rows, self))),
            Err(err) => (engine2, Err(err)),
        }
    }

    fn checked_update(self, engine: Engine, command: &Command, limit: Option<i64>) -> (out: (
        Engine,
        Result<(Vec<u64>, Client), Error>,
    )) {
        let (engine2, res) = checked_command_ephemeral(engine, command, limit);
        match res {
            Ok(rows) => (engine2, Ok((rows, self))),
            Err(err) => (engine2, Err(err)),
        }
    }
}

impl<'a> CheckedCommands for &'a Client {
    type Output = Vec<u64>;

    /// The engine must have room for the ephemeral scope.
    open spec fn checked_pre(self, m: EngineModel) -> bool {
        m.can_begin()
    }

    /// The ephemeral-scope semantics ([`ephemeral_post`]); the borrowed
    /// client stays with the caller.
    open spec fn checked_post(
        self,
        m0: EngineModel,
        m1: EngineModel,
        command: Command,
        limit: Option<i64>,
        res: Result<Vec<u64>, Error>,
    ) -> bool {
        ephemeral_post(m0, m1, command, limit, res)
    }

    fn checked_select(self, engine: Engine, command: &Command, limit: Option<i64>) -> (out: (
        Engine,
        Result<Vec<u64>, Error>,
    )) {
        checked_command_ephemeral(engine, command, limit)
    }

    fn checked_update(self, engine: Engine, command: &Command, limit: Option<i64>) -> (out: (
        Engine,
        Result<Vec<u64>, Error>,
    )) {
        checked_command_ephemeral(engine, command, limit)
    }
}

} // verus!
