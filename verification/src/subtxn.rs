//! The sub-transaction lifecycle manager.
//!
//! A [`SubTransaction`] is a move-only handle to one nested transaction
//! level.  Creating it captures the ambient allocation scope and resource
//! owner, asks the engine to begin a nested transaction, and switches back
//! to the outer allocation scope so values produced inside the scope outlive
//! it.  The handle is finalized exactly once: explicitly by [`commit`] or
//! [`rollback`], or by the scope-exit finalizer [`scope_exit`], which runs
//! the handle's default action if it is still armed.  Because the handle
//! cannot be copied and every finalizer consumes it, a double release is
//! impossible to write.
//!
//! [`commit`]: SubTransaction::commit
//! [`rollback`]: SubTransaction::rollback
//! [`scope_exit`]: SubTransaction::scope_exit

use vstd::prelude::*;

use crate::engine::{Command, Engine, EngineModel, EngineSignal, limited, scope_dead, visible_up_to};

verus! {

/// What happens to a still-armed handle when its scope ends.
#[derive(Clone, Copy, Debug, PartialEq, Eq, Structural)]
pub enum Action {
    Commit,
    Rollback,
}

/// A handle to one nested transaction level.
///
/// The handle owns the value it was begun from (`Parent`) and returns it on
/// finalization.  Its default exit behaviour can be converted between
/// commit-on-exit and rollback-on-exit without touching the engine.
#[verifier::ext_equal]
pub struct SubTransaction<Parent> {
    /// Allocation scope that was current when the scope began.
    memory_context: u64,
    /// Resource owner that was current when the scope began.
    resource_owner: u64,
    /// Whether the scope-exit finalizer still has to release the scope; a
    /// handle whose release duty was handed elsewhere is disarmed.
    should_release: bool,
    /// What the scope-exit finalizer does while the handle is armed.
    default_action: Action,
    /// The value this handle was begun from, handed back on finalization.
    parent: Parent,
    /// Identity of the level this handle opened.
    level_owner: Ghost<u64>,
}

impl<Parent> SubTransaction<Parent> {
    /// The allocation scope captured when the scope began.
    pub closed spec fn spec_memory_context(self) -> u64 {
        self.memory_context
    }

    /// The resource owner captured when the scope began.
    pub closed spec fn spec_resource_owner(self) -> u64 {
        self.resource_owner
    }

    /// Whether the scope-exit finalizer would still act.
    pub closed spec fn armed(self) -> bool {
        self.should_release
    }

    /// The default action at scope exit.
    pub closed spec fn action(self) -> Action {
        self.default_action
    }

    /// The owned parent value.
    pub closed spec fn spec_parent(self) -> Parent {
        self.parent
    }

    /// Identity of the level this handle opened.
    pub closed spec fn level_id(self) -> u64 {
        self.level_owner@
    }

    /// The same handle with the scope-exit duty set or cleared.
    pub closed spec fn with_armed(self, b: bool) -> SubTransaction<Parent> {
        SubTransaction { should_release: b, ..self }
    }

    /// The handle's level is the innermost open one, so it may be finalized
    /// or used to run commands.
    pub open spec fn is_innermost(self, m: EngineModel) -> bool {
        m.levels.len() >= 2 && m.top().owner == self.level_id()
    }

    /// The two handles refer to the same scope with the same captured
    /// engine state and the same owned parent; only arming and default
    /// action may differ.
    pub open spec fn same_scope_as(self, other: SubTransaction<Parent>) -> bool {
        &&& self.level_id() == other.level_id()
        &&& self.spec_memory_context() == other.spec_memory_context()
        &&& self.spec_resource_owner() == other.spec_resource_owner()
        &&& self.spec_parent() == other.spec_parent()
    }
}

/// Setting the arming flag changes nothing else.
pub proof fn lemma_with_armed_accessors<Parent>(h: SubTransaction<Parent>, b: bool)
    ensures
        (#[trigger] h.with_armed(b)).armed() == b,
        h.with_armed(b).action() == h.action(),
        h.with_armed(b).same_scope_as(h),
        h.same_scope_as(h.with_armed(b)),
{
}

/// Setting the arming flag twice keeps only the last value.
pub proof fn lemma_with_armed_twice<Parent>(h: SubTransaction<Parent>, a: bool, b: bool)
    ensures
        h.with_armed(a).with_armed(b) == h.with_armed(b),
{
    assert(h.with_armed(a).with_armed(b) =~= h.with_armed(b));
}

/// Setting the arming flag to its current value changes nothing.
pub proof fn lemma_with_armed_same<Parent>(h: SubTransaction<Parent>)
    ensures
        h.with_armed(h.armed()) == h,
{
    assert(h.with_armed(h.armed()) =~= h);
}

impl<Parent> SubTransaction<Parent> {
    /// Begin a nested transaction off `parent`.
    ///
    /// Captures the ambient allocation scope and resource owner, asks the
    /// engine to begin a nested transaction, and restores the captured
    /// allocation scope as current so the caller's allocations live in the
    /// outer scope.  The new handle is armed and commits by default.
    pub(crate) fn new(parent: Parent, engine: &mut Engine) -> (t: SubTransaction<Parent>)
        requires
            old(engine)@.wf(),
            old(engine)@.can_begin(),
        ensures
            final(engine)@ == old(engine)@.begin_t().set_scope_t(old(engine)@.cur_scope),
            final(engine)@.wf(),
            final(engine)@.visible() == old(engine)@.visible(),
            t.is_innermost(final(engine)@),
            t.level_id() == old(engine)@.next_id,
            t.spec_memory_context() == old(engine)@.cur_scope,
            t.spec_resource_owner() == old(engine)@.cur_owner,
            t.armed(),
            t.action() == Action::Commit,
            t.spec_parent() == parent,
    {
        let ctx = engine.current_allocation_scope();
        let resource_owner = engine.current_resource_owner();
        let ghost level = engine@.next_id;
        engine.begin_nested();
        engine.set_allocation_scope(ctx);
        proof {
            crate::engine::lemma_visible_new_level(old(engine)@);
        }
        SubTransaction {
            memory_context: ctx,
            resource_owner,
            should_release: true,
            default_action: Action::Commit,
            parent,
            level_owner: Ghost(level),
        }
    }

    /// Release the scope as committed and restore the captured resource
    /// owner and allocation scope.
    fn internal_commit(&self, engine: &mut Engine)
        requires
            old(engine)@.wf(),
            self.is_innermost(old(engine)@),
        ensures
            final(engine)@ == old(engine)@.release_t().set_owner_t(
                self.spec_resource_owner(),
            ).set_scope_t(self.spec_memory_context()),
            final(engine)@.wf(),
            final(engine)@.visible() == old(engine)@.visible(),
            scope_dead(final(engine)@, self.level_id()),
    {
        engine.release_nested();
        engine.set_resource_owner(self.resource_owner);
        engine.set_allocation_scope(self.memory_context);
        proof {
            crate::engine::lemma_release_kills_top(old(engine)@);
        }
    }

    /// Release the scope as rolled back and restore the captured resource
    /// owner and allocation scope.
    fn internal_rollback(&self, engine: &mut Engine)
        requires
            old(engine)@.wf(),
            self.is_innermost(old(engine)@),
        ensures
            final(engine)@ == old(engine)@.rollback_t().set_owner_t(
                self.spec_resource_owner(),
            ).set_scope_t(self.spec_memory_context()),
            final(engine)@.wf(),
            final(engine)@.visible() == visible_up_to(
                old(engine)@.levels,
                old(engine)@.levels.len() - 1,
            ),
            scope_dead(final(engine)@, self.level_id()),
    {
        engine.rollback_and_release_nested();
        engine.set_resource_owner(self.resource_owner);
        engine.set_allocation_scope(self.memory_context);
        proof {
            crate::engine::lemma_rollback_kills_top(old(engine)@);
        }
    }

    /// Commit the scope, returning its parent.  All effects performed in
    /// the scope are kept, now owned by the enclosing level; the resource
    /// owner and allocation scope captured at creation become current
    /// again.  Consuming the handle makes a second release impossible.
    pub fn commit(self, engine: &mut Engine) -> (parent: Parent)
        requires
            old(engine)@.wf(),
            self.is_innermost(old(engine)@),
        ensures
            final(engine)@ == old(engine)@.release_t().set_owner_t(
                self.spec_resource_owner(),
            ).set_scope_t(self.spec_memory_context()),
            final(engine)@.wf(),
            final(engine)@.visible() == old(engine)@.visible(),
            scope_dead(final(engine)@, self.level_id()),
            parent == self.spec_parent(),
    {
        self.internal_commit(engine);
        self.parent
    }

    /// Roll the scope back, returning its parent.  All effects performed
    /// inside the scope — including by nested scopes that were committed
    /// into it — are undone; the resource owner and allocation scope
    /// captured at creation become current again.
    pub fn rollback(self, engine: &mut Engine) -> (parent: Parent)
        requires
            old(engine)@.wf(),
            self.is_innermost(old(engine)@),
        ensures
            final(engine)@ == old(engine)@.rollback_t().set_owner_t(
                self.spec_resource_owner(),
            ).set_scope_t(self.spec_memory_context()),
            final(engine)@.wf(),
            final(engine)@.visible() == visible_up_to(
                old(engine)@.levels,
                old(engine)@.levels.len() - 1,
            ),
            scope_dead(final(engine)@, self.level_id()),
            parent == self.spec_parent(),
    {
        self.internal_rollback(engine);
        self.parent
    }

    /// The scope-exit finalizer.  If the handle is still armed, its default
    /// action is executed against the engine; a disarmed handle leaves the
    /// engine untouched.  Either way the parent is handed back.
    pub fn scope_exit(self, engine: &mut Engine) -> (parent: Parent)
        requires
            old(engine)@.wf(),
            self.armed() ==> self.is_innermost(old(engine)@),
        ensures
            final(engine)@.wf(),
            !self.armed() ==> final(engine)@ == old(engine)@,
            self.armed() && self.action() == Action::Commit ==> final(engine)@ == old(
                engine,
            )@.release_t().set_owner_t(self.spec_resource_owner()).set_scope_t(
                self.spec_memory_context(),
            ) && final(engine)@.visible() == old(engine)@.visible(),
            self.armed() && self.action() == Action::Rollback ==> final(engine)@ == old(
                engine,
            )@.rollback_t().set_owner_t(self.spec_resource_owner()).set_scope_t(
                self.spec_memory_context(),
            ) && final(engine)@.visible() == visible_up_to(
                old(engine)@.levels,
                old(engine)@.levels.len() - 1,
            ),
            self.armed() ==> scope_dead(final(engine)@, self.level_id()),
            parent == self.spec_parent(),
    {
        if self.should_release {
            match self.default_action {
                Action::Commit => self.internal_commit(engine),
                Action::Rollback => self.internal_rollback(engine),
            }
        }
        self.parent
    }

    /// Convert the handle to roll back at scope exit.  The engine is not
    /// consulted: only the default action changes, and the returned handle
    /// is the sole remaining owner of the scope, so no second finalizer can
    /// ever fire.
    pub fn rollback_on_drop(self) -> (t: SubTransaction<Parent>)
        ensures
            t.same_scope_as(self),
            t.armed() == self.armed(),
            t.action() == Action::Rollback,
    {
        SubTransaction { default_action: Action::Rollback, ..self }
    }

    /// Convert the handle to commit at scope exit.  The counterpart of
    /// [`rollback_on_drop`](Self::rollback_on_drop).
    pub fn commit_on_drop(self) -> (t: SubTransaction<Parent>)
        ensures
            t.same_scope_as(self),
            t.armed() == self.armed(),
            t.action() == Action::Commit,
    {
        SubTransaction { default_action: Action::Commit, ..self }
    }

    /// The allocation scope this scope was begun under.
    pub fn memory_context(&self) -> (ctx: u64)
        ensures
            ctx == self.spec_memory_context(),
    {
        self.memory_context
    }

    /// A borrow of the owned parent value.
    pub fn parent(&self) -> (parent: &Parent)
        ensures
            *parent == self.spec_parent(),
    {
        &self.parent
    }

    /// An auxiliary handle to the same scope, used by the error-catching
    /// boundary: it takes over this handle's release duty (this handle is
    /// disarmed) so that exactly one of the two can ever act.
    pub(crate) fn internal_clone(&mut self) -> (aux: SubTransaction<()>)
        ensures
            *final(self) == old(self).with_armed(false),
            aux.armed() == old(self).armed(),
            aux.action() == Action::Commit,
            aux.level_id() == old(self).level_id(),
            aux.spec_memory_context() == old(self).spec_memory_context(),
            aux.spec_resource_owner() == old(self).spec_resource_owner(),
    {
        let was_armed = self.should_release;
        self.should_release = false;
        proof {
            assert(*self =~= old(self).with_armed(false));
        }
        SubTransaction {
            memory_context: self.memory_context,
            resource_owner: self.resource_owner,
            should_release: was_armed,
            default_action: Action::Commit,
            parent: (),
            level_owner: Ghost(self.level_owner@),
        }
    }

    /// Restore the release duty taken by [`internal_clone`](Self::internal_clone).
    pub(crate) fn set_release(&mut self, b: bool)
        ensures
            *final(self) == old(self).with_armed(b),
    {
        self.should_release = b;
        proof {
            assert(*self =~= old(self).with_armed(b));
        }
    }

    /// Whether the scope-exit finalizer would still act.
    pub(crate) fn release_flag(&self) -> (b: bool)
        ensures
            b == self.armed(),
    {
        self.should_release
    }

    /// Run a read-only command inside this scope.  The handle must be the
    /// innermost live one.  May propagate the engine's failure signal.
    pub fn select(&self, engine: &mut Engine, command: &Command, limit: Option<i64>) -> (r: Result<
        Vec<u64>,
        EngineSignal,
    >)
        requires
            old(engine)@.wf(),
            self.is_innermost(old(engine)@),
        ensures
            final(engine)@.wf(),
            self.is_innermost(final(engine)@),
            match r {
                Ok(rows) => match *command {
                    Command::Read => final(engine)@ == old(engine)@ && rows@ == limited(
                        old(engine)@.visible(),
                        limit,
                    ),
                    Command::Write(effect) => final(engine)@ == old(engine)@.record_t(effect)
                        && rows@ == Seq::<u64>::empty(),
                    Command::Invalid(_) => false,
                },
                Err(_) => *command matches Command::Invalid(data) && final(engine)@ == old(
                    engine,
                )@.raise_t(data),
            },
    {
        let r = engine.exec_select(command, limit);
        proof {
            lemma_top_owner_stable(old(engine)@, engine@);
        }
        r
    }

    /// Run a mutable command inside this scope.  The handle must be the
    /// innermost live one.  May propagate the engine's failure signal.
    pub fn update(&self, engine: &mut Engine, command: &Command, limit: Option<i64>) -> (r: Result<
        Vec<u64>,
        EngineSignal,
    >)
        requires
            old(engine)@.wf(),
            self.is_innermost(old(engine)@),
        ensures
            final(engine)@.wf(),
            self.is_innermost(final(engine)@),
            match r {
                Ok(rows) => match *command {
                    Command::Read => final(engine)@ == old(engine)@ && rows@ == limited(
                        old(engine)@.visible(),
                        limit,
                    ),
                    Command::Write(effect) => final(engine)@ == old(engine)@.record_t(effect)
                        && rows@ == Seq::<u64>::empty(),
                    Command::Invalid(_) => false,
                },
                Err(_) => *command matches Command::Invalid(data) && final(engine)@ == old(
                    engine,
                )@.raise_t(data),
            },
    {
        let r = engine.exec_update(command, limit);
        proof {
            lemma_top_owner_stable(old(engine)@, engine@);
        }
        r
    }
}

/// Running one command keeps the stack's shape: whatever the outcome, the
/// levels' count and top owner are unchanged.
proof fn lemma_top_owner_stable(a: EngineModel, b: EngineModel)
    requires
        a.levels.len() >= 1,
        b == a || (exists|e: u64| b == #[trigger] a.record_t(e)) || (exists|d: crate::error::ErrorData|
            b == #[trigger] a.raise_t(d)),
    ensures
        b.levels.len() == a.levels.len(),
        b.top().owner == a.top().owner,
{
}

/// The bare engine client: the caller's standing capability to run
/// commands at the engine's current position, outside any handle.
pub struct Client {}

impl Client {
    /// Run a read-only command at the current position.  May propagate the
    /// engine's failure signal.
    pub fn select(&self, engine: &mut Engine, command: &Command, limit: Option<i64>) -> (r: Result<
        Vec<u64>,
        EngineSignal,
    >)
        requires
            old(engine)@.wf(),
        ensures
            final(engine)@.wf(),
            match r {
                Ok(rows) => match *command {
                    Command::Read => final(engine)@ == old(engine)@ && rows@ == limited(
                        old(engine)@.visible(),
                        limit,
                    ),
                    Command::Write(effect) => final(engine)@ == old(engine)@.record_t(effect)
                        && rows@ == Seq::<u64>::empty(),
                    Command::Invalid(_) => false,
                },
                Err(_) => *command matches Command::Invalid(data) && final(engine)@ == old(
                    engine,
                )@.raise_t(data),
            },
    {
        engine.exec_select(command, limit)
    }

    /// Run a mutable command at the current position.  May propagate the
    /// engine's failure signal.
    pub fn update(&self, engine: &mut Engine, command: &Command, limit: Option<i64>) -> (r: Result<
        Vec<u64>,
        EngineSignal,
    >)
        requires
            old(engine)@.wf(),
        ensures
            final(engine)@.wf(),
            match r {
                Ok(rows) => match *command {
                    Command::Read => final(engine)@ == old(engine)@ && rows@ == limited(
                        old(engine)@.visible(),
                        limit,
                    ),
                    Command::Write(effect) => final(engine)@ == old(engine)@.record_t(effect)
                        && rows@ == Seq::<u64>::empty(),
                    Command::Invalid(_) => false,
                },
                Err(_) => *command matches Command::Invalid(data) && final(engine)@ == old(
                    engine,
                )@.raise_t(data),
            },
    {
        engine.exec_update(command, limit)
    }
}

/// Anything a nested transaction can be begun from: the bare client or an
/// already open handle (which is how arbitrarily deep nesting arises).
pub trait SubTransactionExt: Sized {
    /// The parent value the new handle will own and return on
    /// finalization.
    type T;

    /// What of `self` the new handle owns.
    spec fn as_parent(self) -> Self::T;

    /// Consume `self` and begin a nested transaction owning it.
    fn sub_transaction(self, engine: &mut Engine) -> (t: SubTransaction<Self::T>)
        requires
            old(engine)@.wf(),
            old(engine)@.can_begin(),
        ensures
            final(engine)@ == old(engine)@.begin_t().set_scope_t(old(engine)@.cur_scope),
            final(engine)@.wf(),
            final(engine)@.visible() == old(engine)@.visible(),
            t.is_innermost(final(engine)@),
            t.level_id() == old(engine)@.next_id,
            t.spec_memory_context() == old(engine)@.cur_scope,
            t.spec_resource_owner() == old(engine)@.cur_owner,
            t.armed(),
            t.action() == Action::Commit,
            t.spec_parent() == self.as_parent(),
    ;
}

impl SubTransactionExt for Client {
    type T = Client;

    open spec fn as_parent(self) -> Client {
        self
    }

    fn sub_transaction(self, engine: &mut Engine) -> (t: SubTransaction<Client>) {
        SubTransaction::new(self, engine)
    }
}

impl<Parent> SubTransactionExt for SubTransaction<Parent> {
    type T = SubTransaction<Parent>;

    open spec fn as_parent(self) -> SubTransaction<Parent> {
        self
    }

    fn sub_transaction(self, engine: &mut Engine) -> (t: SubTransaction<SubTransaction<Parent>>) {
        SubTransaction::new(self, engine)
    }
}

} // verus!
