//! The host engine, modelled as an explicit value.
//!
//! The engine's process-wide mutable state — the stack of open transaction
//! levels, the current resource owner, the current allocation scope and a
//! possibly pending error record — is carried in an [`Engine`] value that
//! every operation threads explicitly.  Each level of the stack owns the
//! effects performed inside it: releasing (committing) a nested level merges
//! its effects into the level beneath, rolling it back discards them.
//!
//! The abstract state is [`EngineModel`]; every exec operation's contract
//! says exactly which transition of the model it performs, and
//! [`engine_step`] gathers those transitions into one relation that the laws
//! in [`crate::laws`] reason over.

use vstd::prelude::*;

use crate::error::ErrorData;

verus! {

/// Abstract state of one open transaction level: the effects performed in
/// it so far, plus the identities of the resource owner and the
/// transaction-lifetime allocation scope the engine created for it.
#[verifier::ext_equal]
pub ghost struct LevelModel {
    pub effects: Seq<u64>,
    pub owner: u64,
    pub scope: u64,
}

/// Abstract state of the whole engine.
#[verifier::ext_equal]
pub ghost struct EngineModel {
    /// The stack of open transaction levels; the first entry is the outer
    /// transaction, the last is the innermost open nested transaction.
    pub levels: Seq<LevelModel>,
    /// The current resource owner.
    pub cur_owner: u64,
    /// The current allocation scope.
    pub cur_scope: u64,
    /// The pending error record, if a failure signal is being handled.
    pub pending: Option<ErrorData>,
    /// Source of fresh owner and scope identities; never reused.
    pub next_id: u64,
}

impl EngineModel {
    /// Well-formed engine state: at least the outer transaction is open,
    /// all identities were drawn from the fresh-identity source, and owner
    /// identities grow strictly up the stack (so they are pairwise
    /// distinct and a released level's identity can never recur).
    pub open spec fn wf(self) -> bool {
        &&& self.levels.len() >= 1
        &&& forall|i: int|
            0 <= i < self.levels.len() ==> (#[trigger] self.levels[i]).owner < self.next_id
                && self.levels[i].scope < self.next_id
        &&& forall|i: int, j: int|
            0 <= i < j < self.levels.len() ==> (#[trigger] self.levels[i]).owner < (
            #[trigger] self.levels[j]).owner
    }

    /// The fresh-identity source has room for one more level.
    pub open spec fn can_begin(self) -> bool {
        self.next_id + 2 <= u64::MAX
    }

    /// The innermost open level.
    pub open spec fn top(self) -> LevelModel {
        self.levels.last()
    }

    /// Beginning a nested transaction: a fresh, empty level is pushed and
    /// the engine switches to its resource owner and allocation scope.
    pub open spec fn begin_t(self) -> EngineModel
        recommends
            self.can_begin(),
    {
        EngineModel {
            levels: self.levels.push(
                LevelModel {
                    effects: Seq::empty(),
                    owner: self.next_id,
                    scope: (self.next_id + 1) as u64,
                },
            ),
            cur_owner: self.next_id,
            cur_scope: (self.next_id + 1) as u64,
            pending: self.pending,
            next_id: (self.next_id + 2) as u64,
        }
    }

    /// Releasing (committing) the innermost nested level: its effects are
    /// merged into the level beneath, which becomes current.
    pub open spec fn release_t(self) -> EngineModel
        recommends
            self.levels.len() >= 2,
    {
        let n = self.levels.len() as int;
        let merged = LevelModel {
            effects: self.levels[n - 2].effects + self.levels[n - 1].effects,
            owner: self.levels[n - 2].owner,
            scope: self.levels[n - 2].scope,
        };
        EngineModel {
            levels: self.levels.subrange(0, n - 2).push(merged),
            cur_owner: merged.owner,
            cur_scope: merged.scope,
            pending: self.pending,
            next_id: self.next_id,
        }
    }

    /// Rolling back the innermost nested level: it is discarded together
    /// with all its effects, and the level beneath becomes current.
    pub open spec fn rollback_t(self) -> EngineModel
        recommends
            self.levels.len() >= 2,
    {
        let n = self.levels.len() as int;
        EngineModel {
            levels: self.levels.drop_last(),
            cur_owner: self.levels[n - 2].owner,
            cur_scope: self.levels[n - 2].scope,
            pending: self.pending,
            next_id: self.next_id,
        }
    }

    /// Setting the current resource owner.
    pub open spec fn set_owner_t(self, owner: u64) -> EngineModel {
        EngineModel { cur_owner: owner, ..self }
    }

    /// Setting the current allocation scope.
    pub open spec fn set_scope_t(self, scope: u64) -> EngineModel {
        EngineModel { cur_scope: scope, ..self }
    }

    /// Raising a failure: the record becomes pending.
    pub open spec fn raise_t(self, data: ErrorData) -> EngineModel {
        EngineModel { pending: Some(data), ..self }
    }

    /// Clearing the pending error record.
    pub open spec fn clear_t(self) -> EngineModel {
        EngineModel { pending: None, ..self }
    }

    /// Recording one effect in the innermost open level.
    pub open spec fn record_t(self, effect: u64) -> EngineModel
        recommends
            self.levels.len() >= 1,
    {
        let n = self.levels.len() as int;
        let top = LevelModel {
            effects: self.levels[n - 1].effects.push(effect),
            owner: self.levels[n - 1].owner,
            scope: self.levels[n - 1].scope,
        };
        EngineModel { levels: self.levels.subrange(0, n - 1).push(top), ..self }
    }

    /// All effects currently visible to a read: those of every open level,
    /// outermost first.
    pub open spec fn visible(self) -> Seq<u64> {
        visible_up_to(self.levels, self.levels.len() as int)
    }
}

/// The effects of the first `n` levels, concatenated outermost first.
pub open spec fn visible_up_to(levels: Seq<LevelModel>, n: int) -> Seq<u64>
    decreases n,
{
    if n <= 0 {
        Seq::empty()
    } else {
        visible_up_to(levels, n - 1) + levels[n - 1].effects
    }
}

/// A read-command row limit applied to a row sequence: `None` keeps all
/// rows, a non-positive limit keeps none, and a positive limit keeps at most
/// that many from the front.
pub open spec fn limited(rows: Seq<u64>, limit: Option<i64>) -> Seq<u64> {
    match limit {
        None => rows,
        Some(n) => if n <= 0 {
            Seq::empty()
        } else if n < rows.len() {
            rows.take(n as int)
        } else {
            rows
        },
    }
}

/// The level with owner identity `id` has been released and can never come
/// back: the identity was already drawn from the fresh-identity source and
/// no open level carries it.
pub open spec fn scope_dead(m: EngineModel, id: u64) -> bool {
    &&& id < m.next_id
    &&& forall|i: int| 0 <= i < m.levels.len() ==> (#[trigger] m.levels[i]).owner != id
}

/// One step of the engine: any single transition an operation of this crate
/// performs, or no change at all.
pub open spec fn engine_step(a: EngineModel, b: EngineModel) -> bool {
    ||| b == a
    ||| (a.can_begin() && b == a.begin_t())
    ||| (a.levels.len() >= 2 && b == a.release_t())
    ||| (a.levels.len() >= 2 && b == a.rollback_t())
    ||| (exists|owner: u64| b == #[trigger] a.set_owner_t(owner))
    ||| (exists|scope: u64| b == #[trigger] a.set_scope_t(scope))
    ||| (exists|data: ErrorData| b == #[trigger] a.raise_t(data))
    ||| b == a.clear_t()
    ||| (a.levels.len() >= 1 && exists|effect: u64| b == #[trigger] a.record_t(effect))
}

/// A command handed to the command executor.  The engine interprets it: a
/// read returns the visible rows, a write records one effect, and an
/// invalid command (one the engine rejects, for instance for a syntax
/// error) raises the failure signal carrying the given record.
#[derive(Debug)]
pub enum Command {
    Read,
    Write(u64),
    Invalid(ErrorData),
}

/// The engine's failure signal, propagating out of an executor call instead
/// of a normal return.  While it propagates, the engine holds the pending
/// error record.
#[derive(Debug)]
pub struct EngineSignal {}

/// One open transaction level of the concrete engine.
pub struct Level {
    pub effects: Vec<u64>,
    pub owner: u64,
    pub scope: u64,
}

impl View for Level {
    type V = LevelModel;

    closed spec fn view(&self) -> LevelModel {
        LevelModel { effects: self.effects@, owner: self.owner, scope: self.scope }
    }
}

/// The host engine.  All state an operation may consult or change is here;
/// no operation of this crate touches anything else.
pub struct Engine {
    levels: Vec<Level>,
    cur_owner: u64,
    cur_scope: u64,
    pending: Option<ErrorData>,
    next_id: u64,
}

impl View for Engine {
    type V = EngineModel;

    closed spec fn view(&self) -> EngineModel {
        EngineModel {
            levels: self.levels@.map_values(|l: Level| l@),
            cur_owner: self.cur_owner,
            cur_scope: self.cur_scope,
            pending: self.pending,
            next_id: self.next_id,
        }
    }
}

impl Engine {
    /// A fresh engine with one open outer transaction and no effects.
    pub fn new() -> (e: Engine)
        ensures
            e@.wf(),
            e@.levels.len() == 1,
            e@.levels[0].effects == Seq::<u64>::empty(),
            e@.cur_owner == e@.levels[0].owner,
            e@.cur_scope == e@.levels[0].scope,
            e@.pending is None,
            e@.can_begin(),
            e@.visible() == Seq::<u64>::empty(),
    {
        let mut levels: Vec<Level> = Vec::new();
        levels.push(Level { effects: Vec::new(), owner: 0, scope: 1 });
        let e = Engine { levels, cur_owner: 0, cur_scope: 1, pending: None, next_id: 2 };
        proof {
            assert(e@.levels =~= seq![
                LevelModel { effects: Seq::empty(), owner: 0u64, scope: 1u64 },
            ]);
            assert(visible_up_to(e@.levels, 0) == Seq::<u64>::empty());
            assert(e@.visible() =~= Seq::<u64>::empty());
        }
        e
    }

    /// Begin a nested transaction.  The engine pushes a fresh level and
    /// makes its resource owner and allocation scope current.
    pub fn begin_nested(&mut self)
        requires
            old(self)@.wf(),
            old(self)@.can_begin(),
        ensures
            final(self)@ == old(self)@.begin_t(),
            final(self)@.wf(),
    {
        let owner = self.next_id;
        let scope = self.next_id + 1;
        self.next_id = self.next_id + 2;
        self.levels.push(Level { effects: Vec::new(), owner, scope });
        self.cur_owner = owner;
        self.cur_scope = scope;
        proof {
            assert(self@ =~~= old(self)@.begin_t());
        }
    }

    /// Release (commit) the innermost nested transaction: its effects are
    /// kept, now owned by the level beneath, which becomes current.
    pub fn release_nested(&mut self)
        requires
            old(self)@.wf(),
            old(self)@.levels.len() >= 2,
        ensures
            final(self)@ == old(self)@.release_t(),
            final(self)@.wf(),
            final(self)@.visible() == old(self)@.visible(),
    {
        let top = self.levels.pop().unwrap();
        let mut parent = self.levels.pop().unwrap();
        let mut top_effects = top.effects;
        parent.effects.append(&mut top_effects);
        self.cur_owner = parent.owner;
        self.cur_scope = parent.scope;
        self.levels.push(parent);
        proof {
            assert(self@ =~~= old(self)@.release_t());
            lemma_visible_release(old(self)@);
        }
    }

    /// Roll back and release the innermost nested transaction: its effects
    /// are discarded and the level beneath becomes current.
    pub fn rollback_and_release_nested(&mut self)
        requires
            old(self)@.wf(),
            old(self)@.levels.len() >= 2,
        ensures
            final(self)@ == old(self)@.rollback_t(),
            final(self)@.wf(),
            final(self)@.visible() == visible_up_to(
                old(self)@.levels,
                old(self)@.levels.len() - 1,
            ),
    {
        let _top = self.levels.pop().unwrap();
        let n = self.levels.len();
        self.cur_owner = self.levels[n - 1].owner;
        self.cur_scope = self.levels[n - 1].scope;
        proof {
            assert(self@ =~~= old(self)@.rollback_t());
            assert(self@.levels =~= old(self)@.levels.subrange(
                0,
                old(self)@.levels.len() - 1,
            ));
            lemma_visible_prefix_stable(old(self)@.levels, self@.levels, self@.levels.len() as int);
        }
    }

    /// The current resource owner.
    pub fn current_resource_owner(&self) -> (owner: u64)
        ensures
            owner == self@.cur_owner,
    {
        self.cur_owner
    }

    /// Make `owner` the current resource owner.
    pub fn set_resource_owner(&mut self, owner: u64)
        ensures
            final(self)@ == old(self)@.set_owner_t(owner),
    {
        self.cur_owner = owner;
    }

    /// The current allocation scope.
    pub fn current_allocation_scope(&self) -> (scope: u64)
        ensures
            scope == self@.cur_scope,
    {
        self.cur_scope
    }

    /// Make `scope` the current allocation scope.
    pub fn set_allocation_scope(&mut self, scope: u64)
        ensures
            final(self)@ == old(self)@.set_scope_t(scope),
    {
        self.cur_scope = scope;
    }

    /// The transaction-lifetime allocation scope of the innermost open
    /// transaction.  A pending error record lives here until the level is
    /// torn down.
    pub fn current_transaction_scope(&self) -> (scope: u64)
        requires
            self@.wf(),
        ensures
            scope == self@.top().scope,
    {
        let n = self.levels.len();
        self.levels[n - 1].scope
    }

    /// How many transaction levels are open, the outer transaction
    /// included.
    pub fn nesting_depth(&self) -> (n: usize)
        ensures
            n == self@.levels.len(),
    {
        self.levels.len()
    }

    /// Whether a failure signal left an error record pending.
    pub fn has_pending_error(&self) -> (b: bool)
        ensures
            b == self@.pending is Some,
    {
        self.pending.is_some()
    }

    /// A copy of the pending error record.  Callable only while a failure
    /// signal is being handled.
    pub fn copy_pending_error(&self) -> (d: ErrorData)
        requires
            self@.pending is Some,
        ensures
            self@.pending == Some(d),
    {
        match &self.pending {
            Some(d) => d.duplicate(),
            None => vstd::pervasive::unreached(),
        }
    }

    /// Drop the pending error record, so execution can continue normally.
    /// Callable only while a failure signal is being handled.
    pub fn clear_pending_error(&mut self)
        requires
            old(self)@.pending is Some,
        ensures
            final(self)@ == old(self)@.clear_t(),
    {
        self.pending = None;
        proof {
            assert(self@ =~~= old(self)@.clear_t());
        }
    }

    /// All currently visible effects, outermost level first.
    fn visible_rows(&self) -> (rows: Vec<u64>)
        ensures
            rows@ == self@.visible(),
    {
        let ghost m = self@;
        let mut rows: Vec<u64> = Vec::new();
        let mut i: usize = 0;
        while i < self.levels.len()
            invariant
                m == self@,
                0 <= i <= self.levels.len(),
                m.levels.len() == self.levels.len(),
                rows@ == visible_up_to(m.levels, i as int),
            decreases self.levels.len() - i,
        {
            let effects = &self.levels[i].effects;
            let mut j: usize = 0;
            while j < effects.len()
                invariant
                    m == self@,
                    0 <= i < self.levels.len(),
                    m.levels.len() == self.levels.len(),
                    effects == &self.levels[i as int].effects,
                    effects@ == m.levels[i as int].effects,
                    0 <= j <= effects.len(),
                    rows@ == visible_up_to(m.levels, i as int) + effects@.take(j as int),
                decreases effects.len() - j,
            {
                rows.push(effects[j]);
                j = j + 1;
                proof {
                    assert(rows@ =~= visible_up_to(m.levels, i as int) + effects@.take(j as int));
                }
            }
            i = i + 1;
            proof {
                assert(effects@.take(effects@.len() as int) =~= effects@);
                assert(rows@ =~= visible_up_to(m.levels, i as int));
            }
        }
        rows
    }

    /// Keep at most the limited number of rows.
    fn apply_limit(rows: Vec<u64>, limit: Option<i64>) -> (r: Vec<u64>)
        ensures
            r@ == limited(rows@, limit),
    {
        let mut rows = rows;
        match limit {
            None => rows,
            Some(n) => {
                if n <= 0 {
                    rows.clear();
                    rows
                } else if (n as u64) < (rows.len() as u64) {
                    rows.truncate(n as usize);
                    rows
                } else {
                    rows
                }
            },
        }
    }

    /// Run one command.  A read changes nothing and returns the visible
    /// rows, subject to the limit; a write records its effect in the
    /// innermost open level and returns no rows; an invalid command leaves
    /// its record pending and propagates the failure signal.
    fn exec_command(&mut self, command: &Command, limit: Option<i64>) -> (r: Result<
        Vec<u64>,
        EngineSignal,
    >)
        requires
            old(self)@.wf(),
        ensures
            final(self)@.wf(),
            match r {
                Ok(rows) => match *command {
                    Command::Read => final(self)@ == old(self)@ && rows@ == limited(
                        old(self)@.visible(),
                        limit,
                    ),
                    Command::Write(effect) => final(self)@ == old(self)@.record_t(effect)
                        && rows@ == Seq::<u64>::empty(),
                    Command::Invalid(_) => false,
                },
                Err(_) => *command matches Command::Invalid(data) && final(self)@ == old(
                    self,
                )@.raise_t(data),
            },
    {
        match command {
            Command::Read => {
                let rows = self.visible_rows();
                Ok(Self::apply_limit(rows, limit))
            },
            Command::Write(effect) => {
                let effect = *effect;
                let mut top = self.levels.pop().unwrap();
                top.effects.push(effect);
                self.levels.push(top);
                proof {
                    assert(self@ =~~= old(self)@.record_t(effect));
                }
                Ok(Vec::new())
            },
            Command::Invalid(data) => {
                self.pending = Some(data.duplicate());
                proof {
                    assert(self@ =~~= old(self)@.raise_t(*data));
                }
                Err(EngineSignal {})
            },
        }
    }

    /// Execute a read-only command.  May propagate the engine's failure
    /// signal instead of returning.
    pub fn exec_select(&mut self, command: &Command, limit: Option<i64>) -> (r: Result<
        Vec<u64>,
        EngineSignal,
    >)
        requires
            old(self)@.wf(),
        ensures
            final(self)@.wf(),
            match r {
                Ok(rows) => match *command {
                    Command::Read => final(self)@ == old(self)@ && rows@ == limited(
                        old(self)@.visible(),
                        limit,
                    ),
                    Command::Write(effect) => final(self)@ == old(self)@.record_t(effect)
                        && rows@ == Seq::<u64>::empty(),
                    Command::Invalid(_) => false,
                },
                Err(_) => *command matches Command::Invalid(data) && final(self)@ == old(
                    self,
                )@.raise_t(data),
            },
    {
        self.exec_command(command, limit)
    }

    /// Execute a mutable command.  May propagate the engine's failure
    /// signal instead of returning.
    pub fn exec_update(&mut self, command: &Command, limit: Option<i64>) -> (r: Result<
        Vec<u64>,
        EngineSignal,
    >)
        requires
            old(self)@.wf(),
        ensures
            final(self)@.wf(),
            match r {
                Ok(rows) => match *command {
                    Command::Read => final(self)@ == old(self)@ && rows@ == limited(
                        old(self)@.visible(),
                        limit,
                    ),
                    Command::Write(effect) => final(self)@ == old(self)@.record_t(effect)
                        && rows@ == Seq::<u64>::empty(),
                    Command::Invalid(_) => false,
                },
                Err(_) => *command matches Command::Invalid(data) && final(self)@ == old(
                    self,
                )@.raise_t(data),
            },
    {
        self.exec_command(command, limit)
    }
}

/// Releasing the innermost level keeps the visible effects exactly as they
/// were: the merged level carries both effect runs in order.
pub proof fn lemma_visible_release(m: EngineModel)
    requires
        m.levels.len() >= 2,
    ensures
        m.release_t().visible() == m.visible(),
{
    let n = m.levels.len() as int;
    let r = m.release_t();
    lemma_visible_prefix_stable(m.levels, r.levels, n - 2);
    assert(visible_up_to(m.levels, n) == visible_up_to(m.levels, n - 1) + m.levels[n - 1].effects);
    assert(visible_up_to(m.levels, n - 1) == visible_up_to(m.levels, n - 2) + m.levels[n
        - 2].effects);
    assert(visible_up_to(r.levels, n - 1) == visible_up_to(r.levels, n - 2) + r.levels[n
        - 2].effects);
    assert(r.visible() =~= m.visible());
}

/// Beginning a nested transaction does not change the visible effects: the
/// fresh level is empty.
pub proof fn lemma_visible_new_level(m: EngineModel)
    ensures
        m.begin_t().visible() == m.visible(),
{
    let b = m.begin_t();
    let n = m.levels.len() as int;
    assert(visible_up_to(b.levels, n + 1) == visible_up_to(b.levels, n) + b.levels[n].effects);
    lemma_visible_prefix_stable(m.levels, b.levels, n);
    assert(b.visible() =~= m.visible());
}

/// Recording an effect appends it to the visible effects.
pub proof fn lemma_visible_record(m: EngineModel, effect: u64)
    requires
        m.levels.len() >= 1,
    ensures
        m.record_t(effect).visible() == m.visible().push(effect),
{
    let n = m.levels.len() as int;
    let r = m.record_t(effect);
    lemma_visible_prefix_stable(m.levels, r.levels, n - 1);
    assert(visible_up_to(m.levels, n) == visible_up_to(m.levels, n - 1) + m.levels[n - 1].effects);
    assert(visible_up_to(r.levels, n) == visible_up_to(r.levels, n - 1) + r.levels[n - 1].effects);
    assert(r.visible() =~= m.visible().push(effect));
}

/// Releasing the innermost level retires its owner identity for good: no
/// open level of the resulting state carries it.
pub proof fn lemma_release_kills_top(m: EngineModel)
    requires
        m.wf(),
        m.levels.len() >= 2,
    ensures
        scope_dead(m.release_t(), m.top().owner),
{
    let n = m.levels.len() as int;
    let id = m.top().owner;
    let r = m.release_t();
    assert forall|i: int| 0 <= i < r.levels.len() implies (#[trigger] r.levels[i]).owner != id by {
        assert(m.levels[i].owner < m.levels[n - 1].owner);
    }
}

/// Rolling back the innermost level retires its owner identity for good.
pub proof fn lemma_rollback_kills_top(m: EngineModel)
    requires
        m.wf(),
        m.levels.len() >= 2,
    ensures
        scope_dead(m.rollback_t(), m.top().owner),
        m.rollback_t().wf(),
{
    let n = m.levels.len() as int;
    let id = m.top().owner;
    let r = m.rollback_t();
    assert forall|i: int| 0 <= i < r.levels.len() implies (#[trigger] r.levels[i]).owner != id by {
        assert(m.levels[i].owner < m.levels[n - 1].owner);
    }
}

/// Levels that agree up to `n` have the same visible effects up to `n`.
pub proof fn lemma_visible_prefix_stable(a: Seq<LevelModel>, b: Seq<LevelModel>, n: int)
    requires
        0 <= n <= a.len(),
        n <= b.len(),
        forall|i: int| 0 <= i < n ==> a[i] == b[i],
    ensures
        visible_up_to(a, n) == visible_up_to(b, n),
    decreases n,
{
    if n > 0 {
        lemma_visible_prefix_stable(a, b, n - 1);
    }
}

} // verus!

