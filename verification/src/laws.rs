//! Laws of the sub-transaction lifecycle, stated over the engine's
//! transition system.
//!
//! Every exec operation of this crate changes the engine by a composition
//! of the transitions gathered in [`engine_step`].  The laws here therefore
//! hold over any execution: a sequence of engine states in which each state
//! follows from the last by one step.

use vstd::prelude::*;

use crate::engine::{EngineModel, engine_step, scope_dead, visible_up_to};
use crate::subtxn::SubTransaction;

verus! {

/// Every transition named in an operation's contract is an engine step, so
/// any run of this crate's operations unfolds into a trace the laws below
/// quantify over.
pub proof fn lemma_transitions_are_steps(m: EngineModel, data: crate::error::ErrorData, id: u64)
    ensures
        engine_step(m, m),
        m.can_begin() ==> engine_step(m, m.begin_t()),
        m.levels.len() >= 2 ==> engine_step(m, m.release_t()),
        m.levels.len() >= 2 ==> engine_step(m, m.rollback_t()),
        engine_step(m, m.set_owner_t(id)),
        engine_step(m, m.set_scope_t(id)),
        engine_step(m, m.raise_t(data)),
        engine_step(m, m.clear_t()),
        m.levels.len() >= 1 ==> engine_step(m, m.record_t(id)),
{
}

/// One engine step cannot resurrect a released level: owner identities are
/// drawn fresh and never reused, so a dead identity stays dead.
pub proof fn lemma_step_preserves_dead(a: EngineModel, b: EngineModel, id: u64)
    requires
        engine_step(a, b),
        scope_dead(a, id),
    ensures
        scope_dead(b, id),
{
    if a.can_begin() && b == a.begin_t() {
        assert forall|i: int| 0 <= i < b.levels.len() implies (#[trigger] b.levels[i]).owner
            != id by {
            if i < a.levels.len() {
                assert(a.levels[i].owner != id);
            }
        }
    } else if a.levels.len() >= 2 && b == a.release_t() {
        assert forall|i: int| 0 <= i < b.levels.len() implies (#[trigger] b.levels[i]).owner
            != id by {
            assert(a.levels[i].owner != id);
        }
    } else if a.levels.len() >= 1 && (exists|effect: u64| b == #[trigger] a.record_t(effect)) {
        let effect = choose|effect: u64| b == #[trigger] a.record_t(effect);
        assert forall|i: int| 0 <= i < b.levels.len() implies (#[trigger] b.levels[i]).owner
            != id by {
            assert(a.levels[i].owner != id);
        }
    }
}

/// No finalization can ever run twice on one scope.
///
/// Committing, rolling back, or letting the scope-exit finalizer act on an
/// armed handle leaves the handle's level identity `scope_dead`.  This law
/// says that from such a state, no sequence of engine steps — and hence no
/// sequence of operations of this crate — ever reaches a state in which
/// that identity is live again.  Since every finalizing operation requires
/// the handle's level to be the innermost open one
/// ([`lemma_dead_handle_not_innermost`] shows a dead identity never
/// qualifies), at most one of explicit commit, explicit rollback and
/// scope-exit finalization ever executes a release against the engine.
pub proof fn lemma_no_double_release(trace: Seq<EngineModel>, id: u64)
    requires
        trace.len() >= 1,
        scope_dead(trace[0], id),
        forall|i: int| 0 <= i < trace.len() - 1 ==> engine_step(#[trigger] trace[i], trace[i + 1]),
    ensures
        forall|i: int| 0 <= i < trace.len() ==> scope_dead(#[trigger] trace[i], id),
    decreases trace.len(),
{
    if trace.len() > 1 {
        let n = trace.len() as int;
        let prefix = trace.drop_last();
        assert(prefix[0] == trace[0]);
        assert forall|i: int| 0 <= i < prefix.len() - 1 implies engine_step(
            #[trigger] prefix[i],
            prefix[i + 1],
        ) by {
            assert(engine_step(trace[i], trace[i + 1]));
        }
        lemma_no_double_release(prefix, id);
        assert forall|i: int| 0 <= i < trace.len() implies scope_dead(#[trigger] trace[i], id) by {
            if i < n - 1 {
                assert(scope_dead(prefix[i], id));
            } else {
                assert(scope_dead(prefix[n - 2], id));
                assert(engine_step(trace[n - 2], trace[n - 1]));
                lemma_step_preserves_dead(trace[n - 2], trace[n - 1], id);
            }
        }
    }
}

/// A handle whose level identity is dead is never again the innermost
/// one, so no finalizing operation accepts it.
pub proof fn lemma_dead_handle_not_innermost<Parent>(h: SubTransaction<Parent>, m: EngineModel)
    requires
        scope_dead(m, h.level_id()),
        m.levels.len() >= 1,
    ensures
        !h.is_innermost(m),
{
    assert(m.levels[m.levels.len() - 1].owner != h.level_id());
}

/// One engine step that keeps the first `depth` levels in place does not
/// change them: all work happens at or above the innermost open levels.
pub proof fn lemma_step_preserves_prefix(a: EngineModel, b: EngineModel, depth: int)
    requires
        engine_step(a, b),
        0 <= depth,
        a.levels.len() > depth,
        b.levels.len() > depth,
    ensures
        b.levels.subrange(0, depth) == a.levels.subrange(0, depth),
{
    assert(b.levels.subrange(0, depth) =~= a.levels.subrange(0, depth));
}

/// Rolling back an outer scope undoes everything done inside it, no
/// matter how deeply nested — even nested scopes that were individually
/// committed.
///
/// Take any execution that begins right after a scope's level was opened
/// (the level at index `depth` is then the innermost) and that keeps that
/// level open throughout: arbitrary commands, deeper scopes, their commits
/// and rollbacks.  Every committed inner effect only ever moves into a
/// level at index `depth` or above, so the levels beneath stay exactly as
/// they were; if the execution ends with the scope's level innermost
/// again, rolling it back leaves the engine's levels — and hence the
/// visible effects — exactly as when the scope was opened.
pub proof fn lemma_rollback_undoes_nested(trace: Seq<EngineModel>, depth: int)
    requires
        trace.len() >= 1,
        1 <= depth,
        trace[0].levels.len() == depth + 1,
        forall|i: int| 0 <= i < trace.len() ==> (#[trigger] trace[i]).levels.len() > depth,
        forall|i: int| 0 <= i < trace.len() - 1 ==> engine_step(#[trigger] trace[i], trace[i + 1]),
        trace.last().levels.len() == depth + 1,
    ensures
        trace.last().rollback_t().levels == trace[0].levels.subrange(0, depth),
        trace.last().rollback_t().visible() == visible_up_to(trace[0].levels, depth),
    decreases trace.len(),
{
    if trace.len() == 1 {
        assert(trace.last().rollback_t().levels =~= trace[0].levels.subrange(0, depth));
    } else {
        let n = trace.len() as int;
        let prefix = trace.drop_last();
        assert forall|i: int| 0 <= i < prefix.len() - 1 implies engine_step(
            #[trigger] prefix[i],
            prefix[i + 1],
        ) by {
            assert(engine_step(trace[i], trace[i + 1]));
        }
        assert forall|i: int| 0 <= i < prefix.len() implies (#[trigger] prefix[i]).levels.len()
            > depth by {
            assert(trace[i].levels.len() > depth);
        }
        lemma_prefix_stable(prefix, depth);
        lemma_step_preserves_prefix(trace[n - 2], trace[n - 1], depth);
        assert(prefix[n - 2] == trace[n - 2]);
        assert(trace.last().rollback_t().levels =~= trace.last().levels.subrange(0, depth));
        assert(trace.last().levels.subrange(0, depth) == trace[0].levels.subrange(0, depth));
    }
    crate::engine::lemma_visible_prefix_stable(
        trace.last().rollback_t().levels,
        trace[0].levels,
        depth,
    );
}

/// Across an execution that keeps the first `depth` levels in place, those
/// levels never change.
pub proof fn lemma_prefix_stable(trace: Seq<EngineModel>, depth: int)
    requires
        trace.len() >= 1,
        0 <= depth,
        forall|i: int| 0 <= i < trace.len() ==> (#[trigger] trace[i]).levels.len() > depth,
        forall|i: int| 0 <= i < trace.len() - 1 ==> engine_step(#[trigger] trace[i], trace[i + 1]),
    ensures
        forall|i: int| 0 <= i < trace.len() ==> (#[trigger] trace[i]).levels.subrange(0, depth)
            == trace[0].levels.subrange(0, depth),
    decreases trace.len(),
{
    if trace.len() > 1 {
        let n = trace.len() as int;
        let prefix = trace.drop_last();
        assert forall|i: int| 0 <= i < prefix.len() - 1 implies engine_step(
            #[trigger] prefix[i],
            prefix[i + 1],
        ) by {
            assert(engine_step(trace[i], trace[i + 1]));
        }
        assert forall|i: int| 0 <= i < prefix.len() implies (#[trigger] prefix[i]).levels.len()
            > depth by {
            assert(trace[i].levels.len() > depth);
        }
        lemma_prefix_stable(prefix, depth);
        assert forall|i: int| 0 <= i < trace.len() implies (#[trigger] trace[i]).levels.subrange(
            0,
            depth,
        ) == trace[0].levels.subrange(0, depth) by {
            if i < n - 1 {
                assert(prefix[i] == trace[i]);
                assert(prefix[i].levels.subrange(0, depth) == prefix[0].levels.subrange(0, depth));
            } else {
                assert(prefix[n - 2] == trace[n - 2]);
                assert(prefix[n - 2].levels.subrange(0, depth) == prefix[0].levels.subrange(
                    0,
                    depth,
                ));
                lemma_step_preserves_prefix(trace[n - 2], trace[n - 1], depth);
            }
        }
    }
}

} // verus!
