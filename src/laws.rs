//! Properties that hold across several calls on a cache.
use vstd::prelude::*;
use crate::cacher::{
    IndexType, StateCacherOutcome, StateCacherView, begin_base, compute_step, dynamic_state_step,
    empty_cache, finish_sets, graphics_step, index_step, invalidated, outcome_of, run_adds, sets_for,
};
use crate::dynamic::{DynamicStateView, dynamic_delta, dynamic_none};

verus! {

/// Requesting the same dynamic state twice in a row: the second request
/// leaves nothing to apply and does not change the cache.
pub proof fn lemma_dynamic_state_repeat(s: StateCacherView, incoming: DynamicStateView)
    ensures
        dynamic_delta(dynamic_state_step(s, incoming).dynamic_state, incoming) == dynamic_none(),
        dynamic_state_step(dynamic_state_step(s, incoming), incoming) == dynamic_state_step(s, incoming),
{
}

/// Requesting a pipeline `h` twice in a row: the first request needs a bind
/// unless `h` was already bound, the second never does; a different pipeline
/// requested after `h` needs a bind. Holds for both pipeline types.
pub proof fn lemma_pipeline_repeat(s: StateCacherView, h: u64, other: u64)
    ensures
        s.graphics_pipeline != Some(h) ==> outcome_of(s.graphics_pipeline, h) == StateCacherOutcome::NeedChange,
        outcome_of(graphics_step(s, h).graphics_pipeline, h) == StateCacherOutcome::AlreadyOk,
        other != h ==> outcome_of(graphics_step(s, h).graphics_pipeline, other) == StateCacherOutcome::NeedChange,
        s.compute_pipeline != Some(h) ==> outcome_of(s.compute_pipeline, h) == StateCacherOutcome::NeedChange,
        outcome_of(compute_step(s, h).compute_pipeline, h) == StateCacherOutcome::AlreadyOk,
        other != h ==> outcome_of(compute_step(s, h).compute_pipeline, other) == StateCacherOutcome::NeedChange,
{
}

/// After an index buffer is requested, requesting it again needs no bind,
/// while a request that differs in the buffer, the offset or the index type
/// does.
pub proof fn lemma_index_buffer_repeat(
    s: StateCacherView,
    buffer: u64,
    offset: usize,
    ty: IndexType,
    other: (u64, usize, IndexType),
)
    ensures
        outcome_of(index_step(s, (buffer, offset, ty)).index_buffer, (buffer, offset, ty))
            == StateCacherOutcome::AlreadyOk,
        other != (buffer, offset, ty) ==> outcome_of(index_step(s, (buffer, offset, ty)).index_buffer, other)
            == StateCacherOutcome::NeedChange,
{
}

/// An invalidated cache answers every query as a new one does: every
/// pipeline and index buffer needs a bind, every requested dynamic field is
/// left to apply, and a comparison of descriptor sets starts from an empty
/// list.
pub proof fn lemma_invalidate_like_new(
    s: StateCacherView,
    h: u64,
    ib: (u64, usize, IndexType),
    incoming: DynamicStateView,
    graphics: bool,
)
    ensures
        outcome_of(invalidated(s).graphics_pipeline, h) == outcome_of(empty_cache().graphics_pipeline, h),
        outcome_of(invalidated(s).graphics_pipeline, h) == StateCacherOutcome::NeedChange,
        outcome_of(invalidated(s).compute_pipeline, h) == outcome_of(empty_cache().compute_pipeline, h),
        outcome_of(invalidated(s).compute_pipeline, h) == StateCacherOutcome::NeedChange,
        outcome_of(invalidated(s).index_buffer, ib) == outcome_of(empty_cache().index_buffer, ib),
        outcome_of(invalidated(s).index_buffer, ib) == StateCacherOutcome::NeedChange,
        dynamic_delta(invalidated(s).dynamic_state, incoming) == dynamic_delta(empty_cache().dynamic_state, incoming),
        dynamic_delta(invalidated(s).dynamic_state, incoming) == incoming,
        sets_for(begin_base(invalidated(s)), graphics) == sets_for(begin_base(empty_cache()), graphics),
        sets_for(begin_base(invalidated(s)), graphics) == Seq::<u64>::empty(),
{
}

/// Whether slot `j` of `wanted` differs from the cached list `cached`: the
/// cached list has no slot `j`, or holds another set there.
pub open spec fn differs_at(cached: Seq<u64>, wanted: Seq<u64>, j: int) -> bool {
    j >= cached.len() || cached[j] != wanted[j]
}

/// `diff` is the first slot below `upto` at which `wanted` differs from
/// `cached`, or `None` when there is none.
pub open spec fn first_difference(cached: Seq<u64>, wanted: Seq<u64>, upto: nat, diff: Option<u32>) -> bool {
    match diff {
        None => forall|j: int| 0 <= j < upto ==> !differs_at(cached, wanted, j),
        Some(i) => i < upto && differs_at(cached, wanted, i as int) && forall|j: int|
            0 <= j < i ==> !differs_at(cached, wanted, j),
    }
}

proof fn lemma_run_adds(cached: Seq<u64>, wanted: Seq<u64>, p: nat, sets: Seq<u64>, diff: Option<u32>)
    requires
        p <= wanted.len(),
        wanted.len() < u32::MAX,
        sets.len() == if p <= cached.len() { cached.len() } else { p },
        forall|j: int| 0 <= j < p ==> sets[j] == wanted[j],
        forall|j: int| p <= j < cached.len() ==> sets[j] == cached[j],
        first_difference(cached, wanted, p, diff),
    ensures
        run_adds(sets, p, diff, wanted.subrange(p as int, wanted.len() as int)).0.len()
            == if wanted.len() <= cached.len() { cached.len() } else { wanted.len() },
        forall|j: int| 0 <= j < wanted.len()
            ==> run_adds(sets, p, diff, wanted.subrange(p as int, wanted.len() as int)).0[j] == wanted[j],
        first_difference(
            cached,
            wanted,
            wanted.len(),
            run_adds(sets, p, diff, wanted.subrange(p as int, wanted.len() as int)).1,
        ),
    decreases wanted.len() - p,
{
    let rest = wanted.subrange(p as int, wanted.len() as int);
    if p < wanted.len() {
        let x = wanted[p as int];
        assert(rest[0] == x);
        assert(rest.drop_first() =~= wanted.subrange(p + 1 as int, wanted.len() as int));
        let sets2 = crate::cacher::add_sets(sets, p, x);
        let diff2 = crate::cacher::add_diff(sets, p, diff, x);
        assert(differs_at(cached, wanted, p as int) == !(p < sets.len() && sets[p as int] == x));
        if diff2 != diff {
            assert(diff2 == Some(p as u32));
        }
        lemma_run_adds(cached, wanted, p + 1, sets2, diff2);
    }
}

/// A whole comparison of the list `wanted` against the cached list `cached`
/// (each set given in order, then the comparison ended) leaves the cache
/// holding exactly `wanted`, and reports the first slot at which `wanted`
/// differs from `cached`; it reports `None` exactly when `wanted` is a prefix
/// of `cached`.
pub proof fn lemma_compare_sets(cached: Seq<u64>, wanted: Seq<u64>)
    requires
        wanted.len() < u32::MAX,
    ensures
        finish_sets(run_adds(cached, 0, None, wanted).0, wanted.len()) == wanted,
        first_difference(cached, wanted, wanted.len(), run_adds(cached, 0, None, wanted).1),
        run_adds(cached, 0, None, wanted).1 is None <==> wanted.is_prefix_of(cached),
{
    assert(wanted.subrange(0, wanted.len() as int) =~= wanted);
    lemma_run_adds(cached, wanted, 0, cached, None);
    let (s, d) = run_adds(cached, 0, None, wanted);
    assert(finish_sets(s, wanted.len()) =~= wanted);
    if d is None {
        if wanted.len() > 0 {
            assert(!differs_at(cached, wanted, wanted.len() - 1));
        }
        assert forall|j: int| 0 <= j < wanted.len() implies cached.subrange(0, wanted.len() as int)[j]
            == wanted[j] by {
            assert(!differs_at(cached, wanted, j));
        }
        assert(cached.subrange(0, wanted.len() as int) =~= wanted);
    }
    if wanted.is_prefix_of(cached) {
        assert forall|j: int| 0 <= j < wanted.len() implies !differs_at(cached, wanted, j) by {
            assert(cached.subrange(0, wanted.len() as int)[j] == cached[j]);
        }
    }
}

} // verus!
