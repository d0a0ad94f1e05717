//! The cache of bound state and the descriptor-set comparison protocol.
use vstd::prelude::*;
use crate::dynamic::{DynamicState, DynamicStateView, apply_dynamic, dynamic_delta, dynamic_merge, dynamic_none};
use crate::sets::{
    SetList, set_list_contents, set_list_get, set_list_len, set_list_new, set_list_push,
    set_list_put, set_list_truncate,
};

verus! {

/// Outcome of a query on one piece of bound state.
#[derive(Debug, Copy, Clone, PartialEq, Eq, Structural)]
pub enum StateCacherOutcome {
    /// The caller needs to perform the state change in the actual command buffer builder.
    NeedChange,
    /// The state change is not necessary.
    AlreadyOk,
}

/// The type of the elements of an index buffer.
#[derive(Debug, Copy, Clone, PartialEq, Eq, Structural)]
pub enum IndexType {
    U16,
    U32,
}

/// Keeps track of the state of a command buffer builder, so that objects that
/// were already bound need not be bound again.
///
/// Executing a secondary command buffer invalidates the state of a command
/// buffer builder: call `invalidate()` when you do so.
pub struct StateCacher {
    dynamic_state: DynamicState,
    compute_pipeline: Option<u64>,
    graphics_pipeline: Option<u64>,
    compute_descriptor_sets: SetList,
    graphics_descriptor_sets: SetList,
    // True while a comparison of descriptor sets is under way. Found true when
    // a new one starts, it means that the last one was abandoned half-way and
    // that the cached sets can no longer be trusted.
    poisoned_descriptor_sets: bool,
    index_buffer: Option<(u64, usize, IndexType)>,
}

/// The mathematical value of a `StateCacher`.
pub struct StateCacherView {
    pub dynamic_state: DynamicStateView,
    pub compute_pipeline: Option<u64>,
    pub graphics_pipeline: Option<u64>,
    pub compute_sets: Seq<u64>,
    pub graphics_sets: Seq<u64>,
    pub poisoned: bool,
    pub index_buffer: Option<(u64, usize, IndexType)>,
}

impl View for StateCacher {
    type V = StateCacherView;

    closed spec fn view(&self) -> StateCacherView {
        StateCacherView {
            dynamic_state: self.dynamic_state@,
            compute_pipeline: self.compute_pipeline,
            graphics_pipeline: self.graphics_pipeline,
            compute_sets: set_list_contents(self.compute_descriptor_sets),
            graphics_sets: set_list_contents(self.graphics_descriptor_sets),
            poisoned: self.poisoned_descriptor_sets,
            index_buffer: self.index_buffer,
        }
    }
}

/// The state of a new cache: nothing bound, no comparison under way.
pub open spec fn empty_cache() -> StateCacherView {
    StateCacherView {
        dynamic_state: dynamic_none(),
        compute_pipeline: None,
        graphics_pipeline: None,
        compute_sets: Seq::empty(),
        graphics_sets: Seq::empty(),
        poisoned: false,
        index_buffer: None,
    }
}

/// The cache once invalidated: everything forgotten but the poisoning flag.
pub open spec fn invalidated(s: StateCacherView) -> StateCacherView {
    StateCacherView { poisoned: s.poisoned, ..empty_cache() }
}

/// Whether a binding must be recorded, given the cached value and the
/// requested one.
pub open spec fn outcome_of<T>(cached: Option<T>, wanted: T) -> StateCacherOutcome {
    if cached == Some(wanted) {
        StateCacherOutcome::AlreadyOk
    } else {
        StateCacherOutcome::NeedChange
    }
}

/// The cache once the dynamic state `incoming` is requested.
pub open spec fn dynamic_state_step(s: StateCacherView, incoming: DynamicStateView) -> StateCacherView {
    StateCacherView { dynamic_state: dynamic_merge(s.dynamic_state, incoming), ..s }
}

/// The cache once the graphics pipeline `h` is requested.
pub open spec fn graphics_step(s: StateCacherView, h: u64) -> StateCacherView {
    StateCacherView { graphics_pipeline: Some(h), ..s }
}

/// The cache once the compute pipeline `h` is requested.
pub open spec fn compute_step(s: StateCacherView, h: u64) -> StateCacherView {
    StateCacherView { compute_pipeline: Some(h), ..s }
}

/// The cache once the index buffer `ib` is requested.
pub open spec fn index_step(s: StateCacherView, ib: (u64, usize, IndexType)) -> StateCacherView {
    StateCacherView { index_buffer: Some(ib), ..s }
}

/// The cache as a comparison of descriptor sets finds it: both lists emptied
/// when the previous comparison was abandoned.
pub open spec fn begin_base(s: StateCacherView) -> StateCacherView {
    if s.poisoned {
        StateCacherView { compute_sets: Seq::empty(), graphics_sets: Seq::empty(), ..s }
    } else {
        s
    }
}

/// The cached list of one pipeline type.
pub open spec fn sets_for(s: StateCacherView, graphics: bool) -> Seq<u64> {
    if graphics {
        s.graphics_sets
    } else {
        s.compute_sets
    }
}

/// `s` with the list of one pipeline type replaced and the flag set to `poisoned`.
pub open spec fn with_sets(s: StateCacherView, graphics: bool, sets: Seq<u64>, poisoned: bool) -> StateCacherView {
    if graphics {
        StateCacherView { graphics_sets: sets, poisoned, ..s }
    } else {
        StateCacherView { compute_sets: sets, poisoned, ..s }
    }
}

impl StateCacher {
    /// Builds a new `StateCacher`.
    pub fn new() -> (r: StateCacher)
        ensures
            r@ == empty_cache(),
    {
        StateCacher {
            dynamic_state: DynamicState::none(),
            compute_pipeline: None,
            graphics_pipeline: None,
            compute_descriptor_sets: set_list_new(),
            graphics_descriptor_sets: set_list_new(),
            poisoned_descriptor_sets: false,
            index_buffer: None,
        }
    }

    /// Resets the cache to its default state. This must be called after
    /// executing a secondary command buffer.
    pub fn invalidate(&mut self)
        ensures
            final(self)@ == invalidated(old(self)@),
    {
        self.dynamic_state = DynamicState::none();
        self.compute_pipeline = None;
        self.graphics_pipeline = None;
        self.compute_descriptor_sets = set_list_new();
        self.graphics_descriptor_sets = set_list_new();
        self.index_buffer = None;
    }

    /// Compares the current state with `incoming`, and returns the part of it
    /// that differs and needs to be set in the command buffer builder.
    ///
    /// The cache takes the returned changes as performed.
    pub fn dynamic_state(&mut self, incoming: DynamicState) -> (r: DynamicState)
        ensures
            r@ == dynamic_delta(old(self)@.dynamic_state, incoming@),
            final(self)@ == dynamic_state_step(old(self)@, incoming@),
    {
        apply_dynamic(&mut self.dynamic_state, incoming)
    }

    /// Starts comparing a list of descriptor sets with the sets in cache for
    /// the graphics pipeline (`graphics`) or the compute pipeline.
    ///
    /// Call `add` for each set in order, then `compare` to learn the index of
    /// the first set to bind. The cache takes the change as performed once
    /// `compare` returns.
    pub fn bind_descriptor_sets(&mut self, graphics: bool) -> (r: StateCacherDescriptorSets<'_>)
        ensures
            r.sets() == sets_for(begin_base(old(self)@), graphics),
            r.position() == 0,
            r.first_diff() == None::<u32>,
            *r.poisoned,
            final(self)@ == with_sets(
                begin_base(old(self)@),
                graphics,
                set_list_contents(*final(r.state)),
                *final(r.poisoned),
            ),
    {
        if self.poisoned_descriptor_sets {
            self.compute_descriptor_sets = set_list_new();
            self.graphics_descriptor_sets = set_list_new();
        }
        self.poisoned_descriptor_sets = true;
        StateCacherDescriptorSets {
            poisoned: &mut self.poisoned_descriptor_sets,
            state: if graphics {
                &mut self.graphics_descriptor_sets
            } else {
                &mut self.compute_descriptor_sets
            },
            offset: 0,
            found_diff: None,
        }
    }

    /// Checks whether the graphics pipeline `pipeline` must be bound, and
    /// records it as bound.
    pub fn bind_graphics_pipeline(&mut self, pipeline: u64) -> (r: StateCacherOutcome)
        ensures
            r == outcome_of(old(self)@.graphics_pipeline, pipeline),
            final(self)@ == graphics_step(old(self)@, pipeline),
    {
        if self.graphics_pipeline == Some(pipeline) {
            StateCacherOutcome::AlreadyOk
        } else {
            self.graphics_pipeline = Some(pipeline);
            StateCacherOutcome::NeedChange
        }
    }

    /// Checks whether the compute pipeline `pipeline` must be bound, and
    /// records it as bound.
    pub fn bind_compute_pipeline(&mut self, pipeline: u64) -> (r: StateCacherOutcome)
        ensures
            r == outcome_of(old(self)@.compute_pipeline, pipeline),
            final(self)@ == compute_step(old(self)@, pipeline),
    {
        if self.compute_pipeline == Some(pipeline) {
            StateCacherOutcome::AlreadyOk
        } else {
            self.compute_pipeline = Some(pipeline);
            StateCacherOutcome::NeedChange
        }
    }

    /// Checks whether the index buffer `buffer`, read from byte `offset` with
    /// elements of type `ty`, must be bound, and records it as bound.
    pub fn bind_index_buffer(&mut self, buffer: u64, offset: usize, ty: IndexType) -> (r: StateCacherOutcome)
        ensures
            r == outcome_of(old(self)@.index_buffer, (buffer, offset, ty)),
            final(self)@ == index_step(old(self)@, (buffer, offset, ty)),
    {
        let value = (buffer, offset, ty);
        let same = match self.index_buffer {
            Some((b, o, t)) => b == buffer && o == offset && t == ty,
            None => false,
        };
        if same {
            StateCacherOutcome::AlreadyOk
        } else {
            self.index_buffer = Some(value);
            StateCacherOutcome::NeedChange
        }
    }
}

/// Compares a list of descriptor sets, given one by one, with the list in
/// cache, and brings the cache up to date.
///
/// If it is dropped before `compare` is called, the next comparison starts
/// from empty lists.
///
/// The fields are public so that the contracts of the cache can speak of what
/// the borrowed flag and list hold once the comparison is over; callers go
/// through `add` and `compare`.
pub struct StateCacherDescriptorSets<'s> {
    /// The cache's flag that marks a comparison as under way.
    pub poisoned: &'s mut bool,
    /// The cached list being compared and brought up to date.
    pub state: &'s mut SetList,
    /// Position within the list of the next set to compare.
    pub offset: usize,
    /// The first position at which the lists differ, if any yet.
    pub found_diff: Option<u32>,
}

/// The list once `set` is given at `position`: the entry there overwritten,
/// or the list grown by one when it is no longer.
pub open spec fn add_sets(sets: Seq<u64>, position: nat, set: u64) -> Seq<u64> {
    if position < sets.len() {
        sets.update(position as int, set)
    } else {
        sets.push(set)
    }
}

/// The first differing position once `set` is given at `position`.
pub open spec fn add_diff(sets: Seq<u64>, position: nat, diff: Option<u32>, set: u64) -> Option<u32> {
    if diff is None && !(position < sets.len() && sets[position as int] == set) {
        Some(position as u32)
    } else {
        diff
    }
}

/// The list once a comparison ends at `position`: the entries from there on
/// are dropped.
pub open spec fn finish_sets(sets: Seq<u64>, position: nat) -> Seq<u64> {
    if position < sets.len() {
        sets.subrange(0, position as int)
    } else {
        sets
    }
}

/// The list and the first differing position once every set of `added` is
/// given, in order, from `position` on.
pub open spec fn run_adds(sets: Seq<u64>, position: nat, diff: Option<u32>, added: Seq<u64>) -> (Seq<u64>, Option<u32>)
    decreases added.len(),
{
    if added.len() == 0 {
        (sets, diff)
    } else {
        run_adds(
            add_sets(sets, position, added[0]),
            position + 1,
            add_diff(sets, position, diff, added[0]),
            added.drop_first(),
        )
    }
}

impl<'s> StateCacherDescriptorSets<'s> {
    /// The list as it stands now.
    pub open spec fn sets(&self) -> Seq<u64> {
        set_list_contents(*self.state)
    }

    /// The position of the next set to compare.
    pub open spec fn position(&self) -> nat {
        self.offset as nat
    }

    /// The first position at which the lists were found to differ.
    pub open spec fn first_diff(&self) -> Option<u32> {
        self.found_diff
    }

    /// Adds a descriptor set to the list to compare.
    pub fn add(&mut self, set: u64)
        requires
            old(self).position() <= old(self).sets().len(),
            old(self).position() < u32::MAX,
        ensures
            final(self).sets() == add_sets(old(self).sets(), old(self).position(), set),
            final(self).first_diff() == add_diff(old(self).sets(), old(self).position(), old(self).first_diff(), set),
            final(self).position() == old(self).position() + 1,
            *final(self).poisoned == *old(self).poisoned,
            *final(final(self).state) == *final(old(self).state),
            *final(final(self).poisoned) == *final(old(self).poisoned),
    {
        let len = set_list_len(self.state);
        if self.offset < len {
            if set_list_get(self.state, self.offset) == set {
                self.offset = self.offset + 1;
                return;
            }
            set_list_put(self.state, self.offset, set);
        } else {
            set_list_push(self.state, set);
        }
        if self.found_diff.is_none() {
            self.found_diff = Some(self.offset as u32);
        }
        self.offset = self.offset + 1;
    }

    /// Ends the comparison: drops from the cache the sets beyond those added,
    /// and returns the position of the first set to bind, or `None` if the
    /// two lists were identical.
    pub fn compare(self) -> (r: Option<u32>)
        ensures
            r == self.first_diff(),
            set_list_contents(*final(self.state)) == finish_sets(self.sets(), self.position()),
            *final(self.poisoned) == false,
    {
        *self.poisoned = false;
        set_list_truncate(self.state, self.offset);
        self.found_diff
    }
}

} // verus!
