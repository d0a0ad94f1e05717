//! The dynamic rasterization state: fields that each may be left unset.
//!
//! Floating-point values are held as their IEEE-754 bit patterns, and two
//! values are the same when their bit patterns are.
use vstd::prelude::*;

verus! {

/// A viewport: origin, dimensions and depth range, each value the bit pattern
/// of an `f32`.
#[derive(Debug, Copy, Clone, PartialEq, Eq, Structural)]
pub struct Viewport {
    pub origin_x: u32,
    pub origin_y: u32,
    pub width: u32,
    pub height: u32,
    pub min_depth: u32,
    pub max_depth: u32,
}

/// A scissor rectangle.
#[derive(Debug, Copy, Clone, PartialEq, Eq, Structural)]
pub struct Scissor {
    pub origin_x: i32,
    pub origin_y: i32,
    pub width: u32,
    pub height: u32,
}

/// Dynamic state: each field is `None` when it is not specified.
#[derive(Debug, Clone, PartialEq)]
pub struct DynamicState {
    /// Bit pattern of the line width.
    pub line_width: Option<u32>,
    pub viewports: Option<Vec<Viewport>>,
    pub scissors: Option<Vec<Scissor>>,
}

/// The mathematical value of a `DynamicState`.
pub struct DynamicStateView {
    pub line_width: Option<u32>,
    pub viewports: Option<Seq<Viewport>>,
    pub scissors: Option<Seq<Scissor>>,
}

pub open spec fn opt_seq<T>(o: Option<Vec<T>>) -> Option<Seq<T>> {
    match o {
        Some(v) => Some(v@),
        None => None,
    }
}

impl View for DynamicState {
    type V = DynamicStateView;

    open spec fn view(&self) -> DynamicStateView {
        DynamicStateView {
            line_width: self.line_width,
            viewports: opt_seq(self.viewports),
            scissors: opt_seq(self.scissors),
        }
    }
}

/// The state with every field unset.
pub open spec fn dynamic_none() -> DynamicStateView {
    DynamicStateView { line_width: None, viewports: None, scissors: None }
}

/// What of one field must still be applied: nothing when the requested value
/// is the cached one, else the requested value.
pub open spec fn field_delta<T>(cached: Option<T>, incoming: Option<T>) -> Option<T> {
    if incoming == cached {
        None
    } else {
        incoming
    }
}

/// The cached value of one field after a request: the requested value when
/// there is one, else the cached value unchanged.
pub open spec fn field_merge<T>(cached: Option<T>, incoming: Option<T>) -> Option<T> {
    match incoming {
        Some(_) => incoming,
        None => cached,
    }
}

/// The fields of `incoming` that differ from `cached`.
pub open spec fn dynamic_delta(cached: DynamicStateView, incoming: DynamicStateView) -> DynamicStateView {
    DynamicStateView {
        line_width: field_delta(cached.line_width, incoming.line_width),
        viewports: field_delta(cached.viewports, incoming.viewports),
        scissors: field_delta(cached.scissors, incoming.scissors),
    }
}

/// The cached state once the fields of `incoming` are applied.
pub open spec fn dynamic_merge(cached: DynamicStateView, incoming: DynamicStateView) -> DynamicStateView {
    DynamicStateView {
        line_width: field_merge(cached.line_width, incoming.line_width),
        viewports: field_merge(cached.viewports, incoming.viewports),
        scissors: field_merge(cached.scissors, incoming.scissors),
    }
}

impl DynamicState {
    /// Builds a `DynamicState` with every field unset.
    pub fn none() -> (r: DynamicState)
        ensures
            r@ == dynamic_none(),
    {
        DynamicState { line_width: None, viewports: None, scissors: None }
    }
}

fn same_width(a: &Option<u32>, b: &Option<u32>) -> (r: bool)
    ensures
        r == (*a == *b),
{
    match (a, b) {
        (Some(x), Some(y)) => *x == *y,
        (None, None) => true,
        _ => false,
    }
}

fn same_viewports(a: &Option<Vec<Viewport>>, b: &Option<Vec<Viewport>>) -> (r: bool)
    ensures
        r == (opt_seq(*a) == opt_seq(*b)),
{
    match (a, b) {
        (Some(x), Some(y)) => {
            if x.len() != y.len() {
                return false;
            }
            let mut i: usize = 0;
            while i < x.len()
                invariant
                    opt_seq(*a) == Some(x@),
                    opt_seq(*b) == Some(y@),
                    x.len() == y.len(),
                    i <= x.len(),
                    forall|k: int| 0 <= k < i ==> x@[k] == y@[k],
                decreases x.len() - i,
            {
                if x[i] != y[i] {
                    assert(x@[i as int] != y@[i as int]);
                    return false;
                }
                i = i + 1;
            }
            assert(x@ =~= y@);
            true
        },
        (None, None) => true,
        _ => false,
    }
}

fn same_scissors(a: &Option<Vec<Scissor>>, b: &Option<Vec<Scissor>>) -> (r: bool)
    ensures
        r == (opt_seq(*a) == opt_seq(*b)),
{
    match (a, b) {
        (Some(x), Some(y)) => {
            if x.len() != y.len() {
                return false;
            }
            let mut i: usize = 0;
            while i < x.len()
                invariant
                    opt_seq(*a) == Some(x@),
                    opt_seq(*b) == Some(y@),
                    x.len() == y.len(),
                    i <= x.len(),
                    forall|k: int| 0 <= k < i ==> x@[k] == y@[k],
                decreases x.len() - i,
            {
                if x[i] != y[i] {
                    assert(x@[i as int] != y@[i as int]);
                    return false;
                }
                i = i + 1;
            }
            assert(x@ =~= y@);
            true
        },
        (None, None) => true,
        _ => false,
    }
}

fn copy_viewports(a: &Option<Vec<Viewport>>) -> (r: Option<Vec<Viewport>>)
    ensures
        opt_seq(r) == opt_seq(*a),
{
    match a {
        Some(x) => {
            let mut out: Vec<Viewport> = Vec::new();
            let mut i: usize = 0;
            while i < x.len()
                invariant
                    i <= x.len(),
                    out@ == x@.subrange(0, i as int),
                decreases x.len() - i,
            {
                out.push(x[i]);
                i = i + 1;
            }
            assert(x@.subrange(0, x.len() as int) =~= x@);
            Some(out)
        },
        None => None,
    }
}

fn copy_scissors(a: &Option<Vec<Scissor>>) -> (r: Option<Vec<Scissor>>)
    ensures
        opt_seq(r) == opt_seq(*a),
{
    match a {
        Some(x) => {
            let mut out: Vec<Scissor> = Vec::new();
            let mut i: usize = 0;
            while i < x.len()
                invariant
                    i <= x.len(),
                    out@ == x@.subrange(0, i as int),
                decreases x.len() - i,
            {
                out.push(x[i]);
                i = i + 1;
            }
            assert(x@.subrange(0, x.len() as int) =~= x@);
            Some(out)
        },
        None => None,
    }
}

/// Compares `incoming` with `cached` field by field: a field that matches is
/// cleared from `incoming`, a field that differs and is set is stored into
/// `cached`. Returns what is left of `incoming`.
pub fn apply_dynamic(cached: &mut DynamicState, incoming: DynamicState) -> (r: DynamicState)
    ensures
        r@ == dynamic_delta(old(cached)@, incoming@),
        final(cached)@ == dynamic_merge(old(cached)@, incoming@),
{
    let mut incoming = incoming;
    if same_width(&cached.line_width, &incoming.line_width) {
        incoming.line_width = None;
    } else if incoming.line_width.is_some() {
        cached.line_width = incoming.line_width;
    }
    if same_viewports(&cached.viewports, &incoming.viewports) {
        incoming.viewports = None;
    } else if incoming.viewports.is_some() {
        cached.viewports = copy_viewports(&incoming.viewports);
    }
    if same_scissors(&cached.scissors, &incoming.scissors) {
        incoming.scissors = None;
    } else if incoming.scissors.is_some() {
        cached.scissors = copy_scissors(&incoming.scissors);
    }
    incoming
}

} // verus!
