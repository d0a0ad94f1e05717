use state_cacher::{
    DynamicState, IndexType, Scissor, StateCacher, StateCacherOutcome, Viewport,
};

fn compare_sets(c: &mut StateCacher, graphics: bool, sets: &[u64]) -> Option<u32> {
    let mut d = c.bind_descriptor_sets(graphics);
    for s in sets {
        d.add(*s);
    }
    d.compare()
}

fn viewport(w: f32, h: f32) -> Viewport {
    Viewport {
        origin_x: 0.0f32.to_bits(),
        origin_y: 0.0f32.to_bits(),
        width: w.to_bits(),
        height: h.to_bits(),
        min_depth: 0.0f32.to_bits(),
        max_depth: 1.0f32.to_bits(),
    }
}

fn scissor(w: u32, h: u32) -> Scissor {
    Scissor { origin_x: 0, origin_y: 0, width: w, height: h }
}

fn full_state() -> DynamicState {
    DynamicState {
        line_width: Some(2.0f32.to_bits()),
        viewports: Some(vec![viewport(800.0, 600.0)]),
        scissors: Some(vec![scissor(800, 600), scissor(10, 10)]),
    }
}

#[test]
fn dynamic_state_first_request_passes_through() {
    let mut c = StateCacher::new();
    let out = c.dynamic_state(full_state());
    assert_eq!(out.line_width, Some(2.0f32.to_bits()));
    assert_eq!(out.viewports, Some(vec![viewport(800.0, 600.0)]));
    assert_eq!(out.scissors, Some(vec![scissor(800, 600), scissor(10, 10)]));
}

#[test]
fn dynamic_state_repeat_is_empty() {
    let mut c = StateCacher::new();
    c.dynamic_state(full_state());
    let out = c.dynamic_state(full_state());
    assert_eq!(out.line_width, None);
    assert_eq!(out.viewports, None);
    assert_eq!(out.scissors, None);
}

#[test]
fn dynamic_state_only_changed_fields_remain() {
    let mut c = StateCacher::new();
    c.dynamic_state(full_state());
    let mut next = full_state();
    next.line_width = Some(3.0f32.to_bits());
    next.scissors = Some(vec![scissor(800, 600)]);
    let out = c.dynamic_state(next);
    assert_eq!(out.line_width, Some(3.0f32.to_bits()));
    assert_eq!(out.viewports, None);
    assert_eq!(out.scissors, Some(vec![scissor(800, 600)]));
}

#[test]
fn dynamic_state_absent_fields_keep_cache() {
    let mut c = StateCacher::new();
    c.dynamic_state(full_state());
    let out = c.dynamic_state(DynamicState::none());
    assert_eq!(out.line_width, None);
    assert_eq!(out.viewports, None);
    assert_eq!(out.scissors, None);
    let out = c.dynamic_state(full_state());
    assert_eq!(out.line_width, None);
    assert_eq!(out.viewports, None);
    assert_eq!(out.scissors, None);
}

#[test]
fn dynamic_state_viewport_element_differs() {
    let mut c = StateCacher::new();
    c.dynamic_state(full_state());
    let mut next = DynamicState::none();
    next.viewports = Some(vec![viewport(800.0, 601.0)]);
    let out = c.dynamic_state(next);
    assert_eq!(out.viewports, Some(vec![viewport(800.0, 601.0)]));
    let mut again = DynamicState::none();
    again.viewports = Some(vec![viewport(800.0, 601.0)]);
    assert_eq!(c.dynamic_state(again).viewports, None);
}

#[test]
fn dynamic_state_empty_list_differs_from_unset() {
    let mut c = StateCacher::new();
    let mut next = DynamicState::none();
    next.scissors = Some(vec![]);
    assert_eq!(c.dynamic_state(next).scissors, Some(vec![]));
    let mut again = DynamicState::none();
    again.scissors = Some(vec![]);
    assert_eq!(c.dynamic_state(again).scissors, None);
}

#[test]
fn graphics_pipeline_twice() {
    let mut c = StateCacher::new();
    assert_eq!(c.bind_graphics_pipeline(7), StateCacherOutcome::NeedChange);
    assert_eq!(c.bind_graphics_pipeline(7), StateCacherOutcome::AlreadyOk);
    assert_eq!(c.bind_graphics_pipeline(8), StateCacherOutcome::NeedChange);
}

#[test]
fn compute_pipeline_twice() {
    let mut c = StateCacher::new();
    assert_eq!(c.bind_compute_pipeline(7), StateCacherOutcome::NeedChange);
    assert_eq!(c.bind_compute_pipeline(7), StateCacherOutcome::AlreadyOk);
    assert_eq!(c.bind_compute_pipeline(9), StateCacherOutcome::NeedChange);
    assert_eq!(c.bind_compute_pipeline(7), StateCacherOutcome::NeedChange);
}

#[test]
fn pipeline_types_are_independent() {
    let mut c = StateCacher::new();
    assert_eq!(c.bind_graphics_pipeline(5), StateCacherOutcome::NeedChange);
    assert_eq!(c.bind_compute_pipeline(5), StateCacherOutcome::NeedChange);
    assert_eq!(c.bind_graphics_pipeline(5), StateCacherOutcome::AlreadyOk);
}

#[test]
fn pipeline_handle_zero_is_a_real_handle() {
    let mut c = StateCacher::new();
    assert_eq!(c.bind_graphics_pipeline(0), StateCacherOutcome::NeedChange);
    assert_eq!(c.bind_graphics_pipeline(0), StateCacherOutcome::AlreadyOk);
}

#[test]
fn index_buffer_requery() {
    let mut c = StateCacher::new();
    assert_eq!(c.bind_index_buffer(42, 0, IndexType::U16), StateCacherOutcome::NeedChange);
    assert_eq!(c.bind_index_buffer(42, 0, IndexType::U16), StateCacherOutcome::AlreadyOk);
    assert_eq!(c.bind_index_buffer(42, 4, IndexType::U16), StateCacherOutcome::NeedChange);
    assert_eq!(c.bind_index_buffer(42, 4, IndexType::U16), StateCacherOutcome::AlreadyOk);
}

#[test]
fn index_buffer_type_change() {
    let mut c = StateCacher::new();
    assert_eq!(c.bind_index_buffer(42, 0, IndexType::U16), StateCacherOutcome::NeedChange);
    assert_eq!(c.bind_index_buffer(42, 0, IndexType::U32), StateCacherOutcome::NeedChange);
    assert_eq!(c.bind_index_buffer(43, 0, IndexType::U32), StateCacherOutcome::NeedChange);
}

#[test]
fn descriptor_sets_graphics_scenario() {
    let mut c = StateCacher::new();
    assert_eq!(compare_sets(&mut c, true, &[100, 101]), Some(0));
    assert_eq!(compare_sets(&mut c, true, &[100, 101]), None);
    assert_eq!(compare_sets(&mut c, true, &[100, 102]), Some(1));
    // The cache now holds exactly [100, 102].
    assert_eq!(compare_sets(&mut c, true, &[100, 102]), None);
    assert_eq!(compare_sets(&mut c, true, &[100, 102, 103]), Some(2));
}

#[test]
fn descriptor_sets_shrink_scenario() {
    let mut c = StateCacher::new();
    assert_eq!(compare_sets(&mut c, false, &[100, 101, 102]), Some(0));
    assert_eq!(compare_sets(&mut c, false, &[100]), None);
    assert_eq!(compare_sets(&mut c, false, &[100]), None);
    // Only [100] is left: the old second entry is gone.
    assert_eq!(compare_sets(&mut c, false, &[100, 101]), Some(1));
}

#[test]
fn descriptor_sets_abandoned_comparison() {
    let mut c = StateCacher::new();
    assert_eq!(compare_sets(&mut c, true, &[100, 101]), Some(0));
    assert_eq!(compare_sets(&mut c, false, &[100, 101]), Some(0));
    {
        let mut d = c.bind_descriptor_sets(true);
        d.add(999);
    }
    assert_eq!(compare_sets(&mut c, true, &[100, 101]), Some(0));
    // The compute list was emptied too.
    assert_eq!(compare_sets(&mut c, false, &[100, 101]), Some(0));
}

#[test]
fn descriptor_sets_abandoned_without_adds() {
    let mut c = StateCacher::new();
    assert_eq!(compare_sets(&mut c, false, &[1]), Some(0));
    {
        let _d = c.bind_descriptor_sets(true);
    }
    assert_eq!(compare_sets(&mut c, false, &[1]), Some(0));
}

#[test]
fn descriptor_sets_empty_comparison() {
    let mut c = StateCacher::new();
    assert_eq!(compare_sets(&mut c, true, &[]), None);
    assert_eq!(compare_sets(&mut c, true, &[5]), Some(0));
    assert_eq!(compare_sets(&mut c, true, &[]), None);
    assert_eq!(compare_sets(&mut c, true, &[5]), Some(0));
}

#[test]
fn descriptor_sets_types_are_independent() {
    let mut c = StateCacher::new();
    assert_eq!(compare_sets(&mut c, true, &[1, 2]), Some(0));
    assert_eq!(compare_sets(&mut c, false, &[1, 2]), Some(0));
    assert_eq!(compare_sets(&mut c, true, &[1, 2]), None);
}

#[test]
fn descriptor_sets_first_difference_kept() {
    let mut c = StateCacher::new();
    assert_eq!(compare_sets(&mut c, true, &[1, 2, 3, 4]), Some(0));
    assert_eq!(compare_sets(&mut c, true, &[1, 9, 3, 8]), Some(1));
    assert_eq!(compare_sets(&mut c, true, &[1, 9, 3, 8]), None);
}

#[test]
fn descriptor_sets_beyond_inline_capacity() {
    let mut c = StateCacher::new();
    let long: Vec<u64> = (0..20).collect();
    assert_eq!(compare_sets(&mut c, true, &long), Some(0));
    assert_eq!(compare_sets(&mut c, true, &long), None);
    let mut changed = long.clone();
    changed[15] = 1000;
    assert_eq!(compare_sets(&mut c, true, &changed), Some(15));
}

#[test]
fn invalidate_is_like_new() {
    let mut c = StateCacher::new();
    c.dynamic_state(full_state());
    c.bind_graphics_pipeline(1);
    c.bind_compute_pipeline(2);
    c.bind_index_buffer(3, 0, IndexType::U32);
    compare_sets(&mut c, true, &[10, 11]);
    compare_sets(&mut c, false, &[12]);
    c.invalidate();
    assert_eq!(c.bind_graphics_pipeline(1), StateCacherOutcome::NeedChange);
    assert_eq!(c.bind_compute_pipeline(2), StateCacherOutcome::NeedChange);
    assert_eq!(c.bind_index_buffer(3, 0, IndexType::U32), StateCacherOutcome::NeedChange);
    let out = c.dynamic_state(full_state());
    assert_eq!(out.line_width, Some(2.0f32.to_bits()));
    assert_eq!(out.viewports, Some(vec![viewport(800.0, 600.0)]));
    assert_eq!(out.scissors, Some(vec![scissor(800, 600), scissor(10, 10)]));
    assert_eq!(compare_sets(&mut c, true, &[10, 11]), Some(0));
    assert_eq!(compare_sets(&mut c, false, &[12]), Some(0));
}

#[test]
fn dynamic_state_delta_after_invalidate_is_whole_request() {
    let mut c = StateCacher::new();
    c.dynamic_state(full_state());
    c.invalidate();
    assert_eq!(c.dynamic_state(full_state()), full_state());
    assert_eq!(c.dynamic_state(full_state()), DynamicState::none());
}
