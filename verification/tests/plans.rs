use particle_sim::{
    AppOptions, BindGroupSlot, BufferLayout, ComputeDispatch, ComputeStage, EntryPoint, GpuPlan,
    IMMEDIATES_SIZE, Immediates, PARTICLE_CAPACITY, ShaderSource, StorageAccess, TextureFormat, WORKGROUP_SIDE,
    WindowAction, WindowInput, WindowModel, encode_immediates, frame_dispatches, window_event,
};

fn options(dims: (u32, u32), num_cascades: u32) -> AppOptions {
    AppOptions { window_dimensions: dims, num_cascades }
}

fn cascade(d: &ComputeDispatch) -> u32 {
    d.immediates.expect("cascade pass carries immediates").cascade_index
}

#[test]
fn default_options_are_512_square_with_six_cascades() {
    let o = AppOptions::default();
    assert_eq!(o.window_dimensions, (512, 512));
    assert_eq!(o.num_cascades, 6);
}

#[test]
fn default_frame_generates_up_then_merges_down() {
    let o = AppOptions::default();
    let passes = frame_dispatches(&o, (100, 200));
    assert_eq!(passes.len(), 13);
    for k in 0..6 {
        assert!(matches!(passes[k].stage, ComputeStage::GenerateCascade));
        assert_eq!(cascade(&passes[k]), k as u32);
    }
    let merged: Vec<u32> = passes[6..11].iter().map(cascade).collect();
    assert_eq!(merged, vec![4, 3, 2, 1, 0]);
    for p in &passes[6..11] {
        assert!(matches!(p.stage, ComputeStage::MergeCascade));
    }
    assert!(matches!(passes[11].stage, ComputeStage::FinalGather));
    assert!(passes[11].immediates.is_none());
    assert!(matches!(passes[12].stage, ComputeStage::PostProcess));
    assert!(passes[12].immediates.is_none());
    for p in &passes {
        assert_eq!(p.workgroups, (64, 64, 1));
        if let Some(imm) = p.immediates {
            assert_eq!((imm.cursor_x, imm.cursor_y), (100, 200));
        }
    }
}

#[test]
fn single_cascade_frame_has_no_merge() {
    let passes = frame_dispatches(&options((17, 8), 1), (0, 0));
    assert_eq!(passes.len(), 3);
    assert!(matches!(passes[0].stage, ComputeStage::GenerateCascade));
    assert_eq!(cascade(&passes[0]), 0);
    assert!(matches!(passes[1].stage, ComputeStage::FinalGather));
    assert!(matches!(passes[2].stage, ComputeStage::PostProcess));
    // 17 / 8 = 2 whole tiles across, 8 / 8 = 1 down.
    assert_eq!(passes[0].workgroups, (2, 1, 1));
}

#[test]
fn small_targets_dispatch_no_workgroups() {
    let passes = frame_dispatches(&options((7, 0), 2), (3, 4));
    assert_eq!(passes.len(), 5);
    for p in &passes {
        assert_eq!(p.workgroups, (0, 0, 1));
    }
}

#[test]
fn immediates_are_three_little_endian_words() {
    let imm = Immediates { cascade_index: 5, cursor_x: 0x1234, cursor_y: 0xdead_beef };
    let bytes = encode_immediates(&imm);
    assert_eq!(bytes.len(), IMMEDIATES_SIZE as usize);
    assert_eq!(
        bytes,
        vec![5, 0, 0, 0, 0x34, 0x12, 0, 0, 0xef, 0xbe, 0xad, 0xde]
    );
    let mut expected = Vec::new();
    expected.extend_from_slice(&5u32.to_le_bytes());
    expected.extend_from_slice(&0x1234u32.to_le_bytes());
    expected.extend_from_slice(&0xdead_beefu32.to_le_bytes());
    assert_eq!(bytes, expected);
}

#[test]
fn immediates_decode_back() {
    let imm = Immediates { cascade_index: u32::MAX, cursor_x: 0, cursor_y: 511 };
    let bytes = encode_immediates(&imm);
    let word = |i: usize| u32::from_le_bytes([bytes[i], bytes[i + 1], bytes[i + 2], bytes[i + 3]]);
    assert_eq!(word(0), u32::MAX);
    assert_eq!(word(4), 0);
    assert_eq!(word(8), 511);
}

#[test]
fn close_request_exits_without_a_window() {
    let mut state: Option<WindowModel> = None;
    let action = window_event(&mut state, WindowInput::CloseRequested);
    assert!(matches!(action, WindowAction::Exit));
    assert!(state.is_none());
    let action = window_event(&mut state, WindowInput::Other);
    assert!(matches!(action, WindowAction::Nothing));
    assert!(state.is_none());
}

#[test]
fn new_window_starts_at_origin_and_configures_its_size() {
    let m = WindowModel::new(AppOptions::default(), (640, 480));
    assert_eq!(m.cursor, (0, 0));
    assert_eq!(m.size, (640, 480));
    let spec = m.surface_spec();
    assert_eq!((spec.width, spec.height, spec.desired_maximum_frame_latency), (640, 480, 1));
}

#[test]
fn cursor_moves_reach_the_next_frame() {
    let mut state = Some(WindowModel::new(AppOptions::default(), (512, 512)));
    let action = window_event(&mut state, WindowInput::CursorMoved { x: 10, y: 20 });
    assert!(matches!(action, WindowAction::Nothing));
    assert_eq!(state.unwrap().cursor, (10, 20));
    match window_event(&mut state, WindowInput::RedrawRequested) {
        WindowAction::Render(passes) => {
            assert_eq!(passes.len(), 13);
            for p in passes.iter().filter(|p| p.immediates.is_some()) {
                let imm = p.immediates.unwrap();
                assert_eq!((imm.cursor_x, imm.cursor_y), (10, 20));
            }
        }
        _ => panic!("a redraw renders"),
    }
    assert_eq!(state.unwrap().cursor, (10, 20));
}

#[test]
fn resize_reconfigures_but_keeps_the_frame() {
    let mut state = Some(WindowModel::new(AppOptions::default(), (512, 512)));
    let before = match window_event(&mut state, WindowInput::RedrawRequested) {
        WindowAction::Render(p) => p,
        _ => panic!("a redraw renders"),
    };
    match window_event(&mut state, WindowInput::Resized { width: 800, height: 600 }) {
        WindowAction::Reconfigure(spec) => {
            assert_eq!((spec.width, spec.height, spec.desired_maximum_frame_latency), (800, 600, 1));
        }
        _ => panic!("a resize reconfigures"),
    }
    assert_eq!(state.unwrap().size, (800, 600));
    let after = match window_event(&mut state, WindowInput::RedrawRequested) {
        WindowAction::Render(p) => p,
        _ => panic!("a redraw renders"),
    };
    assert_eq!(before.len(), after.len());
    for (a, b) in before.iter().zip(after.iter()) {
        assert_eq!(a.workgroups, b.workgroups);
        assert_eq!(a.workgroups, (64, 64, 1));
    }
}

#[test]
fn model_resize_returns_matching_surface() {
    let mut m = WindowModel::new(AppOptions::default(), (1, 2));
    let spec = m.resize((3, 4));
    assert_eq!(m.size, (3, 4));
    assert_eq!((spec.width, spec.height), (3, 4));
}

#[test]
fn buffer_with_data_is_sized_by_its_elements() {
    let b = BufferLayout::create_with_data(2, 32, 32);
    assert_eq!(b.binding, 2);
    assert_eq!(b.size, 1024);
    assert_eq!(b.min_binding_size, Some(32));
    let z = BufferLayout::create_with_data(0, 0, 10);
    assert_eq!(z.size, 0);
    assert_eq!(z.min_binding_size, None);
    let plain = BufferLayout::create(1, 4096);
    assert_eq!((plain.binding, plain.size, plain.min_binding_size), (1, 4096, None));
}

#[test]
fn gpu_plan_for_default_options() {
    let o = AppOptions::default();
    let plan = GpuPlan::new(o.window_dimensions, o.num_cascades);
    assert_eq!((plan.cascade_texture.width, plan.cascade_texture.height), (512, 512));
    assert!(matches!(plan.cascade_texture.format, TextureFormat::Rgba32Float));
    assert!(matches!(plan.post_process_texture.format, TextureFormat::Rgba16Unorm));
    assert_eq!(plan.cascade_count, 6);
    assert_eq!(plan.cascade_array_count, Some(6));
    assert_eq!(plan.cascade_binding.binding, 0);
    assert!(matches!(plan.cascade_binding.access, StorageAccess::ReadWrite));
    assert_eq!(plan.post_process_binding.binding, 1);
    assert!(matches!(plan.post_process_binding.access, StorageAccess::WriteOnly));
    assert_eq!(PARTICLE_CAPACITY, 32);
    assert_eq!(plan.rc_pipeline.immediate_size, 12);
    assert_eq!(plan.merge_pipeline.immediate_size, 12);
    assert_eq!(plan.final_pipeline.immediate_size, 0);
    assert_eq!(plan.pp_pipeline.immediate_size, 0);
    assert!(matches!(
        plan.rc_pipeline.bind_groups.as_slice(),
        [BindGroupSlot::Cascades, BindGroupSlot::World]
    ));
    assert!(matches!(plan.pp_pipeline.bind_groups.as_slice(), [BindGroupSlot::PostProcess]));
    assert!(matches!(plan.pp_pipeline.source, ShaderSource::PostProcess));
    assert!(matches!(plan.final_pipeline.source, ShaderSource::RadianceCascades));
}

#[test]
fn gpu_plan_without_cascades_has_no_array_count() {
    let plan = GpuPlan::new((8, 8), 0);
    assert_eq!(plan.cascade_count, 0);
    assert_eq!(plan.cascade_array_count, None);
}

#[test]
fn entry_points_and_pipelines_per_stage() {
    assert_eq!(EntryPoint::GenCascades.name(), "gen_cascades");
    assert_eq!(EntryPoint::MergeCascades.name(), "merge_cascades");
    assert_eq!(EntryPoint::FinalPass.name(), "final_pass");
    assert_eq!(EntryPoint::Main.name(), "main");
    let plan = GpuPlan::new((64, 64), 3);
    assert_eq!(plan.pipeline_for(ComputeStage::GenerateCascade).entry_point.name(), "gen_cascades");
    assert_eq!(plan.pipeline_for(ComputeStage::MergeCascade).entry_point.name(), "merge_cascades");
    assert_eq!(plan.pipeline_for(ComputeStage::FinalGather).entry_point.name(), "final_pass");
    assert_eq!(plan.pipeline_for(ComputeStage::PostProcess).entry_point.name(), "main");
}

#[test]
fn frames_fit_their_resources() {
    let o = options((100, 36), 4);
    let plan = GpuPlan::new(o.window_dimensions, o.num_cascades);
    for p in frame_dispatches(&o, (5, 6)) {
        let pipeline = plan.pipeline_for(p.stage);
        match p.immediates {
            Some(imm) => {
                assert_eq!(encode_immediates(&imm).len(), pipeline.immediate_size as usize);
                assert!(imm.cascade_index < plan.cascade_count);
            }
            None => assert_eq!(pipeline.immediate_size, 0),
        }
        assert!(WORKGROUP_SIDE * p.workgroups.0 <= plan.cascade_texture.width);
        assert!(WORKGROUP_SIDE * p.workgroups.1 <= plan.post_process_texture.height);
    }
}

#[test]
fn events_never_change_the_options() {
    let o = options((256, 128), 3);
    let mut state = Some(WindowModel::new(o, (256, 128)));
    let events = [
        WindowInput::CursorMoved { x: 1, y: 2 },
        WindowInput::Resized { width: 10, height: 20 },
        WindowInput::RedrawRequested,
        WindowInput::Other,
        WindowInput::CloseRequested,
    ];
    for e in events {
        let _ = window_event(&mut state, e);
        let m = state.unwrap();
        assert_eq!(m.options.window_dimensions, (256, 128));
        assert_eq!(m.options.num_cascades, 3);
    }
    let m = state.unwrap();
    assert_eq!(m.cursor, (1, 2));
    assert_eq!(m.size, (10, 20));
}
