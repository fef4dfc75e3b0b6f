use imgui::Context;
use imgui_dx9_renderer::device::DeviceOp;
use imgui_dx9_renderer::device::Outcome;
use imgui_dx9_renderer::device::RenderError;
use imgui_dx9_renderer::draw_data::DrawCmd;
use imgui_dx9_renderer::draw_data::DrawData;
use imgui_dx9_renderer::draw_data::DrawList;
use imgui_dx9_renderer::draw_data::Placement;
use imgui_dx9_renderer::pass::RenderPass;
use imgui_dx9_renderer::pass::Step;
use imgui_dx9_renderer::registry::FONT_TEX_ID;
use imgui_dx9_renderer::renderer::Renderer;
use imgui_dx9_renderer::vertex::DrawVert;

fn data_with(vertices: usize, indices: usize) -> DrawData {
    let vertex = DrawVert { pos: [0, 0], uv: [0, 0], col: [1, 2, 3, 4] };
    let list = DrawList {
        vtx_buffer: vec![vertex; vertices],
        idx_buffer: vec![0; indices],
        commands: vec![DrawCmd::Elements { count: indices, clip_rect: [0; 4], texture_id: FONT_TEX_ID }],
    };
    let placement = Placement {
        display_pos: [0, 0],
        display_size: [64.0f32.to_bits(), 64.0f32.to_bits()],
        framebuffer_scale: [1.0f32.to_bits(), 1.0f32.to_bits()],
    };
    DrawData::new(placement, vec![list]).unwrap()
}

fn run(
    renderer: &mut Renderer,
    data: &DrawData,
    refuse: &dyn Fn(&DeviceOp) -> Option<i32>,
) -> (Vec<DeviceOp>, Result<(), RenderError>) {
    let mut pass = renderer.render(data);
    let mut asked = Vec::new();
    loop {
        match pass.current() {
            Step::Finished(result) => return (asked, result),
            Step::Perform(op) => {
                asked.push(op);
                let outcome = match refuse(&op) {
                    Some(code) => Outcome::Failed(code),
                    None => Outcome::Done,
                };
                renderer.advance(&mut pass, outcome);
            },
        }
    }
}

#[test]
fn small_frame_grows_no_buffer() {
    let mut ctx = Context::create();
    let mut renderer = Renderer::new(&mut ctx);
    let (ops, result) = run(&mut renderer, &data_with(5000, 10000), &|_| None);
    assert_eq!(result, Ok(()));
    assert_eq!(ops[0], DeviceOp::CaptureState);
    assert!(!ops.iter().any(|op| matches!(
        op,
        DeviceOp::CreateVertexBuffer { .. } | DeviceOp::CreateIndexBuffer { .. }
    )));
    assert_eq!(renderer.vertex_capacity(), 5000);
    assert_eq!(renderer.index_capacity(), 10000);
}

#[test]
fn large_frame_grows_buffers_by_the_margin() {
    let mut ctx = Context::create();
    let mut renderer = Renderer::new(&mut ctx);
    let (ops, result) = run(&mut renderer, &data_with(5001, 10001), &|_| None);
    assert_eq!(result, Ok(()));
    assert_eq!(ops[0], DeviceOp::CreateVertexBuffer { capacity: 10001, length: 240024 });
    assert_eq!(ops[1], DeviceOp::CreateIndexBuffer { capacity: 20001, length: 40002 });
    assert_eq!(ops[2], DeviceOp::CaptureState);
    assert_eq!(renderer.vertex_capacity(), 10001);
    assert_eq!(renderer.index_capacity(), 20001);
    let (ops, _) = run(&mut renderer, &data_with(10001, 20001), &|_| None);
    assert_eq!(ops[0], DeviceOp::CaptureState);
    assert_eq!(renderer.vertex_capacity(), 10001);
    let (ops, _) = run(&mut renderer, &data_with(10, 20002), &|_| None);
    assert_eq!(ops[0], DeviceOp::CreateIndexBuffer { capacity: 30002, length: 60004 });
    assert_eq!(renderer.vertex_capacity(), 10001);
    assert_eq!(renderer.index_capacity(), 30002);
}

#[test]
fn refused_buffer_keeps_the_old_capacity_and_ends_the_frame() {
    let mut ctx = Context::create();
    let mut renderer = Renderer::new(&mut ctx);
    let refuse = |op: &DeviceOp| match op {
        DeviceOp::CreateIndexBuffer { .. } => Some(-5),
        _ => None,
    };
    let (ops, result) = run(&mut renderer, &data_with(6000, 12000), &refuse);
    assert_eq!(result, Err(RenderError::Device(-5)));
    assert_eq!(
        ops,
        vec![
            DeviceOp::CreateVertexBuffer { capacity: 11000, length: 264000 },
            DeviceOp::CreateIndexBuffer { capacity: 22000, length: 44000 },
        ]
    );
    assert_eq!(renderer.vertex_capacity(), 11000);
    assert_eq!(renderer.index_capacity(), 10000);
}

#[test]
fn refused_capture_ends_the_frame_without_restore() {
    let mut ctx = Context::create();
    let mut renderer = Renderer::new(&mut ctx);
    let refuse = |op: &DeviceOp| match op {
        DeviceOp::CaptureState => Some(9),
        _ => None,
    };
    let (ops, result) = run(&mut renderer, &data_with(3, 3), &refuse);
    assert_eq!(result, Err(RenderError::Device(9)));
    assert_eq!(ops, vec![DeviceOp::CaptureState]);
}

#[test]
fn failure_after_capture_restores_the_state() {
    let mut ctx = Context::create();
    let mut renderer = Renderer::new(&mut ctx);
    let refuse = |op: &DeviceOp| match op {
        DeviceOp::DrawIndexedPrimitive { .. } => Some(-2005530516),
        _ => None,
    };
    let (ops, result) = run(&mut renderer, &data_with(3, 3), &refuse);
    assert_eq!(result, Err(RenderError::Device(-2005530516)));
    assert_eq!(ops.len(), 1 + 36 + 8 + 1 + 2 + 1);
    assert!(matches!(ops[47], DeviceOp::DrawIndexedPrimitive { .. }));
    assert_eq!(ops[48], DeviceOp::RestoreState);
    let refuse = |op: &DeviceOp| match op {
        DeviceOp::SetViewport { .. } => Some(1),
        _ => None,
    };
    let (ops, result) = run(&mut renderer, &data_with(3, 3), &refuse);
    assert_eq!(result, Err(RenderError::Device(1)));
    assert_eq!(ops.len(), 3);
    assert_eq!(ops[2], DeviceOp::RestoreState);
}

#[test]
fn refused_index_lock_unlocks_the_vertex_buffer_first() {
    let mut ctx = Context::create();
    let mut renderer = Renderer::new(&mut ctx);
    let refuse = |op: &DeviceOp| match op {
        DeviceOp::LockIndexBuffer { .. } => Some(4),
        _ => None,
    };
    let (ops, result) = run(&mut renderer, &data_with(3, 3), &refuse);
    assert_eq!(result, Err(RenderError::Device(4)));
    assert_eq!(
        &ops[37..],
        &[
            DeviceOp::LockVertexBuffer { length: 72 },
            DeviceOp::LockIndexBuffer { length: 6 },
            DeviceOp::UnlockVertexBuffer,
            DeviceOp::RestoreState,
        ]
    );
    let refuse = |op: &DeviceOp| match op {
        DeviceOp::LockIndexBuffer { .. } => Some(4),
        DeviceOp::UnlockVertexBuffer => Some(6),
        _ => None,
    };
    let (ops, result) = run(&mut renderer, &data_with(3, 3), &refuse);
    assert_eq!(result, Err(RenderError::Device(6)));
    assert_eq!(ops.last(), Some(&DeviceOp::RestoreState));
    assert_eq!(ops.len(), 41);
}

#[test]
fn refused_restore_is_reported_unless_the_frame_failed_before() {
    let mut pass = RenderPass::new(
        vec![DeviceOp::CaptureState, DeviceOp::RestoreState],
        Ok(()),
        Vec::new(),
        Vec::new(),
    );
    pass.advance(Outcome::Done);
    assert_eq!(pass.current(), Step::Perform(DeviceOp::RestoreState));
    pass.advance(Outcome::Failed(3));
    assert_eq!(pass.current(), Step::Finished(Err(RenderError::Device(3))));
    pass.advance(Outcome::Done);
    assert_eq!(pass.current(), Step::Finished(Err(RenderError::Device(3))));

    let mut pass = RenderPass::new(
        vec![DeviceOp::CaptureState, DeviceOp::RestoreState],
        Err(RenderError::InvalidTextureReference),
        Vec::new(),
        Vec::new(),
    );
    pass.advance(Outcome::Done);
    pass.advance(Outcome::Failed(3));
    assert_eq!(pass.current(), Step::Finished(Err(RenderError::InvalidTextureReference)));
}

#[test]
fn device_failure_takes_precedence_over_a_later_unknown_texture() {
    let mut ctx = Context::create();
    let mut renderer = Renderer::new(&mut ctx);
    let vertex = DrawVert { pos: [0, 0], uv: [0, 0], col: [0; 4] };
    let list = DrawList {
        vtx_buffer: vec![vertex; 3],
        idx_buffer: vec![0, 1, 2],
        commands: vec![DrawCmd::Elements { count: 3, clip_rect: [0; 4], texture_id: 12 }],
    };
    let placement = Placement {
        display_pos: [0, 0],
        display_size: [0, 0],
        framebuffer_scale: [0, 0],
    };
    let data = DrawData::new(placement, vec![list]).unwrap();
    let (_, result) = run(&mut renderer, &data, &|_| None);
    assert_eq!(result, Err(RenderError::InvalidTextureReference));
    let refuse = |op: &DeviceOp| match op {
        DeviceOp::SetIndices => Some(2),
        _ => None,
    };
    let (ops, result) = run(&mut renderer, &data, &refuse);
    assert_eq!(result, Err(RenderError::Device(2)));
    assert_eq!(ops.last(), Some(&DeviceOp::RestoreState));
}

#[test]
fn state_is_restored_wherever_the_device_fails() {
    let mut ctx = Context::create();
    let mut renderer = Renderer::new(&mut ctx);
    let data = data_with(6000, 3);
    let (script, result) = run(&mut Renderer::new_raw(&mut ctx), &data, &|_| None);
    assert_eq!(result, Ok(()));
    let capture = script.iter().position(|op| *op == DeviceOp::CaptureState).unwrap();
    assert_eq!(capture, 1);
    for failing in 0..script.len() - 1 {
        let mut renderer = Renderer::new(&mut ctx);
        let mut pass = renderer.render(&data);
        let mut asked = Vec::new();
        let result = loop {
            match pass.current() {
                Step::Finished(result) => break result,
                Step::Perform(op) => {
                    asked.push(op);
                    let outcome = if asked.len() == failing + 1 {
                        Outcome::Failed(77)
                    } else {
                        Outcome::Done
                    };
                    renderer.advance(&mut pass, outcome);
                },
            }
        };
        assert_eq!(result, Err(RenderError::Device(77)), "failing at {failing}");
        assert_eq!(&asked[..failing + 1], &script[..failing + 1]);
        let restores = asked.iter().filter(|op| **op == DeviceOp::RestoreState).count();
        if failing <= capture {
            assert_eq!(asked.len(), failing + 1);
            assert_eq!(restores, 0);
        } else {
            assert_eq!(asked.last(), Some(&DeviceOp::RestoreState));
            assert_eq!(restores, 1);
            assert!(asked.len() <= failing + 3);
        }
    }
    assert_eq!(renderer.vertex_capacity(), 5000);
}
