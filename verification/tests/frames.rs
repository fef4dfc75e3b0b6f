use imgui::Context;
use imgui::TextureId;
use imgui_dx9_renderer::device::DeviceOp;
use imgui_dx9_renderer::device::Outcome;
use imgui_dx9_renderer::device::RenderError;
use imgui_dx9_renderer::draw_data::DrawCmd;
use imgui_dx9_renderer::draw_data::DrawData;
use imgui_dx9_renderer::draw_data::DrawList;
use imgui_dx9_renderer::draw_data::Placement;
use imgui_dx9_renderer::pass::Step;
use imgui_dx9_renderer::registry::TextureSource;
use imgui_dx9_renderer::registry::FONT_TEX_ID;
use imgui_dx9_renderer::renderer::Renderer;
use imgui_dx9_renderer::vertex::CustomVertex;
use imgui_dx9_renderer::vertex::DrawVert;

fn bits(values: [f32; 2]) -> [u32; 2] {
    [values[0].to_bits(), values[1].to_bits()]
}

fn clip(values: [f32; 4]) -> [u32; 4] {
    [values[0].to_bits(), values[1].to_bits(), values[2].to_bits(), values[3].to_bits()]
}

fn placement(size: [f32; 2]) -> Placement {
    Placement {
        display_pos: bits([0.0, 0.0]),
        display_size: bits(size),
        framebuffer_scale: bits([1.0, 1.0]),
    }
}

fn vertex(x: f32, y: f32) -> DrawVert {
    DrawVert { pos: bits([x, y]), uv: bits([0.25, 0.75]), col: [10, 20, 30, 40] }
}

fn quad(texture_id: usize) -> DrawList {
    DrawList {
        vtx_buffer: vec![vertex(0.0, 0.0), vertex(1.0, 0.0), vertex(1.0, 1.0), vertex(0.0, 1.0)],
        idx_buffer: vec![0, 1, 2, 0, 2, 3],
        commands: vec![DrawCmd::Elements {
            count: 6,
            clip_rect: clip([10.0, 10.0, 50.0, 50.0]),
            texture_id,
        }],
    }
}

fn frame(lists: Vec<DrawList>) -> DrawData {
    DrawData::new(placement([800.0, 600.0]), lists).unwrap()
}

/// Performs a pass against a device that refuses the operations `refuse`
/// picks, and gives what was asked of it with the frame's result.
fn perform(
    renderer: &mut Renderer,
    data: &DrawData,
    refuse: &dyn Fn(usize, &DeviceOp) -> Option<i32>,
) -> (Vec<DeviceOp>, Result<(), RenderError>) {
    let mut pass = renderer.render(data);
    let mut asked = Vec::new();
    let mut step = pass.current();
    loop {
        match step {
            Step::Finished(result) => return (asked, result),
            Step::Perform(op) => {
                let outcome = match refuse(asked.len(), &op) {
                    Some(code) => Outcome::Failed(code),
                    None => Outcome::Done,
                };
                asked.push(op);
                step = renderer.advance(&mut pass, outcome);
            },
        }
    }
}

fn willing(_: usize, _: &DeviceOp) -> Option<i32> {
    None
}

fn draws(ops: &[DeviceOp]) -> Vec<DeviceOp> {
    ops.iter().filter(|op| matches!(op, DeviceOp::DrawIndexedPrimitive { .. })).copied().collect()
}

fn bindings(ops: &[DeviceOp]) -> Vec<TextureSource> {
    let mut found = Vec::new();
    for op in ops {
        if let DeviceOp::SetTexture { source } = op {
            found.push(*source);
        }
    }
    found
}

#[test]
fn single_quad_with_font_texture_draws_once() {
    let mut ctx = Context::create();
    let mut renderer = Renderer::new(&mut ctx);
    let data = frame(vec![quad(FONT_TEX_ID)]);
    let (ops, result) = perform(&mut renderer, &data, &willing);
    assert_eq!(result, Ok(()));
    assert_eq!(
        draws(&ops),
        vec![DeviceOp::DrawIndexedPrimitive {
            base_vertex: 0,
            vertex_count: 4,
            start_index: 0,
            primitive_count: 2,
        }]
    );
    assert_eq!(bindings(&ops), vec![TextureSource::FontAtlas]);
}

#[test]
fn frame_is_capture_setup_upload_draw_restore() {
    let mut ctx = Context::create();
    let mut renderer = Renderer::new(&mut ctx);
    let data = frame(vec![quad(FONT_TEX_ID)]);
    let (ops, result) = perform(&mut renderer, &data, &willing);
    assert_eq!(result, Ok(()));
    assert_eq!(ops.len(), 1 + 36 + 8 + 1 + 2 + 1);
    assert_eq!(ops[0], DeviceOp::CaptureState);
    assert_eq!(
        ops[1],
        DeviceOp::SetViewport {
            display_size: bits([800.0, 600.0]),
            framebuffer_scale: bits([1.0, 1.0]),
        }
    );
    assert_eq!(
        &ops[37..45],
        &[
            DeviceOp::LockVertexBuffer { length: 96 },
            DeviceOp::LockIndexBuffer { length: 12 },
            DeviceOp::FillBuffers,
            DeviceOp::UnlockVertexBuffer,
            DeviceOp::UnlockIndexBuffer,
            DeviceOp::SetStreamSource { stride: 24 },
            DeviceOp::SetIndices,
            DeviceOp::SetVertexFormat,
        ]
    );
    assert_eq!(ops[45], DeviceOp::SetTexture { source: TextureSource::FontAtlas });
    assert_eq!(
        ops[46],
        DeviceOp::SetScissorRect {
            clip_rect: clip([10.0, 10.0, 50.0, 50.0]),
            display_pos: bits([0.0, 0.0]),
            framebuffer_scale: bits([1.0, 1.0]),
        }
    );
    assert_eq!(ops[48], DeviceOp::RestoreState);
}

#[test]
fn negative_display_size_asks_nothing_of_the_device() {
    let mut ctx = Context::create();
    let mut renderer = Renderer::new(&mut ctx);
    let data = DrawData::new(placement([-1.0, 600.0]), vec![quad(FONT_TEX_ID)]).unwrap();
    let pass = renderer.render(&data);
    assert_eq!(pass.current(), Step::Finished(Ok(())));
    assert!(pass.vertices().is_empty());
    let data = DrawData::new(placement([800.0, -0.5]), vec![quad(7)]).unwrap();
    let (ops, result) = perform(&mut renderer, &data, &willing);
    assert!(ops.is_empty());
    assert_eq!(result, Ok(()));
}

#[test]
fn zero_display_size_is_drawn() {
    let mut ctx = Context::create();
    let mut renderer = Renderer::new(&mut ctx);
    let data = DrawData::new(placement([0.0, -0.0]), vec![quad(FONT_TEX_ID)]).unwrap();
    let (ops, result) = perform(&mut renderer, &data, &willing);
    assert_eq!(result, Ok(()));
    assert_eq!(draws(&ops).len(), 1);
}

#[test]
fn unknown_texture_ends_the_frame_without_further_draws() {
    let mut ctx = Context::create();
    let mut renderer = Renderer::new(&mut ctx);
    let data = frame(vec![quad(FONT_TEX_ID), quad(5), quad(FONT_TEX_ID)]);
    let (ops, result) = perform(&mut renderer, &data, &willing);
    assert_eq!(result, Err(RenderError::InvalidTextureReference));
    assert_eq!(
        draws(&ops),
        vec![DeviceOp::DrawIndexedPrimitive {
            base_vertex: 0,
            vertex_count: 4,
            start_index: 0,
            primitive_count: 2,
        }]
    );
    assert_eq!(bindings(&ops), vec![TextureSource::FontAtlas]);
    assert_eq!(ops.last(), Some(&DeviceOp::RestoreState));
    assert_eq!(ops.iter().filter(|op| **op == DeviceOp::RestoreState).count(), 1);
}

#[test]
fn registered_texture_is_bound_by_its_handle() {
    let mut ctx = Context::create();
    let mut renderer = Renderer::new(&mut ctx);
    let first = renderer.textures_mut().insert(77);
    let second = renderer.textures_mut().insert(88);
    assert_eq!(renderer.textures().get(second), Some(&88));
    let data = frame(vec![quad(second.id()), quad(first.id())]);
    let (ops, result) = perform(&mut renderer, &data, &willing);
    assert_eq!(result, Ok(()));
    assert_eq!(
        bindings(&ops),
        vec![
            TextureSource::FontAtlas,
            TextureSource::Registered { id: second.id(), handle: 88 },
            TextureSource::Registered { id: first.id(), handle: 77 },
        ]
    );
    renderer.textures_mut().remove(first);
    let (_, result) = perform(&mut renderer, &data, &willing);
    assert_eq!(result, Err(RenderError::InvalidTextureReference));
}

#[test]
fn font_identifier_ignores_the_registry() {
    let mut ctx = Context::create();
    let mut renderer = Renderer::new(&mut ctx);
    let other = renderer.textures_mut().insert(77);
    renderer.textures_mut().replace(TextureId::new(FONT_TEX_ID), 99);
    let data = frame(vec![quad(other.id()), quad(FONT_TEX_ID)]);
    let (ops, result) = perform(&mut renderer, &data, &willing);
    assert_eq!(result, Ok(()));
    assert_eq!(
        bindings(&ops),
        vec![
            TextureSource::FontAtlas,
            TextureSource::Registered { id: other.id(), handle: 77 },
            TextureSource::FontAtlas,
        ]
    );
}

#[test]
fn texture_is_bound_only_when_it_changes() {
    let mut ctx = Context::create();
    let mut renderer = Renderer::new(&mut ctx);
    let id = renderer.textures_mut().insert(5).id();
    let data = frame(vec![quad(id), quad(id), quad(FONT_TEX_ID), quad(FONT_TEX_ID)]);
    let (ops, _) = perform(&mut renderer, &data, &willing);
    assert_eq!(
        bindings(&ops),
        vec![
            TextureSource::FontAtlas,
            TextureSource::Registered { id, handle: 5 },
            TextureSource::FontAtlas,
        ]
    );
    assert_eq!(draws(&ops).len(), 4);
}

#[test]
fn index_offset_runs_through_the_frame_and_base_vertex_through_lists() {
    let mut ctx = Context::create();
    let mut renderer = Renderer::new(&mut ctx);
    let mut first = quad(FONT_TEX_ID);
    first.commands = vec![
        DrawCmd::Elements { count: 3, clip_rect: clip([0.0, 0.0, 1.0, 1.0]), texture_id: FONT_TEX_ID },
        DrawCmd::Elements { count: 4, clip_rect: clip([0.0, 0.0, 1.0, 1.0]), texture_id: FONT_TEX_ID },
    ];
    let data = frame(vec![first, quad(FONT_TEX_ID)]);
    let (ops, result) = perform(&mut renderer, &data, &willing);
    assert_eq!(result, Ok(()));
    assert_eq!(
        draws(&ops),
        vec![
            DeviceOp::DrawIndexedPrimitive {
                base_vertex: 0,
                vertex_count: 4,
                start_index: 0,
                primitive_count: 1,
            },
            DeviceOp::DrawIndexedPrimitive {
                base_vertex: 0,
                vertex_count: 4,
                start_index: 3,
                primitive_count: 1,
            },
            DeviceOp::DrawIndexedPrimitive {
                base_vertex: 4,
                vertex_count: 4,
                start_index: 7,
                primitive_count: 2,
            },
        ]
    );
}

#[test]
fn reset_and_callback_commands() {
    let mut ctx = Context::create();
    let mut renderer = Renderer::new(&mut ctx);
    let mut list = quad(FONT_TEX_ID);
    list.commands = vec![DrawCmd::RawCallback, DrawCmd::ResetRenderState, DrawCmd::RawCallback];
    let data = frame(vec![quad(FONT_TEX_ID), list]);
    let (ops, result) = perform(&mut renderer, &data, &willing);
    assert_eq!(result, Ok(()));
    let tail = &ops[48..];
    assert_eq!(tail.len(), 1 + 36 + 1 + 1);
    assert_eq!(tail[0], DeviceOp::InvokeCallback { list: 1, command: 0 });
    assert_eq!(&tail[1..37], &ops[1..37]);
    assert_eq!(tail[37], DeviceOp::InvokeCallback { list: 1, command: 2 });
    assert_eq!(tail[38], DeviceOp::RestoreState);
}

#[test]
fn pass_carries_the_converted_geometry() {
    let mut ctx = Context::create();
    let mut renderer = Renderer::new(&mut ctx);
    let mut second = quad(FONT_TEX_ID);
    second.idx_buffer = vec![3, 2, 1];
    let data = frame(vec![quad(FONT_TEX_ID), second]);
    let pass = renderer.render(&data);
    assert_eq!(pass.vertices().len(), 8);
    assert_eq!(
        pass.vertices()[6],
        CustomVertex {
            pos: [1.0f32.to_bits(), 1.0f32.to_bits(), 0.0f32.to_bits()],
            col: [30, 20, 10, 40],
            uv: bits([0.25, 0.75]),
        }
    );
    assert_eq!(pass.indices(), &vec![0, 1, 2, 0, 2, 3, 3, 2, 1]);
}

#[test]
fn empty_frame_still_sets_up_and_restores() {
    let mut ctx = Context::create();
    let mut renderer = Renderer::new(&mut ctx);
    let data = frame(Vec::new());
    let (ops, result) = perform(&mut renderer, &data, &willing);
    assert_eq!(result, Ok(()));
    assert_eq!(ops.len(), 1 + 36 + 8 + 1 + 1);
    assert_eq!(ops[37], DeviceOp::LockVertexBuffer { length: 0 });
    assert!(draws(&ops).is_empty());
}

#[test]
fn totals_beyond_the_device_are_refused() {
    let mut list = quad(FONT_TEX_ID);
    list.commands = vec![
        DrawCmd::Elements { count: 0xffff_ffff, clip_rect: [0; 4], texture_id: FONT_TEX_ID },
        DrawCmd::Elements { count: 1, clip_rect: [0; 4], texture_id: FONT_TEX_ID },
    ];
    assert!(DrawData::new(placement([1.0, 1.0]), vec![list]).is_none());
    let mut list = quad(FONT_TEX_ID);
    list.commands =
        vec![DrawCmd::Elements { count: 0xffff_ffff, clip_rect: [0; 4], texture_id: FONT_TEX_ID }];
    let data = DrawData::new(placement([1.0, 1.0]), vec![list]).unwrap();
    assert_eq!(data.total_vtx_count(), 4);
    assert_eq!(data.total_idx_count(), 6);
    assert_eq!(data.draw_lists().len(), 1);
    assert_eq!(data.placement(), placement([1.0, 1.0]));
    assert!(!data.is_degenerate());
}
