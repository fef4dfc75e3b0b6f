//! The renderer: the capacities of its upload buffers and its texture
//! registry.

use crate::buffers::frame_indices;
use crate::buffers::frame_vertices;
use crate::buffers::convert_vertices;
use crate::buffers::gather_indices;
use crate::buffers::grow_buffers;
use crate::buffers::write_buffers;
use crate::buffers::INDEX_BUF_ADD_CAPACITY;
use crate::buffers::VERTEX_BUF_ADD_CAPACITY;
use crate::device::DeviceOp;
use crate::device::Outcome;
use crate::device::RenderError;
use crate::draw::render_impl;
use crate::draw::scene_of;
use crate::draw_data::degenerate;
use crate::draw_data::DrawData;
use crate::frame::frame_script;
use crate::frame::prelude_ops;
use crate::pass::current_step;
use crate::pass::react;
use crate::pass::PassView;
use crate::pass::RenderPass;
use crate::pass::Step;
use crate::pipeline::set_render_state;
use crate::registry::empty_registry;
use crate::registry::entries;
use crate::registry::FONT_TEX_ID;
use imgui::BackendFlags;
use imgui::Context;
use imgui::TextureId;
use imgui::Textures;
use vstd::prelude::*;

verus! {

/// `imgui::Context`: the GUI context. Nothing is known of its inside.
#[verifier::external_type_specification]
#[verifier::external_body]
pub struct ExContext(Context);

/// The identifier under which a GUI context names the font atlas texture in
/// its draw commands: the `tex_id` of the atlas `imgui::Context::fonts` gives.
pub uninterp spec fn font_texture_id(ctx: Context) -> usize;

/// The backend flags of a GUI context, as bits: those of the `backend_flags`
/// that `imgui::Context::io` gives.
pub uninterp spec fn backend_flag_bits(ctx: Context) -> u32;

/// The renderer name a GUI context holds, if any: what
/// `imgui::Context::renderer_name` gives.
pub uninterp spec fn renderer_name_of(ctx: Context) -> Option<Seq<char>>;

/// The backend flag that says draws may start at a vertex offset:
/// `imgui::BackendFlags::RENDERER_HAS_VTX_OFFSET`, as bits.
pub const RENDERER_HAS_VTX_OFFSET: u32 = 8;

/// The name the renderer gives itself.
pub open spec fn renderer_name() -> Seq<char> {
    "imgui_dx9_renderer@0.1.0"@
}

/// `imgui::Context::fonts`, and the `tex_id` field of the atlas it gives:
/// stores the identifier under which the GUI names the font atlas texture in
/// its draw commands, and touches neither the backend flags nor the renderer
/// name.
#[verifier::external_body]
fn set_font_texture_id(ctx: &mut Context, id: usize)
    ensures
        font_texture_id(*final(ctx)) == id,
        backend_flag_bits(*final(ctx)) == backend_flag_bits(*old(ctx)),
        renderer_name_of(*final(ctx)) == renderer_name_of(*old(ctx)),
{
    ctx.fonts().tex_id = TextureId::new(id);
}

/// `imgui::Context::io_mut`, and `insert` on its backend flags: sets the bit
/// that tells the GUI that draws may start at a vertex offset, keeps every
/// other bit, and touches neither the font identifier nor the renderer name.
#[verifier::external_body]
fn advertise_vertex_offset(ctx: &mut Context)
    ensures
        backend_flag_bits(*final(ctx)) == backend_flag_bits(*old(ctx)) | RENDERER_HAS_VTX_OFFSET,
        font_texture_id(*final(ctx)) == font_texture_id(*old(ctx)),
        renderer_name_of(*final(ctx)) == renderer_name_of(*old(ctx)),
{
    ctx.io_mut().backend_flags.insert(BackendFlags::RENDERER_HAS_VTX_OFFSET);
}

/// `imgui::Context::set_renderer_name`: stores the name for the GUI to show,
/// or no name where the given one holds a zero character, and touches neither
/// the font identifier nor the backend flags.
#[verifier::external_body]
fn set_renderer_name(ctx: &mut Context, name: String)
    ensures
        renderer_name_of(*final(ctx)) == (if name@.contains('\0') {
            None
        } else {
            Some(name@)
        }),
        font_texture_id(*final(ctx)) == font_texture_id(*old(ctx)),
        backend_flag_bits(*final(ctx)) == backend_flag_bits(*old(ctx)),
{
    ctx.set_renderer_name(name);
}

/// The capacity a buffer has after the device answered `step`: that of the
/// new buffer where the step made one and succeeded, the old one otherwise.
pub open spec fn vertex_capacity_after(capacity: usize, step: Step, outcome: Outcome) -> usize {
    match (step, outcome) {
        (Step::Perform(DeviceOp::CreateVertexBuffer { capacity: grown, .. }), Outcome::Done) => grown,
        _ => capacity,
    }
}

/// The same for the index buffer.
pub open spec fn index_capacity_after(capacity: usize, step: Step, outcome: Outcome) -> usize {
    match (step, outcome) {
        (Step::Perform(DeviceOp::CreateIndexBuffer { capacity: grown, .. }), Outcome::Done) => grown,
        _ => capacity,
    }
}

/// A renderer of GUI frames for one device.
pub struct Renderer {
    vertex_capacity: usize,
    index_capacity: usize,
    textures: Textures<usize>,
}

impl Renderer {
    /// The number of vertices the vertex buffer has room for.
    pub closed spec fn vertex_room(&self) -> usize {
        self.vertex_capacity
    }

    /// The number of indices the index buffer has room for.
    pub closed spec fn index_room(&self) -> usize {
        self.index_capacity
    }

    /// The texture registry.
    pub closed spec fn registry(&self) -> Textures<usize> {
        self.textures
    }

    /// Creates a renderer for the GUI context: names the font atlas texture
    /// by the reserved identifier, tells the GUI that draws may start at a
    /// vertex offset, and stores the renderer's name. The renderer starts
    /// with buffers of the spare capacity alone and an empty registry.
    pub fn new(ctx: &mut Context) -> (renderer: Renderer)
        ensures
            font_texture_id(*final(ctx)) == FONT_TEX_ID,
            backend_flag_bits(*final(ctx)) == backend_flag_bits(*old(ctx))
                | RENDERER_HAS_VTX_OFFSET,
            renderer_name_of(*final(ctx)) == Some(renderer_name()),
            renderer.vertex_room() == VERTEX_BUF_ADD_CAPACITY,
            renderer.index_room() == INDEX_BUF_ADD_CAPACITY,
            entries(renderer.registry()).dom() == Set::<usize>::empty(),
    {
        set_font_texture_id(ctx, FONT_TEX_ID);
        advertise_vertex_offset(ctx);
        let name = "imgui_dx9_renderer@0.1.0".to_string();
        proof {
            reveal_strlit("imgui_dx9_renderer@0.1.0");
            assert(!name@.contains('\0'));
        }
        set_renderer_name(ctx, name);
        Renderer {
            vertex_capacity: VERTEX_BUF_ADD_CAPACITY,
            index_capacity: INDEX_BUF_ADD_CAPACITY,
            textures: empty_registry(),
        }
    }

    /// Creates a renderer for the GUI context, as `new` does.
    pub fn new_raw(im_ctx: &mut Context) -> (renderer: Renderer)
        ensures
            font_texture_id(*final(im_ctx)) == FONT_TEX_ID,
            backend_flag_bits(*final(im_ctx)) == backend_flag_bits(*old(im_ctx))
                | RENDERER_HAS_VTX_OFFSET,
            renderer_name_of(*final(im_ctx)) == Some(renderer_name()),
            renderer.vertex_room() == VERTEX_BUF_ADD_CAPACITY,
            renderer.index_room() == INDEX_BUF_ADD_CAPACITY,
            entries(renderer.registry()).dom() == Set::<usize>::empty(),
    {
        Renderer::new(im_ctx)
    }

    /// The texture registry, to change.
    ///
    /// The identifier `FONT_TEX_ID` is reserved for the font atlas: a texture
    /// stored under it is never used.
    pub fn textures_mut(&mut self) -> (textures: &mut Textures<usize>)
        ensures
            *textures == old(self).registry(),
            final(self).registry() == *final(textures),
            final(self).vertex_room() == old(self).vertex_room(),
            final(self).index_room() == old(self).index_room(),
    {
        &mut self.textures
    }

    /// The texture registry.
    pub fn textures(&self) -> (textures: &Textures<usize>)
        ensures
            *textures == self.registry(),
    {
        &self.textures
    }

    /// The number of vertices the vertex buffer has room for.
    pub fn vertex_capacity(&self) -> (capacity: usize)
        ensures
            capacity == self.vertex_room(),
    {
        self.vertex_capacity
    }

    /// The number of indices the index buffer has room for.
    pub fn index_capacity(&self) -> (capacity: usize)
        ensures
            capacity == self.index_room(),
    {
        self.index_capacity
    }

    /// Starts the rendering of a frame.
    ///
    /// The pass that comes back holds the frame's script: perform its steps
    /// in turn and report each outcome with `advance`. A frame whose display
    /// has a negative width or height is over at once, in success, with
    /// nothing asked of the device.
    pub fn render(&mut self, draw_data: &DrawData) -> (pass: RenderPass)
        ensures
            *final(self) == *old(self),
            degenerate(draw_data.placed()) ==> current_step(pass@) == Step::Finished(Ok(())),
            ({
                let script = frame_script(
                    old(self).vertex_room(),
                    old(self).index_room(),
                    scene_of(old(self).registry(), draw_data.placed()),
                    draw_data.lists(),
                );
                pass@ == (PassView {
                    pending: script.ops,
                    verdict: script.verdict,
                    captured: false,
                })
            }),
            pass.vertex_data() == if degenerate(draw_data.placed()) {
                Seq::empty()
            } else {
                frame_vertices(draw_data.lists())
            },
            pass.index_data() == if degenerate(draw_data.placed()) {
                Seq::empty()
            } else {
                frame_indices(draw_data.lists())
            },
    {
        if draw_data.is_degenerate() {
            return RenderPass::new(Vec::new(), Ok(()), Vec::new(), Vec::new());
        }
        let placement = draw_data.placement();
        let lists = draw_data.draw_lists();
        let vtx_count = draw_data.total_vtx_count();
        let idx_count = draw_data.total_idx_count();
        let mut ops: Vec<DeviceOp> = Vec::new();
        grow_buffers(&mut ops, self.vertex_capacity, self.index_capacity, vtx_count, idx_count);
        ops.push(DeviceOp::CaptureState);
        set_render_state(&mut ops, placement);
        write_buffers(&mut ops, vtx_count, idx_count);
        assert(ops@ =~= prelude_ops(
            self.vertex_capacity,
            self.index_capacity,
            scene_of(self.textures, placement),
            lists@,
        ));
        let resolved = render_impl(&mut ops, &self.textures, placement, lists);
        ops.push(DeviceOp::RestoreState);
        assert(ops@ =~= frame_script(
            self.vertex_capacity,
            self.index_capacity,
            scene_of(self.textures, placement),
            lists@,
        ).ops);
        let verdict = if resolved {
            Ok(())
        } else {
            Err(RenderError::InvalidTextureReference)
        };
        RenderPass::new(ops, verdict, convert_vertices(lists), gather_indices(lists))
    }

    /// Takes the device's answer to the step `pass` is at and gives the next
    /// step. A buffer the device made takes the place of the old one, so its
    /// capacity becomes the renderer's.
    pub fn advance(&mut self, pass: &mut RenderPass, outcome: Outcome) -> (step: Step)
        ensures
            final(pass)@ == react(old(pass)@, outcome),
            final(pass).vertex_data() == old(pass).vertex_data(),
            final(pass).index_data() == old(pass).index_data(),
            step == current_step(final(pass)@),
            final(self).vertex_room() == vertex_capacity_after(
                old(self).vertex_room(),
                current_step(old(pass)@),
                outcome,
            ),
            final(self).index_room() == index_capacity_after(
                old(self).index_room(),
                current_step(old(pass)@),
                outcome,
            ),
            final(self).registry() == old(self).registry(),
    {
        match (pass.current(), outcome) {
            (Step::Perform(DeviceOp::CreateVertexBuffer { capacity, .. }), Outcome::Done) => {
                self.vertex_capacity = capacity;
            },
            (Step::Perform(DeviceOp::CreateIndexBuffer { capacity, .. }), Outcome::Done) => {
                self.index_capacity = capacity;
            },
            _ => {},
        }
        pass.advance(outcome);
        pass.current()
    }
}

} // verus!
