//! The operations the renderer asks of the graphics device, as plain values.

use crate::registry::TextureSource;
use vstd::prelude::*;

verus! {

/// The size in bytes of one device vertex: three position numbers, a packed
/// colour, two texture coordinates.
pub const VERTEX_SIZE: u32 = 24;

/// The size in bytes of one index.
pub const INDEX_SIZE: u32 = 2;

/// A fixed-function render state.
#[derive(Clone, Copy, Debug, PartialEq, Eq)]
pub enum RenderState {
    FillMode,
    ShadeMode,
    ZWriteEnable,
    AlphaTestEnable,
    CullMode,
    ZEnable,
    AlphaBlendEnable,
    BlendOp,
    SrcBlend,
    DestBlend,
    SeparateAlphaBlendEnable,
    SrcBlendAlpha,
    DestBlendAlpha,
    ScissorTestEnable,
    FogEnable,
    RangeFogEnable,
    SpecularEnable,
    StencilEnable,
    Clipping,
    Lighting,
}

/// The value a render state is set to.
#[derive(Clone, Copy, Debug, PartialEq, Eq)]
pub enum StateValue {
    Off,
    On,
    FillSolid,
    ShadeGouraud,
    CullNone,
    BlendOpAdd,
    BlendOne,
    BlendSrcAlpha,
    BlendInvSrcAlpha,
}

/// A state of a texture stage.
#[derive(Clone, Copy, Debug, PartialEq, Eq)]
pub enum StageState {
    ColorOp,
    ColorArg1,
    ColorArg2,
    AlphaOp,
    AlphaArg1,
    AlphaArg2,
}

/// The value a texture stage state is set to.
#[derive(Clone, Copy, Debug, PartialEq, Eq)]
pub enum StageValue {
    Disable,
    Modulate,
    Texture,
    Diffuse,
}

/// A filter of a texture sampler.
#[derive(Clone, Copy, Debug, PartialEq, Eq)]
pub enum SamplerState {
    MinFilter,
    MagFilter,
}

/// How a sampler filters.
#[derive(Clone, Copy, Debug, PartialEq, Eq)]
pub enum TextureFilter {
    Linear,
}

/// One of the device's transforms.
#[derive(Clone, Copy, Debug, PartialEq, Eq)]
pub enum TransformSlot {
    World,
    View,
    Projection,
}

/// The matrix a transform is set to.
#[derive(Clone, Copy, Debug, PartialEq, Eq)]
pub enum Matrix {
    Identity,
    /// The orthographic projection that maps the display rectangle, moved by
    /// half a pixel, onto the device's clip space.
    Orthographic { display_pos: [u32; 2], display_size: [u32; 2] },
}

/// One operation on the device.
#[derive(Clone, Copy, Debug, PartialEq, Eq)]
pub enum DeviceOp {
    /// Create a dynamic, write-only vertex buffer of `length` bytes, room for
    /// `capacity` vertices, to take the place of the current one.
    CreateVertexBuffer { capacity: usize, length: u32 },
    /// Create a dynamic, write-only buffer of 16-bit indices of `length`
    /// bytes, room for `capacity` indices, to take the place of the current
    /// one.
    CreateIndexBuffer { capacity: usize, length: u32 },
    /// Capture the whole device state.
    CaptureState,
    /// Reapply the captured device state.
    RestoreState,
    /// Set the viewport to the framebuffer: the display size times the
    /// framebuffer scale, at the origin, depth from zero to one.
    SetViewport { display_size: [u32; 2], framebuffer_scale: [u32; 2] },
    /// Unbind the pixel shader.
    ClearPixelShader,
    /// Unbind the vertex shader.
    ClearVertexShader,
    SetRenderState { state: RenderState, value: StateValue },
    SetTextureStageState { stage: u32, stage_state: StageState, stage_value: StageValue },
    SetSamplerState { sampler: u32, sampler_state: SamplerState, filter: TextureFilter },
    SetTransform { slot: TransformSlot, matrix: Matrix },
    /// Lock the first `length` bytes of the vertex buffer, discarding what it
    /// held.
    LockVertexBuffer { length: u32 },
    /// Lock the first `length` bytes of the index buffer, discarding what it
    /// held.
    LockIndexBuffer { length: u32 },
    /// Copy the frame's device vertices and indices into the locked buffers.
    /// This asks nothing of the device and cannot fail.
    FillBuffers,
    UnlockVertexBuffer,
    UnlockIndexBuffer,
    /// Make the vertex buffer stream zero, from its start, `stride` bytes a
    /// vertex.
    SetStreamSource { stride: u32 },
    /// Make the index buffer the source of indices.
    SetIndices,
    /// Declare the vertex layout: position, diffuse colour, one pair of texture
    /// coordinates.
    SetVertexFormat,
    /// Bind a texture to stage zero.
    SetTexture { source: TextureSource },
    /// Set the scissor rectangle to the clip rectangle, moved by the display
    /// position and scaled to the framebuffer.
    SetScissorRect { clip_rect: [u32; 4], display_pos: [u32; 2], framebuffer_scale: [u32; 2] },
    /// Draw `primitive_count` triangles from the indices starting at
    /// `start_index`, which count from `base_vertex` and reach the next
    /// `vertex_count` vertices.
    DrawIndexedPrimitive { base_vertex: i32, vertex_count: u32, start_index: u32, primitive_count: u32 },
    /// Run the callback of command `command` of draw list `list`.
    InvokeCallback { list: usize, command: usize },
}

/// How the device answered an operation.
#[derive(Clone, Copy, Debug, PartialEq, Eq)]
pub enum Outcome {
    Done,
    /// The device refused, with this result code.
    Failed(i32),
}

/// Why a frame was not rendered.
#[derive(Clone, Copy, Debug, PartialEq, Eq)]
pub enum RenderError {
    /// The device refused an operation, with this result code.
    Device(i32),
    /// A draw command names a texture that is neither the font atlas nor in
    /// the registry.
    InvalidTextureReference,
}

/// Whether an operation changes state that a capture saves.
pub open spec fn touches_state(op: DeviceOp) -> bool {
    match op {
        DeviceOp::CreateVertexBuffer { .. } => false,
        DeviceOp::CreateIndexBuffer { .. } => false,
        DeviceOp::CaptureState => false,
        DeviceOp::RestoreState => false,
        _ => true,
    }
}

} // verus!
