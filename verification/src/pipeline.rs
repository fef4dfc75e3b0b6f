//! The fixed-function pipeline state that GUI drawing needs.

use crate::device::DeviceOp;
use crate::device::Matrix;
use crate::device::RenderState;
use crate::device::SamplerState;
use crate::device::StageState;
use crate::device::StageValue;
use crate::device::StateValue;
use crate::device::TextureFilter;
use crate::device::TransformSlot;
use crate::draw_data::Placement;
use vstd::prelude::*;

verus! {

/// The operation that sets a render state.
pub open spec fn render_state(state: RenderState, value: StateValue) -> DeviceOp {
    DeviceOp::SetRenderState { state, value }
}

/// The operation that sets a state of a texture stage.
pub open spec fn stage_state(stage: u32, state: StageState, value: StageValue) -> DeviceOp {
    DeviceOp::SetTextureStageState { stage, stage_state: state, stage_value: value }
}

/// The operations that set the pipeline up for a frame placed at `placement`,
/// in the order they are issued: the viewport, no shaders, the render
/// states (solid fill, smooth shading, no depth test or write, no culling,
/// straight alpha blending with its own blend for the alpha channel, scissor
/// test, no fog, specular, stencil or lighting), texture stage zero modulating
/// texture by vertex colour and stage one off, linear filtering, and the
/// transforms.
pub open spec fn setup_ops(placement: Placement) -> Seq<DeviceOp> {
    seq![
        DeviceOp::SetViewport {
            display_size: placement.display_size,
            framebuffer_scale: placement.framebuffer_scale,
        },
        DeviceOp::ClearPixelShader,
        DeviceOp::ClearVertexShader,
        render_state(RenderState::FillMode, StateValue::FillSolid),
        render_state(RenderState::ShadeMode, StateValue::ShadeGouraud),
        render_state(RenderState::ZWriteEnable, StateValue::Off),
        render_state(RenderState::AlphaTestEnable, StateValue::Off),
        render_state(RenderState::CullMode, StateValue::CullNone),
        render_state(RenderState::ZEnable, StateValue::Off),
        render_state(RenderState::AlphaBlendEnable, StateValue::On),
        render_state(RenderState::BlendOp, StateValue::BlendOpAdd),
        render_state(RenderState::SrcBlend, StateValue::BlendSrcAlpha),
        render_state(RenderState::DestBlend, StateValue::BlendInvSrcAlpha),
        render_state(RenderState::SeparateAlphaBlendEnable, StateValue::On),
        render_state(RenderState::SrcBlendAlpha, StateValue::BlendOne),
        render_state(RenderState::DestBlendAlpha, StateValue::BlendInvSrcAlpha),
        render_state(RenderState::ScissorTestEnable, StateValue::On),
        render_state(RenderState::FogEnable, StateValue::Off),
        render_state(RenderState::RangeFogEnable, StateValue::Off),
        render_state(RenderState::SpecularEnable, StateValue::Off),
        render_state(RenderState::StencilEnable, StateValue::Off),
        render_state(RenderState::Clipping, StateValue::On),
        render_state(RenderState::Lighting, StateValue::Off),
        stage_state(0, StageState::ColorOp, StageValue::Modulate),
        stage_state(0, StageState::ColorArg1, StageValue::Texture),
        stage_state(0, StageState::ColorArg2, StageValue::Diffuse),
        stage_state(0, StageState::AlphaOp, StageValue::Modulate),
        stage_state(0, StageState::AlphaArg1, StageValue::Texture),
        stage_state(0, StageState::AlphaArg2, StageValue::Diffuse),
        stage_state(1, StageState::ColorOp, StageValue::Disable),
        stage_state(1, StageState::AlphaOp, StageValue::Disable),
        DeviceOp::SetSamplerState {
            sampler: 0,
            sampler_state: SamplerState::MinFilter,
            filter: TextureFilter::Linear,
        },
        DeviceOp::SetSamplerState {
            sampler: 0,
            sampler_state: SamplerState::MagFilter,
            filter: TextureFilter::Linear,
        },
        DeviceOp::SetTransform { slot: TransformSlot::World, matrix: Matrix::Identity },
        DeviceOp::SetTransform { slot: TransformSlot::View, matrix: Matrix::Identity },
        DeviceOp::SetTransform {
            slot: TransformSlot::Projection,
            matrix: Matrix::Orthographic {
                display_pos: placement.display_pos,
                display_size: placement.display_size,
            },
        },
    ]
}

/// The number of operations a pipeline setup takes.
pub const SETUP_LEN: usize = 36;

/// Appends the setting of a render state.
fn push_state(ops: &mut Vec<DeviceOp>, state: RenderState, value: StateValue)
    ensures
        final(ops)@ == old(ops)@.push(render_state(state, value)),
{
    ops.push(DeviceOp::SetRenderState { state, value });
}

/// Appends the setting of a texture stage state.
fn push_stage(ops: &mut Vec<DeviceOp>, stage: u32, state: StageState, value: StageValue)
    ensures
        final(ops)@ == old(ops)@.push(stage_state(stage, state, value)),
{
    ops.push(DeviceOp::SetTextureStageState { stage, stage_state: state, stage_value: value });
}

/// Appends the operations that set the pipeline up for GUI drawing.
pub fn set_render_state(ops: &mut Vec<DeviceOp>, placement: Placement)
    ensures
        final(ops)@ == old(ops)@ + setup_ops(placement),
        setup_ops(placement).len() == SETUP_LEN,
{
    ops.push(
        DeviceOp::SetViewport {
            display_size: placement.display_size,
            framebuffer_scale: placement.framebuffer_scale,
        },
    );
    ops.push(DeviceOp::ClearPixelShader);
    ops.push(DeviceOp::ClearVertexShader);
    push_state(ops, RenderState::FillMode, StateValue::FillSolid);
    push_state(ops, RenderState::ShadeMode, StateValue::ShadeGouraud);
    push_state(ops, RenderState::ZWriteEnable, StateValue::Off);
    push_state(ops, RenderState::AlphaTestEnable, StateValue::Off);
    push_state(ops, RenderState::CullMode, StateValue::CullNone);
    push_state(ops, RenderState::ZEnable, StateValue::Off);
    push_state(ops, RenderState::AlphaBlendEnable, StateValue::On);
    push_state(ops, RenderState::BlendOp, StateValue::BlendOpAdd);
    push_state(ops, RenderState::SrcBlend, StateValue::BlendSrcAlpha);
    push_state(ops, RenderState::DestBlend, StateValue::BlendInvSrcAlpha);
    push_state(ops, RenderState::SeparateAlphaBlendEnable, StateValue::On);
    push_state(ops, RenderState::SrcBlendAlpha, StateValue::BlendOne);
    push_state(ops, RenderState::DestBlendAlpha, StateValue::BlendInvSrcAlpha);
    push_state(ops, RenderState::ScissorTestEnable, StateValue::On);
    push_state(ops, RenderState::FogEnable, StateValue::Off);
    push_state(ops, RenderState::RangeFogEnable, StateValue::Off);
    push_state(ops, RenderState::SpecularEnable, StateValue::Off);
    push_state(ops, RenderState::StencilEnable, StateValue::Off);
    push_state(ops, RenderState::Clipping, StateValue::On);
    push_state(ops, RenderState::Lighting, StateValue::Off);
    push_stage(ops, 0, StageState::ColorOp, StageValue::Modulate);
    push_stage(ops, 0, StageState::ColorArg1, StageValue::Texture);
    push_stage(ops, 0, StageState::ColorArg2, StageValue::Diffuse);
    push_stage(ops, 0, StageState::AlphaOp, StageValue::Modulate);
    push_stage(ops, 0, StageState::AlphaArg1, StageValue::Texture);
    push_stage(ops, 0, StageState::AlphaArg2, StageValue::Diffuse);
    push_stage(ops, 1, StageState::ColorOp, StageValue::Disable);
    push_stage(ops, 1, StageState::AlphaOp, StageValue::Disable);
    ops.push(
        DeviceOp::SetSamplerState {
            sampler: 0,
            sampler_state: SamplerState::MinFilter,
            filter: TextureFilter::Linear,
        },
    );
    ops.push(
        DeviceOp::SetSamplerState {
            sampler: 0,
            sampler_state: SamplerState::MagFilter,
            filter: TextureFilter::Linear,
        },
    );
    ops.push(DeviceOp::SetTransform { slot: TransformSlot::World, matrix: Matrix::Identity });
    ops.push(DeviceOp::SetTransform { slot: TransformSlot::View, matrix: Matrix::Identity });
    ops.push(
        DeviceOp::SetTransform {
            slot: TransformSlot::Projection,
            matrix: Matrix::Orthographic {
                display_pos: placement.display_pos,
                display_size: placement.display_size,
            },
        },
    );
    assert(ops@ =~= old(ops)@ + setup_ops(placement));
}

} // verus!
