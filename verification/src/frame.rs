//! The operations of a whole frame, in the order the device receives them.

use crate::buffers::growth_ops;
use crate::buffers::upload_ops;
use crate::device::DeviceOp;
use crate::device::RenderError;
use crate::draw::draw_ops;
use crate::draw::Scene;
use crate::draw_data::degenerate;
use crate::draw_data::total_indices;
use crate::draw_data::total_vertices;
use crate::draw_data::DrawList;
use crate::pipeline::setup_ops;
use vstd::prelude::*;

verus! {

/// What a frame asks of the device while every operation succeeds, and the
/// result it then ends with.
pub struct Script {
    pub ops: Seq<DeviceOp>,
    pub verdict: Result<(), RenderError>,
}

/// What comes before the draw loop: the buffers that have to grow, the
/// capture of the device state, the pipeline setup and the upload.
pub open spec fn prelude_ops(
    vertex_capacity: usize,
    index_capacity: usize,
    scene: Scene,
    lists: Seq<DrawList>,
) -> Seq<DeviceOp> {
    growth_ops(vertex_capacity, index_capacity, total_vertices(lists), total_indices(lists))
        + seq![DeviceOp::CaptureState] + setup_ops(scene.placement) + upload_ops(
        total_vertices(lists),
        total_indices(lists),
    )
}

/// The script of a frame for a renderer whose buffers have the given
/// capacities.
///
/// A display of negative width or height asks nothing of the device and
/// succeeds. Any other frame grows the buffers that are too small, captures
/// the device state, sets the pipeline up, uploads, draws and restores the
/// state; it ends in success, or with an invalid texture reference where the
/// draw loop met a texture it could not resolve.
pub open spec fn frame_script(
    vertex_capacity: usize,
    index_capacity: usize,
    scene: Scene,
    lists: Seq<DrawList>,
) -> Script {
    if degenerate(scene.placement) {
        Script { ops: Seq::empty(), verdict: Ok(()) }
    } else {
        let draw = draw_ops(
            prelude_ops(vertex_capacity, index_capacity, scene, lists),
            scene,
            lists,
        );
        Script {
            ops: draw.ops + seq![DeviceOp::RestoreState],
            verdict: if draw.failed {
                Err(RenderError::InvalidTextureReference)
            } else {
                Ok(())
            },
        }
    }
}

} // verus!
