//! What holds of every frame.

use crate::buffers::growth_ops;
use crate::buffers::index_buffer_for;
use crate::buffers::upload_ops;
use crate::buffers::vertex_buffer_for;
use crate::buffers::INDEX_BUF_ADD_CAPACITY;
use crate::buffers::VERTEX_BUF_ADD_CAPACITY;
use crate::device::touches_state;
use crate::device::DeviceOp;
use crate::device::Outcome;
use crate::device::RenderError;
use crate::draw::after_commands;
use crate::draw::after_lists;
use crate::draw::draw_ops;
use crate::draw::draw_start;
use crate::draw::lemma_failed_commands_stay;
use crate::draw::Scene;
use crate::draw_data::degenerate;
use crate::draw_data::fits_device;
use crate::draw_data::command_weight;
use crate::draw_data::total_elements;
use crate::draw_data::total_indices;
use crate::draw_data::total_vertices;
use crate::draw_data::DrawList;
use crate::draw_laws::lemma_first_unresolved_stops;
use crate::draw_laws::lemma_lists_extend;
use crate::draw_laws::lemma_commands_numbers;
use crate::draw_laws::lemma_lists_fail_iff;
use crate::draw_laws::lemma_lists_numbers;
use crate::draw_laws::lemma_setup_touches;
use crate::draw_laws::some_list_unresolved;
use crate::draw_laws::some_unresolved;
use crate::draw_laws::unresolved;
use crate::frame::frame_script;
use crate::frame::prelude_ops;
use crate::guard::bracketed;
use crate::guard::disciplined;
use crate::guard::lemma_bracketed_is_disciplined;
use crate::guard::lemma_run_keeps_discipline;
use crate::guard::restore_refused_in;
use crate::guard::run;
use crate::pass::current_step;
use crate::pass::PassView;
use crate::pass::Step;
use crate::pipeline::setup_ops;
use crate::pipeline::SETUP_LEN;
use crate::registry::resolve;
use crate::registry::TextureSource;
use crate::registry::FONT_TEX_ID;
use crate::sums::sum_of;
use vstd::prelude::*;

verus! {

/// The pass a frame starts as.
pub open spec fn start_of(
    vertex_capacity: usize,
    index_capacity: usize,
    scene: Scene,
    lists: Seq<DrawList>,
) -> PassView {
    let script = frame_script(vertex_capacity, index_capacity, scene, lists);
    PassView { pending: script.ops, verdict: script.verdict, captured: false }
}

/// The script of a frame that is drawn is bracketed: the buffers grow, the
/// device state is captured, everything after that touches the state, and
/// the restore comes last.
pub proof fn lemma_frame_bracketed(
    vertex_capacity: usize,
    index_capacity: usize,
    scene: Scene,
    lists: Seq<DrawList>,
)
    requires
        !degenerate(scene.placement),
    ensures
        bracketed(
            frame_script(vertex_capacity, index_capacity, scene, lists).ops,
            growth_ops(
                vertex_capacity,
                index_capacity,
                total_vertices(lists),
                total_indices(lists),
            ).len() as int,
        ),
{
    let vtx = total_vertices(lists);
    let idx = total_indices(lists);
    let growth = growth_ops(vertex_capacity, index_capacity, vtx, idx);
    let prelude = prelude_ops(vertex_capacity, index_capacity, scene, lists);
    let start = draw_start(prelude);
    let draw = draw_ops(prelude, scene, lists);
    let ops = frame_script(vertex_capacity, index_capacity, scene, lists).ops;
    lemma_setup_touches(scene.placement);
    lemma_lists_extend(start, scene, lists, lists.len() as int);
    let g = growth.len() as int;
    assert(prelude.len() == g + 1 + SETUP_LEN + 8);
    assert(start.ops.len() == prelude.len() + 1);
    assert forall|k: int| 0 <= k < prelude.len() implies #[trigger] ops[k] == prelude[k] by {
        assert(start.ops[k] == prelude[k]);
        assert(draw.ops[k] == start.ops[k]);
    }
    assert forall|k: int| 0 <= k < g implies !touches_state(#[trigger] ops[k]) && ops[k]
        != DeviceOp::CaptureState && ops[k] != DeviceOp::RestoreState by {
        assert(ops[k] == prelude[k]);
        assert(prelude[k] == growth[k]);
    }
    assert(ops[g] == DeviceOp::CaptureState) by {
        assert(ops[g] == prelude[g]);
    }
    assert forall|k: int| g < k < ops.len() - 1 implies touches_state(#[trigger] ops[k]) by {
        if k < prelude.len() {
            assert(ops[k] == prelude[k]);
            if k < g + 1 + SETUP_LEN {
                assert(prelude[k] == setup_ops(scene.placement)[k - g - 1]);
            } else {
                assert(prelude[k] == upload_ops(vtx, idx)[k - g - 1 - SETUP_LEN]);
            }
        } else if k == prelude.len() {
            assert(ops[k] == draw.ops[k]);
            assert(draw.ops[k] == start.ops[k]);
        } else {
            assert(ops[k] == draw.ops[k]);
        }
    }
}

/// The device state is guarded through every frame.
///
/// Whatever the device answers to the steps of a frame, as long as it does
/// not refuse the restore of its state: an operation that touches the state
/// is only ever asked for while the state is captured, and once the frame is
/// over nothing is left captured. So a frame that ends, in success or in
/// failure, has restored whatever it captured.
pub proof fn law_state_is_guarded(
    vertex_capacity: usize,
    index_capacity: usize,
    scene: Scene,
    lists: Seq<DrawList>,
    outcomes: Seq<Outcome>,
)
    requires
        !restore_refused_in(start_of(vertex_capacity, index_capacity, scene, lists), outcomes),
    ensures
        ({
            let now = run(start_of(vertex_capacity, index_capacity, scene, lists), outcomes);
            &&& disciplined(now.pending, now.captured)
            &&& current_step(now) is Finished ==> !now.captured
            &&& current_step(now) matches Step::Perform(op) ==> (touches_state(op)
                ==> now.captured)
        }),
{
    let start = start_of(vertex_capacity, index_capacity, scene, lists);
    if !degenerate(scene.placement) {
        lemma_frame_bracketed(vertex_capacity, index_capacity, scene, lists);
        lemma_bracketed_is_disciplined(
            start.pending,
            growth_ops(
                vertex_capacity,
                index_capacity,
                total_vertices(lists),
                total_indices(lists),
            ).len() as int,
        );
    }
    lemma_run_keeps_discipline(start, outcomes);
}

/// Buffers only ever grow, and by the fixed margin.
///
/// Wherever a frame's script makes a vertex buffer, the frame has more
/// vertices than the current buffer has room for, and the new buffer has room
/// for the frame's vertices and 5000 more; the same holds of the index buffer
/// with 10000. A frame that fits the buffers it finds makes none.
pub proof fn law_buffers_only_grow(
    vertex_capacity: usize,
    index_capacity: usize,
    scene: Scene,
    lists: Seq<DrawList>,
    k: int,
)
    requires
        fits_device(lists),
        0 <= k < frame_script(vertex_capacity, index_capacity, scene, lists).ops.len(),
    ensures
        ({
            let op = frame_script(vertex_capacity, index_capacity, scene, lists).ops[k];
            &&& op matches DeviceOp::CreateVertexBuffer { capacity, length } ==> {
                &&& vertex_capacity < total_vertices(lists)
                &&& capacity == total_vertices(lists) + VERTEX_BUF_ADD_CAPACITY
                &&& capacity > vertex_capacity
                &&& op == vertex_buffer_for(total_vertices(lists))
            }
            &&& op matches DeviceOp::CreateIndexBuffer { capacity, length } ==> {
                &&& index_capacity < total_indices(lists)
                &&& capacity == total_indices(lists) + INDEX_BUF_ADD_CAPACITY
                &&& capacity > index_capacity
                &&& op == index_buffer_for(total_indices(lists))
            }
        }),
{
    let vtx = total_vertices(lists);
    let idx = total_indices(lists);
    let growth = growth_ops(vertex_capacity, index_capacity, vtx, idx);
    let ops = frame_script(vertex_capacity, index_capacity, scene, lists).ops;
    lemma_frame_bracketed(vertex_capacity, index_capacity, scene, lists);
    let g = growth.len() as int;
    if k < g {
        let prelude = prelude_ops(vertex_capacity, index_capacity, scene, lists);
        let start = draw_start(prelude);
        lemma_lists_extend(start, scene, lists, lists.len() as int);
        assert(start.ops[k] == prelude[k]);
        assert(draw_ops(prelude, scene, lists).ops[k] == start.ops[k]);
        assert(ops[k] == growth[k]);
    } else if k == g {
    } else if k < ops.len() - 1 {
        assert(touches_state(ops[k]));
    } else {
        assert(ops[k] == ops.last());
    }
}

/// The numbers of a draw: right before command `j` of list `i` is handled,
/// the base vertex is the number of vertices in the lists before that list,
/// and the first index is the number of indices that all the commands before
/// it drew, in that list and in the lists before. So the first index runs
/// through the whole frame, and the base vertex starts anew with each list.
pub proof fn law_draw_numbers(
    ops: Seq<DeviceOp>,
    scene: Scene,
    lists: Seq<DrawList>,
    i: int,
    j: int,
)
    requires
        0 <= i < lists.len(),
        0 <= j <= lists[i].commands@.len(),
        !after_commands(
            after_lists(draw_start(ops), scene, lists, i),
            scene,
            i,
            lists[i].vtx_buffer@.len(),
            lists[i].commands@,
            j,
        ).failed,
    ensures
        ({
            let before = after_commands(
                after_lists(draw_start(ops), scene, lists, i),
                scene,
                i,
                lists[i].vtx_buffer@.len(),
                lists[i].commands@,
                j,
            );
            &&& before.base_vertex == total_vertices(lists.take(i))
            &&& before.start_index == total_elements(lists.take(i)) + sum_of(
                lists[i].commands@.take(j),
                command_weight(),
            )
        }),
{
    let start = draw_start(ops);
    let entry = after_lists(start, scene, lists, i);
    let list = lists[i];
    if entry.failed {
        lemma_failed_commands_stay(
            entry,
            scene,
            i,
            list.vtx_buffer@.len(),
            list.commands@,
            0,
            j,
        );
    }
    lemma_lists_numbers(start, scene, lists, i);
    lemma_commands_numbers(entry, scene, i, list.vtx_buffer@.len(), list.commands@, j);
}

/// The reserved identifier always stands for the font atlas, whatever the
/// registry holds, even a texture stored under that identifier.
pub proof fn law_font_texture_is_reserved(registry: Map<usize, usize>)
    ensures
        resolve(registry, FONT_TEX_ID) == Some(TextureSource::FontAtlas),
{
}

/// A frame ends with an invalid texture reference exactly where it is drawn
/// and one of its commands names a texture that is neither the font atlas nor
/// in the registry.
pub proof fn law_invalid_reference(
    vertex_capacity: usize,
    index_capacity: usize,
    scene: Scene,
    lists: Seq<DrawList>,
)
    ensures
        frame_script(vertex_capacity, index_capacity, scene, lists).verdict == Err::<
            (),
            RenderError,
        >(RenderError::InvalidTextureReference) <==> !degenerate(scene.placement)
            && some_list_unresolved(scene, lists, lists.len() as int),
        frame_script(vertex_capacity, index_capacity, scene, lists).verdict is Ok <==> degenerate(
            scene.placement,
        ) || !some_list_unresolved(scene, lists, lists.len() as int),
{
    let prelude = prelude_ops(vertex_capacity, index_capacity, scene, lists);
    lemma_lists_fail_iff(draw_start(prelude), scene, lists, lists.len() as int);
}

/// The first command that names an unknown texture ends the drawing: the
/// script holds what the commands before it ask for, then the restore, and so
/// no draw for that command or any after it.
pub proof fn law_invalid_reference_stops_drawing(
    vertex_capacity: usize,
    index_capacity: usize,
    scene: Scene,
    lists: Seq<DrawList>,
    i: int,
    j: int,
)
    requires
        !degenerate(scene.placement),
        0 <= i < lists.len(),
        0 <= j < lists[i].commands@.len(),
        unresolved(scene, lists[i].commands@[j]),
        !some_list_unresolved(scene, lists, i),
        !some_unresolved(scene, lists[i].commands@, j),
    ensures
        ({
            let start = draw_start(prelude_ops(vertex_capacity, index_capacity, scene, lists));
            let before = after_commands(
                after_lists(start, scene, lists, i),
                scene,
                i,
                lists[i].vtx_buffer@.len(),
                lists[i].commands@,
                j,
            );
            frame_script(vertex_capacity, index_capacity, scene, lists).ops == before.ops + seq![
                DeviceOp::RestoreState,
            ]
        }),
{
    let start = draw_start(prelude_ops(vertex_capacity, index_capacity, scene, lists));
    lemma_first_unresolved_stops(start, scene, lists, i, j);
}

/// A display of negative width or height is not drawn: the frame asks
/// nothing of the device and ends in success at once.
pub proof fn law_degenerate_frame_is_skipped(
    vertex_capacity: usize,
    index_capacity: usize,
    scene: Scene,
    lists: Seq<DrawList>,
)
    requires
        degenerate(scene.placement),
    ensures
        current_step(start_of(vertex_capacity, index_capacity, scene, lists)) == Step::Finished(
            Ok(()),
        ),
{
}

} // verus!
