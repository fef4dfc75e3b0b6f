//! The draw loop: one indexed draw for each batch of elements, with the
//! texture and the scissor rectangle it needs.

use crate::device::DeviceOp;
use crate::draw_data::command_weight;
use crate::draw_data::element_weight;
use crate::draw_data::fits_device;
use crate::draw_data::vertex_weight;
use crate::draw_data::DrawCmd;
use crate::draw_data::DrawList;
use crate::draw_data::Placement;
use crate::draw_data::MAX_ELEMENT_COUNT;
use crate::draw_data::MAX_VERTEX_COUNT;
use crate::pipeline::set_render_state;
use crate::pipeline::setup_ops;
use crate::registry::entries;
use crate::registry::resolve;
use crate::registry::resolve_texture;
use crate::registry::TextureSource;
use crate::registry::FONT_TEX_ID;
use crate::sums::lemma_sum_prefix;
use crate::sums::lemma_sum_step;
use crate::sums::sum_of;
use imgui::Textures;
use vstd::prelude::*;

verus! {

/// What the draw loop works against: the registry's entries and the display
/// placement.
pub struct Scene {
    pub registry: Map<usize, usize>,
    pub placement: Placement,
}

/// Where the draw loop stands.
pub struct DrawState {
    /// The operations issued so far.
    pub ops: Seq<DeviceOp>,
    /// The number of vertices in the lists already done.
    pub base_vertex: nat,
    /// The number of indices already drawn.
    pub start_index: nat,
    /// The identifier of the texture that is bound.
    pub bound: usize,
    /// Whether a command named a texture that could not be resolved. Nothing
    /// is issued from then on.
    pub failed: bool,
}

/// The scissor rectangle and the draw of a batch of `count` indices.
pub open spec fn batch_ops(
    st: DrawState,
    scene: Scene,
    vertex_count: nat,
    count: usize,
    clip_rect: [u32; 4],
) -> Seq<DeviceOp> {
    seq![
        DeviceOp::SetScissorRect {
            clip_rect,
            display_pos: scene.placement.display_pos,
            framebuffer_scale: scene.placement.framebuffer_scale,
        },
        DeviceOp::DrawIndexedPrimitive {
            base_vertex: st.base_vertex as i32,
            vertex_count: vertex_count as u32,
            start_index: st.start_index as u32,
            primitive_count: (count / 3) as u32,
        },
    ]
}

/// The state after command `index` of list `list` is handled.
///
/// A batch of elements binds its texture unless that is bound already, sets
/// its scissor rectangle, draws, and moves the first index on by its count; a
/// texture that cannot be resolved fails the loop instead. A reset sets the
/// pipeline up again. A callback is run.
pub open spec fn after_command(
    st: DrawState,
    scene: Scene,
    list: int,
    vertex_count: nat,
    index: int,
    cmd: DrawCmd,
) -> DrawState {
    if st.failed {
        st
    } else {
        match cmd {
            DrawCmd::Elements { count, clip_rect, texture_id } => {
                let batch = batch_ops(st, scene, vertex_count, count, clip_rect);
                if texture_id == st.bound {
                    DrawState { ops: st.ops + batch, start_index: st.start_index + count as nat, ..st }
                } else {
                    match resolve(scene.registry, texture_id) {
                        Some(source) => DrawState {
                            ops: st.ops + seq![DeviceOp::SetTexture { source }] + batch,
                            start_index: st.start_index + count as nat,
                            bound: texture_id,
                            ..st
                        },
                        None => DrawState { failed: true, ..st },
                    }
                }
            },
            DrawCmd::ResetRenderState => DrawState {
                ops: st.ops + setup_ops(scene.placement),
                ..st
            },
            DrawCmd::RawCallback => DrawState {
                ops: st.ops + seq![
                    DeviceOp::InvokeCallback { list: list as usize, command: index as usize },
                ],
                ..st
            },
        }
    }
}

/// The state after the first `n` commands of a list are handled.
pub open spec fn after_commands(
    st: DrawState,
    scene: Scene,
    list: int,
    vertex_count: nat,
    commands: Seq<DrawCmd>,
    n: int,
) -> DrawState
    decreases n,
{
    if n <= 0 {
        st
    } else {
        after_command(
            after_commands(st, scene, list, vertex_count, commands, n - 1),
            scene,
            list,
            vertex_count,
            n - 1,
            commands[n - 1],
        )
    }
}

/// The state after a whole list is handled: its commands in order, then the
/// base vertex moved on by the list's vertices.
pub open spec fn after_list(st: DrawState, scene: Scene, index: int, list: DrawList) -> DrawState {
    let vertex_count = list.vtx_buffer@.len();
    let end = after_commands(
        st,
        scene,
        index,
        vertex_count,
        list.commands@,
        list.commands@.len() as int,
    );
    if end.failed {
        end
    } else {
        DrawState { base_vertex: end.base_vertex + vertex_count, ..end }
    }
}

/// The state after the first `n` lists are handled.
pub open spec fn after_lists(st: DrawState, scene: Scene, lists: Seq<DrawList>, n: int) -> DrawState
    decreases n,
{
    if n <= 0 {
        st
    } else {
        after_list(after_lists(st, scene, lists, n - 1), scene, n - 1, lists[n - 1])
    }
}

/// The state in which the draw loop starts: the font atlas bound behind the
/// operations issued before, and nothing drawn.
pub open spec fn draw_start(ops: Seq<DeviceOp>) -> DrawState {
    DrawState {
        ops: ops + seq![DeviceOp::SetTexture { source: TextureSource::FontAtlas }],
        base_vertex: 0,
        start_index: 0,
        bound: FONT_TEX_ID,
        failed: false,
    }
}

/// The operations of a frame's draw loop, behind those issued before, and
/// whether every texture was resolved.
pub open spec fn draw_ops(ops: Seq<DeviceOp>, scene: Scene, lists: Seq<DrawList>) -> DrawState {
    after_lists(draw_start(ops), scene, lists, lists.len() as int)
}

/// Once the loop has failed, further commands change nothing.
pub proof fn lemma_failed_commands_stay(
    st: DrawState,
    scene: Scene,
    list: int,
    vertex_count: nat,
    commands: Seq<DrawCmd>,
    m: int,
    n: int,
)
    requires
        0 <= m <= n,
        after_commands(st, scene, list, vertex_count, commands, m).failed,
    ensures
        after_commands(st, scene, list, vertex_count, commands, n) == after_commands(
            st,
            scene,
            list,
            vertex_count,
            commands,
            m,
        ),
    decreases n - m,
{
    if m < n {
        lemma_failed_commands_stay(st, scene, list, vertex_count, commands, m, n - 1);
    }
}

/// Once the loop has failed, further lists change nothing.
pub proof fn lemma_failed_lists_stay(
    st: DrawState,
    scene: Scene,
    lists: Seq<DrawList>,
    m: int,
    n: int,
)
    requires
        0 <= m <= n,
        after_lists(st, scene, lists, m).failed,
    ensures
        after_lists(st, scene, lists, n) == after_lists(st, scene, lists, m),
    decreases n - m,
{
    if m < n {
        lemma_failed_lists_stay(st, scene, lists, m, n - 1);
        let before = after_lists(st, scene, lists, n - 1);
        let list = lists[n - 1];
        lemma_failed_commands_stay(
            before,
            scene,
            n - 1,
            list.vtx_buffer@.len(),
            list.commands@,
            0,
            list.commands@.len() as int,
        );
    }
}

/// The draw loop's running numbers.
#[derive(Clone, Copy, Debug, PartialEq, Eq)]
pub struct DrawCursor {
    /// The number of vertices in the lists already done.
    pub base_vertex: usize,
    /// The number of indices already drawn.
    pub start_index: usize,
    /// The identifier of the texture that is bound.
    pub bound: usize,
}

/// The draw state of a loop that has not failed.
pub open spec fn state_at(ops: Seq<DeviceOp>, cursor: DrawCursor) -> DrawState {
    DrawState {
        ops,
        base_vertex: cursor.base_vertex as nat,
        start_index: cursor.start_index as nat,
        bound: cursor.bound,
        failed: false,
    }
}

/// The scene a registry and a placement make.
pub open spec fn scene_of(textures: Textures<usize>, placement: Placement) -> Scene {
    Scene { registry: entries(textures), placement }
}

/// Handles one draw list: appends what its commands ask of the device and
/// gives the running numbers behind it, or nothing where a command names a
/// texture that cannot be resolved.
pub fn render_list(
    ops: &mut Vec<DeviceOp>,
    cursor: DrawCursor,
    textures: &Textures<usize>,
    placement: Placement,
    list: &DrawList,
    list_index: usize,
) -> (next: Option<DrawCursor>)
    requires
        cursor.base_vertex + list.vtx_buffer@.len() <= MAX_VERTEX_COUNT,
        cursor.start_index + sum_of(list.commands@, command_weight()) <= MAX_ELEMENT_COUNT,
    ensures
        ({
            let end = after_list(
                state_at(old(ops)@, cursor),
                scene_of(*textures, placement),
                list_index as int,
                *list,
            );
            &&& final(ops)@ == end.ops
            &&& match next {
                Some(c) => state_at(final(ops)@, c) == end,
                None => end.failed,
            }
        }),
        next matches Some(c) ==> c.base_vertex == cursor.base_vertex + list.vtx_buffer@.len()
            && c.start_index == cursor.start_index + sum_of(list.commands@, command_weight()),
{
    let ghost scene = scene_of(*textures, placement);
    let ghost start = state_at(ops@, cursor);
    let ghost vc = list.vtx_buffer@.len();
    let ghost li = list_index as int;
    let vertex_count: usize = list.vtx_buffer.len();
    let mut start_index: usize = cursor.start_index;
    let mut bound: usize = cursor.bound;
    let mut j: usize = 0;
    while j < list.commands.len()
        invariant
            j <= list.commands.len(),
            vc == list.vtx_buffer@.len(),
            vertex_count == vc,
            scene == scene_of(*textures, placement),
            cursor.base_vertex + vc <= MAX_VERTEX_COUNT,
            cursor.start_index + sum_of(list.commands@, command_weight()) <= MAX_ELEMENT_COUNT,
            start_index == cursor.start_index + sum_of(
                list.commands@.take(j as int),
                command_weight(),
            ),
            start == state_at(old(ops)@, cursor),
            li == list_index,
            after_commands(start, scene, li, vc, list.commands@, j as int) == state_at(
                ops@,
                DrawCursor { base_vertex: cursor.base_vertex, start_index, bound },
            ),
        decreases list.commands.len() - j,
    {
        let ghost before = after_commands(start, scene, li, vc, list.commands@, j as int);
        let ghost after = after_command(before, scene, li, vc, j as int, list.commands@[j as int]);
        proof {
            lemma_sum_step(list.commands@, command_weight(), j as int);
            lemma_sum_prefix(list.commands@, command_weight(), j + 1);
            assert(after_commands(start, scene, li, vc, list.commands@, j + 1) == after);
        }
        match list.commands[j] {
            DrawCmd::Elements { count, clip_rect, texture_id } => {
                if texture_id != bound {
                    match resolve_texture(textures, texture_id) {
                        Some(source) => {
                            ops.push(DeviceOp::SetTexture { source });
                            bound = texture_id;
                        },
                        None => {
                            proof {
                                lemma_failed_commands_stay(
                                    start,
                                    scene,
                                    li,
                                    vc,
                                    list.commands@,
                                    j + 1,
                                    list.commands@.len() as int,
                                );
                            }
                            return None;
                        },
                    }
                }
                ops.push(
                    DeviceOp::SetScissorRect {
                        clip_rect,
                        display_pos: placement.display_pos,
                        framebuffer_scale: placement.framebuffer_scale,
                    },
                );
                ops.push(
                    DeviceOp::DrawIndexedPrimitive {
                        base_vertex: cursor.base_vertex as i32,
                        vertex_count: vertex_count as u32,
                        start_index: start_index as u32,
                        primitive_count: (count / 3) as u32,
                    },
                );
                start_index = start_index + count;
                assert(ops@ =~= after.ops);
            },
            DrawCmd::ResetRenderState => {
                set_render_state(ops, placement);
                assert(ops@ =~= after.ops);
            },
            DrawCmd::RawCallback => {
                ops.push(DeviceOp::InvokeCallback { list: list_index, command: j });
                assert(ops@ =~= after.ops);
            },
        }
        j = j + 1;
    }
    proof {
        assert(list.commands@.take(j as int) =~= list.commands@);
    }
    Some(DrawCursor { base_vertex: cursor.base_vertex + vertex_count, start_index, bound })
}

/// Runs the draw loop over a frame's lists: binds the font atlas, then
/// appends what each list's commands ask of the device. Tells whether every
/// texture was resolved; where one was not, nothing is appended from that
/// command on.
pub fn render_impl(
    ops: &mut Vec<DeviceOp>,
    textures: &Textures<usize>,
    placement: Placement,
    lists: &Vec<DrawList>,
) -> (resolved: bool)
    requires
        fits_device(lists@),
    ensures
        final(ops)@ == draw_ops(old(ops)@, scene_of(*textures, placement), lists@).ops,
        resolved == !draw_ops(old(ops)@, scene_of(*textures, placement), lists@).failed,
{
    let ghost scene = scene_of(*textures, placement);
    let ghost start = draw_start(ops@);
    ops.push(DeviceOp::SetTexture { source: TextureSource::FontAtlas });
    let mut cursor = DrawCursor { base_vertex: 0, start_index: 0, bound: FONT_TEX_ID };
    let mut i: usize = 0;
    assert(ops@ =~= start.ops);
    while i < lists.len()
        invariant
            i <= lists.len(),
            fits_device(lists@),
            scene == scene_of(*textures, placement),
            cursor.base_vertex == sum_of(lists@.take(i as int), vertex_weight()),
            cursor.start_index == sum_of(lists@.take(i as int), element_weight()),
            start == draw_start(old(ops)@),
            after_lists(start, scene, lists@, i as int) == state_at(ops@, cursor),
        decreases lists.len() - i,
    {
        proof {
            assert(after_lists(start, scene, lists@, i + 1) == after_list(
                after_lists(start, scene, lists@, i as int),
                scene,
                i as int,
                lists@[i as int],
            ));
            lemma_sum_step(lists@, vertex_weight(), i as int);
            lemma_sum_step(lists@, element_weight(), i as int);
            lemma_sum_prefix(lists@, vertex_weight(), i + 1);
            lemma_sum_prefix(lists@, element_weight(), i + 1);
        }
        match render_list(ops, cursor, textures, placement, &lists[i], i) {
            Some(next) => {
                cursor = next;
            },
            None => {
                proof {
                    lemma_failed_lists_stay(start, scene, lists@, i + 1, lists@.len() as int);
                }
                return false;
            },
        }
        i = i + 1;
    }
    true
}

} // verus!
