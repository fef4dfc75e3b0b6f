//! What holds of the draw loop, whatever the frame.

use crate::device::touches_state;
use crate::device::DeviceOp;
use crate::draw::after_command;
use crate::draw::after_commands;
use crate::draw::after_list;
use crate::draw::after_lists;
use crate::draw::lemma_failed_commands_stay;
use crate::draw::lemma_failed_lists_stay;
use crate::draw::DrawState;
use crate::draw::Scene;
use crate::draw_data::command_weight;
use crate::draw_data::element_weight;
use crate::draw_data::total_elements;
use crate::draw_data::total_vertices;
use crate::draw_data::vertex_weight;
use crate::draw_data::DrawCmd;
use crate::draw_data::DrawList;
use crate::draw_data::Placement;
use crate::pipeline::setup_ops;
use crate::pipeline::SETUP_LEN;
use crate::registry::resolve;
use crate::sums::lemma_sum_step;
use crate::sums::sum_of;
use vstd::prelude::*;

verus! {

/// Whether `after` is `before` with operations behind it that all touch the
/// device state.
pub open spec fn extends(before: Seq<DeviceOp>, after: Seq<DeviceOp>) -> bool {
    &&& before.len() <= after.len()
    &&& forall|k: int| 0 <= k < before.len() ==> #[trigger] after[k] == before[k]
    &&& forall|k: int| before.len() <= k < after.len() ==> touches_state(#[trigger] after[k])
}

/// Every operation of the pipeline setup touches the device state.
pub proof fn lemma_setup_touches(placement: Placement)
    ensures
        setup_ops(placement).len() == SETUP_LEN,
        forall|k: int| 0 <= k < SETUP_LEN ==> touches_state(#[trigger] setup_ops(placement)[k]),
{
}

/// A command only adds operations, and each of them touches the device
/// state.
pub proof fn lemma_command_extends(
    st: DrawState,
    scene: Scene,
    list: int,
    vertex_count: nat,
    index: int,
    cmd: DrawCmd,
)
    ensures
        extends(st.ops, after_command(st, scene, list, vertex_count, index, cmd).ops),
{
    lemma_setup_touches(scene.placement);
}

/// The commands of a list only add operations that touch the device state.
pub proof fn lemma_commands_extend(
    st: DrawState,
    scene: Scene,
    list: int,
    vertex_count: nat,
    commands: Seq<DrawCmd>,
    n: int,
)
    requires
        0 <= n <= commands.len(),
    ensures
        extends(st.ops, after_commands(st, scene, list, vertex_count, commands, n).ops),
    decreases n,
{
    if n > 0 {
        lemma_commands_extend(st, scene, list, vertex_count, commands, n - 1);
        lemma_command_extends(
            after_commands(st, scene, list, vertex_count, commands, n - 1),
            scene,
            list,
            vertex_count,
            n - 1,
            commands[n - 1],
        );
    }
}

/// The lists of a frame only add operations that touch the device state.
pub proof fn lemma_lists_extend(st: DrawState, scene: Scene, lists: Seq<DrawList>, n: int)
    requires
        0 <= n <= lists.len(),
    ensures
        extends(st.ops, after_lists(st, scene, lists, n).ops),
    decreases n,
{
    if n > 0 {
        lemma_lists_extend(st, scene, lists, n - 1);
        let list = lists[n - 1];
        lemma_commands_extend(
            after_lists(st, scene, lists, n - 1),
            scene,
            n - 1,
            list.vtx_buffer@.len(),
            list.commands@,
            list.commands@.len() as int,
        );
    }
}

/// Whether a command asks for a texture that is neither the font atlas nor
/// in the registry.
pub open spec fn unresolved(scene: Scene, cmd: DrawCmd) -> bool {
    cmd matches DrawCmd::Elements { texture_id, .. } && resolve(scene.registry, texture_id) is None
}

/// Whether one of the first `n` commands is unresolved.
pub open spec fn some_unresolved(scene: Scene, commands: Seq<DrawCmd>, n: int) -> bool {
    exists|j: int| 0 <= j < n && j < commands.len() && unresolved(scene, #[trigger] commands[j])
}

/// Whether a command of one of the first `n` lists is unresolved.
pub open spec fn some_list_unresolved(scene: Scene, lists: Seq<DrawList>, n: int) -> bool {
    exists|i: int|
        0 <= i < n && i < lists.len() && some_unresolved(
            scene,
            (#[trigger] lists[i]).commands@,
            lists[i].commands@.len() as int,
        )
}

/// Whether the texture that is bound is one that resolves.
pub open spec fn bound_known(scene: Scene, st: DrawState) -> bool {
    resolve(scene.registry, st.bound) is Some
}

/// The commands of a list fail the loop exactly where one of them is
/// unresolved; otherwise the bound texture stays one that resolves.
pub proof fn lemma_commands_fail_iff(
    st: DrawState,
    scene: Scene,
    list: int,
    vertex_count: nat,
    commands: Seq<DrawCmd>,
    n: int,
)
    requires
        0 <= n <= commands.len(),
        !st.failed,
        bound_known(scene, st),
    ensures
        after_commands(st, scene, list, vertex_count, commands, n).failed <==> some_unresolved(
            scene,
            commands,
            n,
        ),
        !after_commands(st, scene, list, vertex_count, commands, n).failed ==> bound_known(
            scene,
            after_commands(st, scene, list, vertex_count, commands, n),
        ),
    decreases n,
{
    if n > 0 {
        lemma_commands_fail_iff(st, scene, list, vertex_count, commands, n - 1);
        let before = after_commands(st, scene, list, vertex_count, commands, n - 1);
        let end = after_commands(st, scene, list, vertex_count, commands, n);
        if before.failed {
            let j = choose|j: int|
                0 <= j < n - 1 && j < commands.len() && unresolved(scene, #[trigger] commands[j]);
            assert(0 <= j < n && unresolved(scene, commands[j]));
        } else if end.failed {
            assert(unresolved(scene, commands[n - 1]));
        } else {
            assert forall|j: int| 0 <= j < n && j < commands.len() implies !unresolved(
                scene,
                #[trigger] commands[j],
            ) by {
                if j < n - 1 {
                    assert(!some_unresolved(scene, commands, n - 1));
                }
            }
        }
    }
}

/// The lists of a frame fail the loop exactly where a command of one of them
/// is unresolved.
pub proof fn lemma_lists_fail_iff(st: DrawState, scene: Scene, lists: Seq<DrawList>, n: int)
    requires
        0 <= n <= lists.len(),
        !st.failed,
        bound_known(scene, st),
    ensures
        after_lists(st, scene, lists, n).failed <==> some_list_unresolved(scene, lists, n),
        !after_lists(st, scene, lists, n).failed ==> bound_known(
            scene,
            after_lists(st, scene, lists, n),
        ),
    decreases n,
{
    if n > 0 {
        lemma_lists_fail_iff(st, scene, lists, n - 1);
        let before = after_lists(st, scene, lists, n - 1);
        let list = lists[n - 1];
        let len = list.commands@.len() as int;
        if before.failed {
            let i = choose|i: int|
                0 <= i < n - 1 && i < lists.len() && some_unresolved(
                    scene,
                    (#[trigger] lists[i]).commands@,
                    lists[i].commands@.len() as int,
                );
            assert(0 <= i < n && some_unresolved(
                scene,
                lists[i].commands@,
                lists[i].commands@.len() as int,
            ));
            lemma_failed_commands_stay(
                before,
                scene,
                n - 1,
                list.vtx_buffer@.len(),
                list.commands@,
                0,
                len,
            );
        } else {
            lemma_commands_fail_iff(before, scene, n - 1, list.vtx_buffer@.len(), list.commands@, len);
            if some_unresolved(scene, list.commands@, len) {
                assert(some_list_unresolved(scene, lists, n));
            } else {
                assert forall|i: int| 0 <= i < n && i < lists.len() implies !some_unresolved(
                    scene,
                    (#[trigger] lists[i]).commands@,
                    lists[i].commands@.len() as int,
                ) by {
                    if i < n - 1 {
                        assert(!some_list_unresolved(scene, lists, n - 1));
                    }
                }
            }
        }
    }
}

/// The first unresolved command stops the loop where it stands: the loop ends
/// failed, with the operations and the running numbers it had right before
/// that command.
pub proof fn lemma_first_unresolved_stops(
    st: DrawState,
    scene: Scene,
    lists: Seq<DrawList>,
    i: int,
    j: int,
)
    requires
        !st.failed,
        bound_known(scene, st),
        0 <= i < lists.len(),
        0 <= j < lists[i].commands@.len(),
        unresolved(scene, lists[i].commands@[j]),
        !some_list_unresolved(scene, lists, i),
        !some_unresolved(scene, lists[i].commands@, j),
    ensures
        ({
            let before = after_commands(
                after_lists(st, scene, lists, i),
                scene,
                i,
                lists[i].vtx_buffer@.len(),
                lists[i].commands@,
                j,
            );
            &&& !before.failed
            &&& after_lists(st, scene, lists, lists.len() as int) == (DrawState {
                failed: true,
                ..before
            })
        }),
{
    let list = lists[i];
    let vc = list.vtx_buffer@.len();
    let len = list.commands@.len() as int;
    let entry = after_lists(st, scene, lists, i);
    lemma_lists_fail_iff(st, scene, lists, i);
    lemma_commands_fail_iff(entry, scene, i, vc, list.commands@, j);
    let before = after_commands(entry, scene, i, vc, list.commands@, j);
    let stopped = after_commands(entry, scene, i, vc, list.commands@, j + 1);
    assert(stopped == after_command(before, scene, i, vc, j, list.commands@[j]));
    assert(stopped == (DrawState { failed: true, ..before }));
    lemma_failed_commands_stay(entry, scene, i, vc, list.commands@, j + 1, len);
    assert(after_lists(st, scene, lists, i + 1) == after_list(entry, scene, i, list));
    lemma_failed_lists_stay(st, scene, lists, i + 1, lists.len() as int);
}

/// While the loop has not failed, the first index of the next draw is the sum
/// of the element counts handled so far, and the base vertex is that of the
/// list.
pub proof fn lemma_commands_numbers(
    st: DrawState,
    scene: Scene,
    list: int,
    vertex_count: nat,
    commands: Seq<DrawCmd>,
    n: int,
)
    requires
        0 <= n <= commands.len(),
        !after_commands(st, scene, list, vertex_count, commands, n).failed,
    ensures
        after_commands(st, scene, list, vertex_count, commands, n).start_index == st.start_index
            + sum_of(commands.take(n), command_weight()),
        after_commands(st, scene, list, vertex_count, commands, n).base_vertex == st.base_vertex,
    decreases n,
{
    if n > 0 {
        let before = after_commands(st, scene, list, vertex_count, commands, n - 1);
        if before.failed {
            lemma_failed_commands_stay(st, scene, list, vertex_count, commands, n - 1, n);
        }
        lemma_commands_numbers(st, scene, list, vertex_count, commands, n - 1);
        lemma_sum_step(commands, command_weight(), n - 1);
    } else {
        assert(commands.take(0) =~= Seq::<DrawCmd>::empty());
    }
}

/// While the loop has not failed, the base vertex is the number of vertices
/// in the lists done, and the first index is the number of indices their
/// commands drew: the one starts anew with each list, the other runs through
/// the frame.
pub proof fn lemma_lists_numbers(st: DrawState, scene: Scene, lists: Seq<DrawList>, n: int)
    requires
        0 <= n <= lists.len(),
        !after_lists(st, scene, lists, n).failed,
    ensures
        after_lists(st, scene, lists, n).base_vertex == st.base_vertex + total_vertices(
            lists.take(n),
        ),
        after_lists(st, scene, lists, n).start_index == st.start_index + total_elements(
            lists.take(n),
        ),
    decreases n,
{
    if n > 0 {
        let before = after_lists(st, scene, lists, n - 1);
        let list = lists[n - 1];
        let len = list.commands@.len() as int;
        if before.failed {
            lemma_failed_lists_stay(st, scene, lists, n - 1, n);
        }
        lemma_lists_numbers(st, scene, lists, n - 1);
        lemma_commands_numbers(before, scene, n - 1, list.vtx_buffer@.len(), list.commands@, len);
        assert(list.commands@.take(len) =~= list.commands@);
        lemma_sum_step(lists, vertex_weight(), n - 1);
        lemma_sum_step(lists, element_weight(), n - 1);
    } else {
        assert(lists.take(0) =~= Seq::<DrawList>::empty());
    }
}

} // verus!
