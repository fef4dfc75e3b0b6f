//! One frame's draw data: draw lists of vertices, indices and commands, with
//! the placement of the display.

use crate::sums::lemma_sum_prefix;
use crate::sums::lemma_sum_step;
use crate::sums::sum_of;
use crate::vertex::DrawIdx;
use crate::vertex::DrawVert;
use vstd::prelude::*;

verus! {

/// One renderable unit of a draw list.
#[derive(Clone, Copy, Debug, PartialEq, Eq)]
pub enum DrawCmd {
    /// A batch of `count` indices drawn as triangles, clipped to `clip_rect`
    /// (left, top, right, bottom, each the bit pattern of a single-precision
    /// number) with the texture `texture_id` bound.
    Elements { count: usize, clip_rect: [u32; 4], texture_id: usize },
    /// A request to set the pipeline state up again.
    ResetRenderState,
    /// A callback of the caller's, run in place of a draw.
    RawCallback,
}

/// One batch of vertices, indices and commands.
#[derive(Clone, Debug)]
pub struct DrawList {
    pub vtx_buffer: Vec<DrawVert>,
    pub idx_buffer: Vec<DrawIdx>,
    pub commands: Vec<DrawCmd>,
}

/// The largest vertex total a frame may carry: with the spare room a buffer
/// is given, its length in bytes still fits the device's 32-bit size.
pub const MAX_VERTEX_COUNT: usize = 178_951_970;

/// The largest index total a frame may carry: with the spare room a buffer is
/// given, its length in bytes still fits the device's 32-bit size.
pub const MAX_INDEX_COUNT: usize = 2_147_473_647;

/// The largest sum of element counts a frame may carry: the device takes a
/// draw's first index as an unsigned 32-bit number.
pub const MAX_ELEMENT_COUNT: usize = 0xffff_ffff;

/// The number of indices a command draws.
pub open spec fn element_count(cmd: DrawCmd) -> nat {
    match cmd {
        DrawCmd::Elements { count, .. } => count as nat,
        _ => 0,
    }
}

/// A list counted by its vertices.
pub open spec fn vertex_weight() -> spec_fn(DrawList) -> nat {
    |list: DrawList| list.vtx_buffer@.len()
}

/// A list counted by its indices.
pub open spec fn index_weight() -> spec_fn(DrawList) -> nat {
    |list: DrawList| list.idx_buffer@.len()
}

/// A command counted by the indices it draws.
pub open spec fn command_weight() -> spec_fn(DrawCmd) -> nat {
    |cmd: DrawCmd| element_count(cmd)
}

/// A list counted by the indices its commands draw.
pub open spec fn element_weight() -> spec_fn(DrawList) -> nat {
    |list: DrawList| sum_of(list.commands@, command_weight())
}

/// The number of vertices in all the lists together.
pub open spec fn total_vertices(lists: Seq<DrawList>) -> nat {
    sum_of(lists, vertex_weight())
}

/// The number of indices in all the lists together.
pub open spec fn total_indices(lists: Seq<DrawList>) -> nat {
    sum_of(lists, index_weight())
}

/// The number of indices that the commands of all the lists draw together.
pub open spec fn total_elements(lists: Seq<DrawList>) -> nat {
    sum_of(lists, element_weight())
}

/// Whether the lists' totals fit the numbers the device is given.
pub open spec fn fits_device(lists: Seq<DrawList>) -> bool {
    &&& total_vertices(lists) <= MAX_VERTEX_COUNT
    &&& total_indices(lists) <= MAX_INDEX_COUNT
    &&& total_elements(lists) <= MAX_ELEMENT_COUNT
}

/// Whether a bit pattern is that of a single-precision number below zero:
/// sign set, and neither negative zero nor a NaN.
pub open spec fn is_negative(bits: u32) -> bool {
    0x8000_0000 < bits <= 0xff80_0000
}

/// Tells whether `bits` is the pattern of a number below zero.
pub fn bits_negative(bits: u32) -> (negative: bool)
    ensures
        negative == is_negative(bits),
{
    0x8000_0000 < bits && bits <= 0xff80_0000
}

/// Adds up the element counts of a list's commands; nothing where the sum
/// is over the limit.
fn count_elements(commands: &Vec<DrawCmd>) -> (sum: Option<usize>)
    ensures
        match sum {
            Some(n) => n == sum_of(commands@, command_weight()) && n <= MAX_ELEMENT_COUNT,
            None => sum_of(commands@, command_weight()) > MAX_ELEMENT_COUNT,
        },
{
    let mut acc: usize = 0;
    let mut i: usize = 0;
    while i < commands.len()
        invariant
            i <= commands.len(),
            acc == sum_of(commands@.take(i as int), command_weight()),
            acc <= MAX_ELEMENT_COUNT,
        decreases commands.len() - i,
    {
        proof {
            lemma_sum_step(commands@, command_weight(), i as int);
            lemma_sum_prefix(commands@, command_weight(), i + 1);
        }
        match commands[i] {
            DrawCmd::Elements { count, .. } => {
                if count > MAX_ELEMENT_COUNT - acc {
                    return None;
                }
                acc = acc + count;
            },
            _ => {},
        }
        i = i + 1;
    }
    proof {
        assert(commands@.take(i as int) =~= commands@);
    }
    Some(acc)
}

/// The totals of a frame's lists: vertices and indices, or nothing where a
/// total does not fit the device.
fn measure(lists: &Vec<DrawList>) -> (totals: Option<(usize, usize)>)
    ensures
        totals is Some <==> fits_device(lists@),
        totals matches Some(t) ==> t.0 == total_vertices(lists@) && t.1 == total_indices(lists@),
{
    let mut vertices: usize = 0;
    let mut indices: usize = 0;
    let mut elements: usize = 0;
    let mut i: usize = 0;
    while i < lists.len()
        invariant
            i <= lists.len(),
            vertices == sum_of(lists@.take(i as int), vertex_weight()),
            indices == sum_of(lists@.take(i as int), index_weight()),
            elements == sum_of(lists@.take(i as int), element_weight()),
            vertices <= MAX_VERTEX_COUNT,
            indices <= MAX_INDEX_COUNT,
            elements <= MAX_ELEMENT_COUNT,
        decreases lists.len() - i,
    {
        proof {
            lemma_sum_step(lists@, vertex_weight(), i as int);
            lemma_sum_step(lists@, index_weight(), i as int);
            lemma_sum_step(lists@, element_weight(), i as int);
            lemma_sum_prefix(lists@, vertex_weight(), i + 1);
            lemma_sum_prefix(lists@, index_weight(), i + 1);
            lemma_sum_prefix(lists@, element_weight(), i + 1);
        }
        let list = &lists[i];
        if list.vtx_buffer.len() > MAX_VERTEX_COUNT - vertices {
            return None;
        }
        if list.idx_buffer.len() > MAX_INDEX_COUNT - indices {
            return None;
        }
        match count_elements(&list.commands) {
            None => {
                return None;
            },
            Some(n) => {
                if n > MAX_ELEMENT_COUNT - elements {
                    return None;
                }
                elements = elements + n;
            },
        }
        vertices = vertices + list.vtx_buffer.len();
        indices = indices + list.idx_buffer.len();
        i = i + 1;
    }
    proof {
        assert(lists@.take(i as int) =~= lists@);
    }
    Some((vertices, indices))
}

/// Where the display lies and how it maps to the framebuffer; each number is
/// the bit pattern of a single-precision value.
#[derive(Clone, Copy, Debug, PartialEq, Eq)]
pub struct Placement {
    /// Upper-left corner of the display.
    pub display_pos: [u32; 2],
    /// Width and height of the display.
    pub display_size: [u32; 2],
    /// Framebuffer pixels per unit of display size.
    pub framebuffer_scale: [u32; 2],
}

/// Whether a placement's display has a negative width or height.
pub open spec fn degenerate(placement: Placement) -> bool {
    is_negative(placement.display_size[0]) || is_negative(placement.display_size[1])
}

/// The draw data of one frame. Its totals fit the numbers the device takes.
pub struct DrawData {
    placement: Placement,
    draw_lists: Vec<DrawList>,
    total_vtx_count: usize,
    total_idx_count: usize,
}

impl DrawData {
    /// The totals are those of the lists, and they fit the device.
    #[verifier::type_invariant]
    spec fn inv(&self) -> bool {
        &&& fits_device(self.draw_lists@)
        &&& self.total_vtx_count == total_vertices(self.draw_lists@)
        &&& self.total_idx_count == total_indices(self.draw_lists@)
    }

    /// The frame's draw lists, in drawing order.
    pub closed spec fn lists(&self) -> Seq<DrawList> {
        self.draw_lists@
    }

    /// The frame's display placement.
    pub closed spec fn placed(&self) -> Placement {
        self.placement
    }

    /// Puts a frame together; nothing where the lists' totals do not fit the
    /// device.
    pub fn new(placement: Placement, draw_lists: Vec<DrawList>) -> (data: Option<DrawData>)
        ensures
            data is Some <==> fits_device(draw_lists@),
            data matches Some(d) ==> d.lists() == draw_lists@ && d.placed() == placement,
    {
        match measure(&draw_lists) {
            None => None,
            Some((total_vtx_count, total_idx_count)) => Some(
                DrawData { placement, draw_lists, total_vtx_count, total_idx_count },
            ),
        }
    }

    /// The display placement.
    pub fn placement(&self) -> (placement: Placement)
        ensures
            placement == self.placed(),
    {
        self.placement
    }

    /// The draw lists.
    pub fn draw_lists(&self) -> (lists: &Vec<DrawList>)
        ensures
            lists@ == self.lists(),
            fits_device(lists@),
    {
        proof {
            use_type_invariant(self);
        }
        &self.draw_lists
    }

    /// The number of vertices in all the lists together.
    pub fn total_vtx_count(&self) -> (total: usize)
        ensures
            total == total_vertices(self.lists()),
            total <= MAX_VERTEX_COUNT,
    {
        proof {
            use_type_invariant(self);
        }
        self.total_vtx_count
    }

    /// The number of indices in all the lists together.
    pub fn total_idx_count(&self) -> (total: usize)
        ensures
            total == total_indices(self.lists()),
            total <= MAX_INDEX_COUNT,
    {
        proof {
            use_type_invariant(self);
        }
        self.total_idx_count
    }

    /// Whether the display has a negative width or height, so that there is
    /// nothing to draw.
    pub fn is_degenerate(&self) -> (none: bool)
        ensures
            none == degenerate(self.placed()),
    {
        bits_negative(self.placement.display_size[0]) || bits_negative(
            self.placement.display_size[1],
        )
    }
}

} // verus!
