//! Vertices as the GUI hands them over and as the device reads them.
//!
//! Coordinates are carried as the bit patterns of single-precision numbers:
//! they are copied, never computed with.

use vstd::prelude::*;

verus! {

/// An index into a draw list's vertices.
pub type DrawIdx = u16;

/// A vertex of the GUI: position, texture coordinate, and a colour whose
/// bytes are red, green, blue, alpha.
#[derive(Clone, Copy, Debug, PartialEq, Eq)]
pub struct DrawVert {
    pub pos: [u32; 2],
    pub uv: [u32; 2],
    pub col: [u8; 4],
}

/// A vertex of the device: position with depth, a colour whose bytes are
/// blue, green, red, alpha, and the texture coordinate.
#[derive(Clone, Copy, Debug, PartialEq, Eq)]
pub struct CustomVertex {
    pub pos: [u32; 3],
    pub col: [u8; 4],
    pub uv: [u32; 2],
}

/// The channel order the device expects for a colour given in GUI order: the
/// first and third bytes change places.
pub open spec fn swizzle(col: Seq<u8>) -> Seq<u8>
    recommends
        col.len() == 4,
{
    seq![col[2], col[1], col[0], col[3]]
}

/// The device vertex for a GUI vertex: same position at depth zero, same
/// texture coordinate, colour in device order.
pub open spec fn device_vertex(v: DrawVert) -> CustomVertex {
    CustomVertex {
        pos: [v.pos[0], v.pos[1], 0u32],
        col: [v.col[2], v.col[1], v.col[0], v.col[3]],
        uv: [v.uv[0], v.uv[1]],
    }
}

/// Reordering twice gives the colour back: the same exchange leads from
/// device order to GUI order.
pub proof fn law_swizzle_is_involution(col: Seq<u8>)
    requires
        col.len() == 4,
    ensures
        swizzle(col) == seq![col[2], col[1], col[0], col[3]],
        swizzle(swizzle(col)) == col,
{
    assert(swizzle(swizzle(col)) =~= col);
}

/// Reorders a colour from GUI order to device order.
pub fn convert_color(col: [u8; 4]) -> (out: [u8; 4])
    ensures
        out@ == swizzle(col@),
{
    [col[2], col[1], col[0], col[3]]
}

/// Converts one vertex to the device's format.
pub fn convert_vertex(v: &DrawVert) -> (out: CustomVertex)
    ensures
        out == device_vertex(*v),
        out.pos@ == seq![v.pos[0], v.pos[1], 0u32],
        out.col@ == swizzle(v.col@),
        out.uv@ == v.uv@,
{
    let out = CustomVertex {
        pos: [v.pos[0], v.pos[1], 0],
        col: convert_color(v.col),
        uv: [v.uv[0], v.uv[1]],
    };
    proof {
        let want = device_vertex(*v);
        assert(out.pos =~= want.pos);
        assert(out.col =~= want.col);
        assert(out.uv =~= want.uv);
    }
    out
}

} // verus!
