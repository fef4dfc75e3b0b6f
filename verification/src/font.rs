//! The font atlas: its pixels, and how they are laid into a device texture.

use vstd::prelude::*;

verus! {

/// The font atlas as pixels: rows of `width` pixels, four bytes each, one
/// row after the other without gaps.
#[derive(Debug)]
pub struct FontTexture {
    pub width: u32,
    pub height: u32,
    pub data: Vec<u8>,
}

/// Takes the pixels the GUI built for its font atlas, for upload to a device
/// texture of the same width and height; nothing where the pixels are not
/// `width` by `height` at four bytes each.
pub fn create_font_texture(width: u32, height: u32, data: Vec<u8>) -> (texture: Option<
    FontTexture,
>)
    ensures
        texture is Some <==> data@.len() == width * 4 * height,
        texture matches Some(t) ==> t.width == width && t.height == height && t.data@ == data@,
{
    assert(width * 4 * height <= 0xffff_ffff * 4 * 0xffff_ffff) by (nonlinear_arith)
        requires
            width <= 0xffff_ffff,
            height <= 0xffff_ffff,
    ;
    let expected: u128 = (width as u128) * 4 * (height as u128);
    if data.len() as u128 == expected {
        Some(FontTexture { width, height, data })
    } else {
        None
    }
}

/// One row's copy: `len` bytes from offset `src` of the atlas pixels to
/// offset `dst` of the locked texture.
#[derive(Clone, Copy, Debug, PartialEq, Eq)]
pub struct RowCopy {
    pub src: usize,
    pub dst: usize,
    pub len: usize,
}

/// The copy of row `y` of an atlas `width` pixels wide into a texture whose
/// rows lie `pitch` bytes apart.
pub open spec fn row_copy(width: u32, pitch: usize, y: int) -> RowCopy {
    RowCopy { src: (4 * width * y) as usize, dst: (pitch * y) as usize, len: (4 * width) as usize }
}

/// Whether both the atlas and the texture have sizes in bytes that are
/// machine numbers.
pub open spec fn rows_fit(width: u32, height: u32, pitch: usize) -> bool {
    4 * width * height <= usize::MAX && pitch * height <= usize::MAX
}

/// The copies that lay an atlas of `width` by `height` pixels into a locked
/// texture with rows `pitch` bytes apart, top row first; nothing where a size
/// is no machine number.
pub fn row_copies(width: u32, height: u32, pitch: usize) -> (rows: Option<Vec<RowCopy>>)
    ensures
        rows is Some <==> rows_fit(width, height, pitch),
        rows matches Some(r) ==> r@.len() == height && forall|y: int|
            0 <= y < height ==> #[trigger] r@[y] == row_copy(width, pitch, y),
{
    assert(4 * width * height <= 4 * 0xffff_ffff * 0xffff_ffff) by (nonlinear_arith)
        requires
            width <= 0xffff_ffff,
            height <= 0xffff_ffff,
    ;
    assert(pitch * height <= 0xffff_ffff_ffff_ffff * 0xffff_ffff) by (nonlinear_arith)
        requires
            pitch <= 0xffff_ffff_ffff_ffff,
            height <= 0xffff_ffff,
    ;
    let source: u128 = 4 * (width as u128) * (height as u128);
    let target: u128 = (pitch as u128) * (height as u128);
    if source > usize::MAX as u128 || target > usize::MAX as u128 {
        return None;
    }
    let mut rows: Vec<RowCopy> = Vec::new();
    if height == 0 {
        return Some(rows);
    }
    assert(4 * width <= 4 * width * height) by (nonlinear_arith)
        requires
            height >= 1,
    ;
    let len: usize = (4 * (width as u64)) as usize;
    let mut src: usize = 0;
    let mut dst: usize = 0;
    let mut y: u32 = 0;
    while y < height
        invariant
            y <= height,
            len == 4 * width,
            4 * width * height <= usize::MAX,
            pitch * height <= usize::MAX,
            src == 4 * width * y,
            dst == pitch * y,
            rows@.len() == y,
            forall|k: int| 0 <= k < y ==> #[trigger] rows@[k] == row_copy(width, pitch, k),
        decreases height - y,
    {
        rows.push(RowCopy { src, dst, len });
        assert(4 * width * (y + 1) <= 4 * width * height && 4 * width * (y + 1) == 4 * width * y
            + 4 * width) by (nonlinear_arith)
            requires
                y + 1 <= height,
        ;
        assert(pitch * (y + 1) <= pitch * height && pitch * (y + 1) == pitch * y + pitch)
            by (nonlinear_arith)
            requires
                y + 1 <= height,
        ;
        src = src + len;
        dst = dst + pitch;
        y = y + 1;
    }
    Some(rows)
}

} // verus!
