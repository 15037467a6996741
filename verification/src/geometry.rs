use vstd::prelude::*;

use crate::errors::GenericError;

verus! {

/// A screen-space rectangle: signed origin, unsigned size. Also used for the
/// work area (the desktop region excluding panels and docks).
#[derive(Clone, Copy, Debug, PartialEq, Eq, Structural)]
pub struct Dimensions {
    pub x: i16,
    pub y: i16,
    pub width: u16,
    pub height: u16,
}

/// The thickness of the decoration the window manager draws around a
/// window's content area, one value per edge.
#[derive(Clone, Copy, Debug, PartialEq, Eq, Structural)]
pub struct FrameExtents {
    pub left: u32,
    pub right: u32,
    pub top: u32,
    pub bottom: u32,
}

/// Half of the work area's width, by integer division.
pub open spec fn spec_half_width(work: Dimensions) -> u16 {
    work.width / 2
}

/// The rectangle covering the left half of the work area.
pub open spec fn spec_left_rect(work: Dimensions) -> Dimensions {
    Dimensions { x: work.x, y: work.y, width: spec_half_width(work), height: work.height }
}

/// The rectangle covering the right half of the work area.
///
/// Its x origin is the bare half-width, not offset by the work area's own
/// x origin — a known limitation on multi-head setups where the work area
/// does not start at x = 0, kept deliberately and pinned by a test.
pub open spec fn spec_right_rect(work: Dimensions) -> Dimensions {
    Dimensions {
        x: spec_half_width(work) as i16,
        y: work.y,
        width: spec_half_width(work),
        height: work.height,
    }
}

pub fn left_rect(work: Dimensions) -> (r: Dimensions)
    ensures
        r == spec_left_rect(work),
{
    Dimensions { x: work.x, y: work.y, width: work.width / 2, height: work.height }
}

pub fn right_rect(work: Dimensions) -> (r: Dimensions)
    ensures
        r == spec_right_rect(work),
{
    let hw: u16 = work.width / 2;
    Dimensions { x: hw as i16, y: work.y, width: hw, height: work.height }
}

/// The outer frame geometry of a window, from its content geometry as the
/// windowing system reports it (origin already translated to root
/// coordinates) and its frame extents: the origin backs up by twice the
/// left and top decoration, the size grows by the decoration on each axis.
pub fn outer_geometry(x: i16, y: i16, width: u16, height: u16, ext: FrameExtents) -> (r:
    Dimensions)
    requires
        i16::MIN <= x - 2 * (ext.left as int),
        i16::MIN <= y - 2 * (ext.top as int),
        width + ext.left + ext.right <= u16::MAX,
        height + ext.top + ext.bottom <= u16::MAX,
    ensures
        r.x == x - 2 * (ext.left as int),
        r.y == y - 2 * (ext.top as int),
        r.width == width + ext.left + ext.right,
        r.height == height + ext.top + ext.bottom,
{
    let rx = x as i32 - 2 * (ext.left as i32);
    let ry = y as i32 - 2 * (ext.top as i32);
    let rw = width as u32 + ext.left + ext.right;
    let rh = height as u32 + ext.top + ext.bottom;
    Dimensions { x: rx as i16, y: ry as i16, width: rw as u16, height: rh as u16 }
}

/// The content size that a move/resize request must ask for so that the
/// outer frame comes out at the given size: the decoration is subtracted
/// again on each axis.
pub fn inner_size(width: u16, height: u16, ext: FrameExtents) -> (r: (u16, u16))
    requires
        ext.left + ext.right <= width,
        ext.top + ext.bottom <= height,
    ensures
        r.0 == width - ext.left - ext.right,
        r.1 == height - ext.top - ext.bottom,
{
    let w = width as u32 - (ext.left + ext.right);
    let h = height as u32 - (ext.top + ext.bottom);
    (w as u16, h as u16)
}

/// Picks the work area of the current desktop out of the per-desktop list
/// the windowing system reports.
pub fn select_work_area(areas: &Vec<Dimensions>, idx: usize) -> (r: Result<
    Dimensions,
    GenericError,
>)
    ensures
        idx < areas@.len() ==> (r matches Ok(d) && d == areas@[idx as int]),
        idx >= areas@.len() ==> (r matches Err(e) && e@
            == "couldn't find work area for screen"@),
{
    if idx < areas.len() {
        Ok(areas[idx])
    } else {
        Err(GenericError::new("couldn't find work area for screen"))
    }
}

} // verus!
