//! ResizePlanner: derive the target width/height for one image from the
//! requested resize mode, the image's natural dimensions, and its EXIF
//! orientation.

use vstd::prelude::*;
use crate::options::Resize;

verus! {

/// Target dimensions handed to the codec. At most one side is constrained;
/// the codec preserves the aspect ratio for the other.
#[derive(Copy, Clone, PartialEq, Eq, Debug)]
pub struct ResizeTarget {
    pub width: Option<u32>,
    pub height: Option<u32>,
}

/// Orientation values 5 to 8 denote a 90-degree-rotated layout, for which
/// width and height are swapped; every other value is identity.
pub open spec fn spec_is_rotated(orientation: u32) -> bool {
    5 <= orientation <= 8
}

/// Width after orientation correction.
pub open spec fn spec_oriented_width(natural_width: u32, natural_height: u32, orientation: u32) -> u32 {
    if spec_is_rotated(orientation) {
        natural_height
    } else {
        natural_width
    }
}

/// Height after orientation correction.
pub open spec fn spec_oriented_height(natural_width: u32, natural_height: u32, orientation: u32) -> u32 {
    if spec_is_rotated(orientation) {
        natural_width
    } else {
        natural_height
    }
}

/// The resize rule, first match wins: an explicit width or height is taken
/// as is; a long-edge request constrains whichever oriented side is larger
/// (width on a tie); a short-edge request constrains whichever is smaller
/// (width on a tie); no request constrains nothing.
pub open spec fn spec_plan(
    resize: Resize,
    natural_width: u32,
    natural_height: u32,
    orientation: u32,
) -> ResizeTarget {
    let w = spec_oriented_width(natural_width, natural_height, orientation);
    let h = spec_oriented_height(natural_width, natural_height, orientation);
    if resize.width is Some {
        ResizeTarget { width: resize.width, height: Option::None }
    } else if resize.height is Some {
        ResizeTarget { width: Option::None, height: resize.height }
    } else if resize.long_edge is Some {
        if w >= h {
            ResizeTarget { width: resize.long_edge, height: Option::None }
        } else {
            ResizeTarget { width: Option::None, height: resize.long_edge }
        }
    } else if resize.short_edge is Some {
        if w <= h {
            ResizeTarget { width: resize.short_edge, height: Option::None }
        } else {
            ResizeTarget { width: Option::None, height: resize.short_edge }
        }
    } else {
        ResizeTarget { width: Option::None, height: Option::None }
    }
}

/// Compute the resize target for one image.
///
/// A rotated orientation (5 to 8) swaps the dimensions before the rule is
/// applied, which is the same as planning for the swapped image with the
/// identity orientation; any other orientation leaves them unchanged. When
/// exactly one mode is requested, exactly one side of the result is set.
pub fn plan_resize(
    resize: &Resize,
    natural_width: u32,
    natural_height: u32,
    orientation: u32,
) -> (r: ResizeTarget)
    requires
        resize.well_formed(),
    ensures
        r == spec_plan(*resize, natural_width, natural_height, orientation),
        spec_is_rotated(orientation) ==> r == spec_plan(
            *resize,
            natural_height,
            natural_width,
            1,
        ),
        !spec_is_rotated(orientation) ==> r == spec_plan(
            *resize,
            natural_width,
            natural_height,
            1,
        ),
        resize.spec_count_set() == 1 ==> ((r.width is Some) != (r.height is Some)),
        resize.spec_count_set() == 0 ==> r.width is None && r.height is None,
{
    let rotated = 5 <= orientation && orientation <= 8;
    let w = if rotated { natural_height } else { natural_width };
    let h = if rotated { natural_width } else { natural_height };
    if resize.width.is_some() {
        ResizeTarget { width: resize.width, height: Option::None }
    } else if resize.height.is_some() {
        ResizeTarget { width: Option::None, height: resize.height }
    } else if resize.long_edge.is_some() {
        if w >= h {
            ResizeTarget { width: resize.long_edge, height: Option::None }
        } else {
            ResizeTarget { width: Option::None, height: resize.long_edge }
        }
    } else if resize.short_edge.is_some() {
        if w <= h {
            ResizeTarget { width: resize.short_edge, height: Option::None }
        } else {
            ResizeTarget { width: Option::None, height: resize.short_edge }
        }
    } else {
        ResizeTarget { width: Option::None, height: Option::None }
    }
}

} // verus!
