//! Integer geometry of the picture: rotation and the size of the media in pixels.

use vstd::prelude::*;

verus! {

/// Whether a rotation by `degrees` turns the picture on its side.
pub open spec fn is_quarter_turn(degrees: u32) -> bool {
    degrees == 90 || degrees == 270
}

/// The size of the area that the picture is drawn in after rotation: width and height swap
/// for a quarter turn.
pub open spec fn rotated_size(degrees: u32, width: i32, height: i32) -> (i32, i32) {
    if is_quarter_turn(degrees) {
        (height, width)
    } else {
        (width, height)
    }
}

/// The width and height of the drawing area after rotating the widget's `width` × `height`.
pub fn effective_dimensions(degrees: u32, width: i32, height: i32) -> (r: (i32, i32))
    ensures
        r == rotated_size(degrees, width, height),
{
    if degrees == 90 || degrees == 270 {
        (height, width)
    } else {
        (width, height)
    }
}

/// The pixel size of the media from its intrinsic size; `None` unless both are positive.
pub fn paintable_dimensions(width: i32, height: i32) -> (r: Option<(u32, u32)>)
    ensures
        match r {
            Some((w, h)) => width > 0 && height > 0 && w == width && h == height,
            None => width <= 0 || height <= 0,
        },
{
    if width <= 0 || height <= 0 {
        return None;
    }
    Some((width as u32, height as u32))
}

/// The intrinsic side of the media that gives the picture's natural size along an axis: the
/// width across and the height down, swapped for a quarter turn.
pub fn measured_side(horizontal: bool, degrees: u32, width: i32, height: i32) -> (r: i32)
    ensures
        r == if horizontal != is_quarter_turn(degrees) {
            width
        } else {
            height
        },
{
    let quarter = degrees == 90 || degrees == 270;
    if horizontal {
        if quarter {
            height
        } else {
            width
        }
    } else {
        if quarter {
            width
        } else {
            height
        }
    }
}

/// Rotating twice by a quarter turn gives back the size it started from.
pub proof fn law_quarter_turn_swaps_back(degrees: u32, width: i32, height: i32)
    ensures
        rotated_size(degrees, rotated_size(degrees, width, height).0, rotated_size(degrees, width, height).1) == (width, height),
{
}

} // verus!
