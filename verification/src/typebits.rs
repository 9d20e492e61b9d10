//! Decoding of the packed hit-object type byte.
//!
//! The byte carries three independent pieces of information:
//! - a shape selector in bits 0, 1, 3 and 7 (circle, slider, spinner, hold
//!   note), of which exactly one must be set;
//! - a new-combo flag in bit 2;
//! - a three-bit color-skip count in bits 4 to 6.

use vstd::prelude::*;

verus! {

/// Mask keeping only the four shape-selector bits (0, 1, 3 and 7).
pub const SHAPE_MASK: u8 = 139;

/// The four mutually exclusive hit-object shapes a type byte can select.
#[derive(Clone, Copy, Debug, PartialEq, Eq, Structural)]
pub enum Shape {
    Circle,
    Slider,
    Spinner,
    Hold,
}

/// The shape selected by a type byte, when its masked shape bits are exactly
/// one of the four legal single-bit values.
pub open spec fn spec_shape_of(byte: u8) -> Option<Shape> {
    let m = byte & SHAPE_MASK;
    if m == 1 {
        Some(Shape::Circle)
    } else if m == 2 {
        Some(Shape::Slider)
    } else if m == 8 {
        Some(Shape::Spinner)
    } else if m == 128 {
        Some(Shape::Hold)
    } else {
        None
    }
}

/// Whether the new-combo flag (bit 2) is set in a type byte.
pub fn new_combo(objtype: u8) -> (r: bool)
    ensures
        r == ((objtype & 4) != 0),
{
    objtype & 4 != 0
}

/// The color-skip count stored in bits 4 to 6 of a type byte; always in 0..=7.
pub fn color_skip(objtype: u8) -> (r: u8)
    ensures
        r == ((objtype >> 4) & 7),
        r <= 7,
{
    proof {
        assert((objtype >> 4) & 7 <= 7) by (bit_vector);
    }
    (objtype >> 4) & 7
}

/// The shape selected by a type byte, or `None` when the masked shape bits do
/// not name exactly one shape.
pub fn shape_of(objtype: u8) -> (r: Option<Shape>)
    ensures
        r == spec_shape_of(objtype),
{
    match objtype & SHAPE_MASK {
        1 => Some(Shape::Circle),
        2 => Some(Shape::Slider),
        8 => Some(Shape::Spinner),
        128 => Some(Shape::Hold),
        _ => None,
    }
}

/// A type byte selects a shape exactly when, after masking with the
/// shape-selector mask, exactly one of the four shape bits (0, 1, 3, 7) is
/// set; a masked value with zero or several bits set selects none.
pub proof fn lemma_shape_mask_exactly_one_bit(byte: u8)
    ensures
        spec_shape_of(byte) is Some <==> (byte & 1) + ((byte >> 1) & 1) + ((byte >> 3) & 1) + (
        (byte >> 7) & 1) == 1,
{
    assert(((byte & 139 == 1) || (byte & 139 == 2) || (byte & 139 == 8) || (byte & 139 == 128))
        <==> (byte & 1) + ((byte >> 1) & 1) + ((byte >> 3) & 1) + ((byte >> 7) & 1) == 1)
        by (bit_vector);
}

} // verus!
