//! The spatial state a renderer consumes for every entity.

use vstd::prelude::*;

verus! {

/// Position and scale of a rendered entity.
///
/// `x_milli` and `y_milli` are in milli-units; `z_layer` is pure paint
/// order (not physics); `scale_milli` is the uniform sprite scale in
/// thousandths.
#[derive(Clone, Copy, Debug, PartialEq, Eq, Structural)]
pub struct Transform {
    /// Horizontal position.
    pub x_milli: i64,
    /// Vertical position.
    pub y_milli: i64,
    /// Draw-order layer; higher layers paint over lower ones.
    pub z_layer: i64,
    /// Uniform scale factor, in thousandths.
    pub scale_milli: i64,
}

} // verus!
