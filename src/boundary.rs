use vstd::prelude::*;

verus! {

/// What the motion step does to an agent whose new position may lie outside
/// the arena.
#[derive(Clone, Copy, Debug, PartialEq, Eq, Structural)]
pub struct BoundaryAction {
    /// Compose the orientation with a half turn about the out-of-plane axis.
    pub flip: bool,
    /// Scale the x coordinate by the damping factor.
    pub damp_x: bool,
    /// Scale the y coordinate by the damping factor.
    pub damp_y: bool,
}

/// Decides the boundary reaction from which axes are out of bounds: the
/// agent turns around when either axis is out, and each axis that is out is
/// damped.
pub fn boundary_action(x_out: bool, y_out: bool) -> (r: BoundaryAction)
    ensures
        r.flip == (x_out || y_out),
        r.damp_x == x_out,
        r.damp_y == y_out,
{
    BoundaryAction { flip: x_out || y_out, damp_x: x_out, damp_y: y_out }
}

} // verus!
