use crate::math::{Point3, Vec3};
use vstd::prelude::*;

verus! {

/// An oriented frame, held by what fixes it: the point it stands at and the
/// direction it looks in.
#[derive(Clone, Copy, Debug, PartialEq, Eq, Structural)]
pub struct Orient {
    pub pos: Point3,
    pub forward: Vec3,
}

impl Orient {
    /// The frame at `pos` that looks along `forward`.
    pub fn new(pos: Point3, forward: Vec3) -> (frame: Orient)
        ensures
            frame == (Orient { pos, forward }),
    {
        Orient { pos, forward }
    }
}

} // verus!
