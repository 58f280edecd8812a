use vstd::prelude::*;

verus! {

/// The coordinate system used by a fixed 2D view camera.
#[derive(Copy, Clone, Debug, PartialEq, Eq, Hash, Structural)]
pub enum CoordinateSystem2d {
    /// Origin at the center of the screen, Y axis pointing upward.
    ///
    /// This is the default coordinate system, following mathematical conventions.
    CenterUp,
    /// Origin at the top-left corner, Y axis pointing downward.
    ///
    /// Coordinates map directly to screen pixels if HiDPI is disabled.
    TopLeftDown,
}

impl Default for CoordinateSystem2d {
    /// The default coordinate system is `CenterUp`.
    fn default() -> (c: Self)
        ensures
            c == CoordinateSystem2d::CenterUp,
    {
        CoordinateSystem2d::CenterUp
    }
}

} // verus!
