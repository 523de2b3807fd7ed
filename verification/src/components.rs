use vstd::prelude::*;

verus! {

/// Marks an entity that the arrow keys steer.
#[derive(Clone, Copy, Debug, PartialEq, Eq, Structural)]
pub struct Controllable;

impl Default for Controllable {
    fn default() -> (r: Self)
        ensures
            r == Controllable,
    {
        Controllable
    }
}

/// Marks an entity that is drawn on the screen.
#[derive(Clone, Copy, Debug, PartialEq, Eq, Structural)]
pub struct Renderable;

impl Default for Renderable {
    fn default() -> (r: Self)
        ensures
            r == Renderable,
    {
        Renderable
    }
}

} // verus!
