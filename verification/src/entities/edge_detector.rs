use vstd::prelude::*;

verus! {

/// Watches a downward ray and reports when it stops touching ground.
pub struct EdgeDetector {
    /// The ray touched ground at the last check.
    pub colliding: bool,
}

impl EdgeDetector {
    /// A detector that starts from the ray's current contact.
    pub fn new(colliding: bool) -> (d: Self)
        ensures
            d.colliding == colliding,
    {
        EdgeDetector { colliding }
    }

    /// Records the ray's contact in this physics frame; an edge is reported
    /// exactly when the ray touched ground last time and does not now.
    pub fn physics_process(&mut self, colliding_now: bool) -> (edge: bool)
        ensures
            edge == (old(self).colliding && !colliding_now),
            final(self).colliding == colliding_now,
    {
        let edge = !colliding_now && self.colliding;
        self.colliding = colliding_now;
        edge
    }
}

} // verus!
