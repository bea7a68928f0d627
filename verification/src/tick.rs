//! The capability of advancing a state through time.

use vstd::prelude::*;

verus! {

/// States that can tell what they will be after a time step.
///
/// Each implementation names its own precondition and its own meaning for
/// the step, so a caller through the trait keeps the full contract.
pub trait Tick {
    /// When a tick is allowed.
    spec fn tick_req(&self, dt: i128) -> bool;

    /// What the state after the tick is.
    spec fn tick_ens(&self, dt: i128, s: Self) -> bool where Self: Sized;

    /// The state of `self` after `dt` fixed-point seconds.
    fn tick(&self, dt: i128) -> (s: Self) where Self: Sized
        requires
            self.tick_req(dt),
        ensures
            self.tick_ens(dt, s),
    ;
}

} // verus!
