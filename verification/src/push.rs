//! The capability of taking an instantaneous velocity change.

use vstd::prelude::*;
use crate::vec3::Vec3Fx;

verus! {

/// States that can absorb an instantaneous velocity delta (a maneuver).
pub trait Push {
    /// When a push is allowed.
    spec fn push_req(&self, dv: Vec3Fx) -> bool;

    /// What the state after the push is.
    spec fn push_ens(&self, dv: Vec3Fx, s: Self) -> bool where Self: Sized;

    /// The state of `self` after adding `dv` to its velocity.
    fn push(&self, dv: Vec3Fx) -> (s: Self) where Self: Sized
        requires
            self.push_req(dv),
        ensures
            self.push_ens(dv, s),
    ;
}

} // verus!
