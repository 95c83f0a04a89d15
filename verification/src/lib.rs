//! Reactive state controller for a home/lock-screen widget: a live clock,
//! an ambient shimmer animation, transient toast notifications on app
//! activation, and a startup accessibility switch that disables motion.
//!
//! The controller mutates a plain view model under a deterministic virtual
//! clock; the rendering layer drives it from an event loop and binds the
//! view-model fields.

pub mod apps;
pub mod clock;
pub mod controller;
pub mod policy;
pub mod timer;

use vstd::prelude::*;

verus! {

/// Equality of two string slices, stated over their character sequences.
pub fn str_eq(a: &str, b: &str) -> (r: bool)
    ensures
        r == (a@ == b@),
{
    let sa = String::from_str(a);
    let sb = String::from_str(b);
    sa == sb
}

} // verus!
