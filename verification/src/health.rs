//! The health-check endpoint: a fixed plain-text body, returned
//! unconditionally.

use vstd::prelude::*;

verus! {

/// The body of the health-check response. Every request to the health route
/// receives exactly this text with status 200.
pub fn hello_world() -> (r: &'static str)
    ensures
        r@ == "Hello World!"@,
{
    "Hello World!"
}

} // verus!
