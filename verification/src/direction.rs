//! The direction of a transform.

use vstd::prelude::*;

verus! {

/// Whether a transform computes the forward or the inverse sum. The direction
/// fixes the sign of the exponent in the kernel and never changes once a
/// transform has been built.
#[derive(Clone, Copy, Debug, PartialEq, Eq, Structural)]
pub enum FftDirection {
    Forward,
    Inverse,
}

} // verus!
