//! The element type of signal and scratch buffers.

use vstd::prelude::*;

verus! {

/// `num_complex::Complex<T>`, one complex sample with real and imaginary part
/// of type `T`. The dispatch layer only carries samples from a caller's buffer
/// to a backend and back, so nothing is claimed of what a sample holds.
#[verifier::external_type_specification]
#[verifier::external_body]
#[verifier::reject_recursive_types(T)]
pub struct ExComplex<T>(num_complex::Complex<T>);

} // verus!
