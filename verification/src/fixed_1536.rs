//! The transform of length 1536.

use vstd::prelude::*;
use num_complex::Complex;
use core::marker::PhantomData;
use crate::direction::FftDirection;
use crate::transform::Fft;

verus! {

/// A transform of exactly 1536 samples. It holds the one backend it was built
/// with and hands every call to it.
pub struct Fft1536<T, K: Fft<T>> {
    inner: K,
    direction: FftDirection,
    element: PhantomData<T>,
}

impl<T, K: Fft<T>> Fft1536<T, K> {
    #[verifier::type_invariant]
    spec fn holds_matching_backend(self) -> bool {
        &&& self.inner.spec_len() == 1536
        &&& self.inner.spec_direction() == self.direction
    }

    /// The backend that calls are handed to.
    pub closed spec fn inner_transform(self) -> K {
        self.inner
    }

    /// Builds the transform of length 1536 in the direction `direction` around
    /// `inner`, the planner's plan for that length and direction. From here
    /// on `inner` is the backend, and it is never exchanged.
    pub fn new(direction: FftDirection, inner: K) -> (fft: Self)
        requires
            inner.spec_len() == 1536,
            inner.spec_direction() == direction,
        ensures
            fft.inner_transform() == inner,
            fft.spec_len() == 1536,
            fft.spec_direction() == direction,
    {
        Fft1536 { inner, direction, element: PhantomData }
    }

    /// Builds the transform as `new` does where `inner` has the length 1536
    /// and the direction `direction`, and gives `None` where it has not.
    pub fn try_new(direction: FftDirection, inner: K) -> (built: Option<Self>)
        ensures
            built is Some <==> inner.spec_len() == 1536 && inner.spec_direction() == direction,
            built matches Some(fft) ==> fft.inner_transform() == inner && fft.spec_len() == 1536
                && fft.spec_direction() == direction,
    {
        if inner.len() == 1536 && inner.fft_direction() == direction {
            Some(Self::new(direction, inner))
        } else {
            None
        }
    }
}

impl<T, K: Fft<T>> Fft<T> for Fft1536<T, K> {
    open spec fn spec_len(&self) -> nat {
        1536
    }

    closed spec fn spec_direction(&self) -> FftDirection {
        self.direction
    }

    open spec fn spec_inplace_scratch_len(&self) -> nat {
        self.inner_transform().spec_inplace_scratch_len()
    }

    open spec fn spec_outofplace_scratch_len(&self) -> nat {
        self.inner_transform().spec_outofplace_scratch_len()
    }

    open spec fn spec_immutable_scratch_len(&self) -> nat {
        self.inner_transform().spec_immutable_scratch_len()
    }

    open spec fn spec_transform(&self, input: Seq<Complex<T>>) -> Seq<Complex<T>> {
        self.inner_transform().spec_transform(input)
    }

    fn len(&self) -> (n: usize) {
        1536
    }

    fn fft_direction(&self) -> (direction: FftDirection) {
        self.direction
    }

    fn process(&self, buffer: &mut [Complex<T>]) {
        proof {
            use_type_invariant(self);
        }
        self.inner.process(buffer);
    }

    fn process_with_scratch(&self, buffer: &mut [Complex<T>], scratch: &mut [Complex<T>]) {
        proof {
            use_type_invariant(self);
        }
        self.inner.process_with_scratch(buffer, scratch);
    }

    fn process_outofplace_with_scratch(
        &self,
        input: &mut [Complex<T>],
        output: &mut [Complex<T>],
        scratch: &mut [Complex<T>],
    ) {
        proof {
            use_type_invariant(self);
        }
        self.inner.process_outofplace_with_scratch(input, output, scratch);
    }

    fn process_immutable_with_scratch(
        &self,
        input: &[Complex<T>],
        output: &mut [Complex<T>],
        scratch: &mut [Complex<T>],
    ) {
        proof {
            use_type_invariant(self);
        }
        self.inner.process_immutable_with_scratch(input, output, scratch);
    }

    fn get_inplace_scratch_len(&self) -> (n: usize) {
        self.inner.get_inplace_scratch_len()
    }

    fn get_outofplace_scratch_len(&self) -> (n: usize) {
        self.inner.get_outofplace_scratch_len()
    }

    fn get_immutable_scratch_len(&self) -> (n: usize) {
        self.inner.get_immutable_scratch_len()
    }
}

} // verus!
