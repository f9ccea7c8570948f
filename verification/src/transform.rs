//! The transform interface: the operations that every implementation offers,
//! whichever backend stands behind it.

use vstd::prelude::*;
use num_complex::Complex;
use crate::direction::FftDirection;

verus! {

/// Whether a buffer of `buffer_len` samples splits into whole chunks of
/// `len` samples, which every operation of the interface demands.
pub open spec fn whole_chunks(buffer_len: nat, len: nat) -> bool {
    len > 0 && buffer_len % len == 0
}

/// A transform of one fixed length and direction over samples of type `T`.
///
/// An instance is immutable: its length, direction, scratch demands and the
/// result it gives for an input never change between calls. A call whose
/// buffer or scratch lengths break a demand below is a programming error of
/// the caller, so the demands are preconditions and not recoverable failures.
///
/// The six `spec_` functions are the model of an instance, and the contracts
/// of the operations are stated over them. An implementation with proofs
/// defines them. Each has a default that leaves its value open, so that an
/// implementation without proofs writes the operations alone; what is proved
/// of a transform built around such an implementation holds as far as the
/// implementation keeps the contracts below.
pub trait Fft<T> {
    /// The number of samples in one transform.
    open spec fn spec_len(&self) -> nat {
        arbitrary()
    }

    /// The direction this instance was built for.
    open spec fn spec_direction(&self) -> FftDirection {
        arbitrary()
    }

    /// The least scratch length that the in-place operation accepts.
    open spec fn spec_inplace_scratch_len(&self) -> nat {
        arbitrary()
    }

    /// The least scratch length that the out-of-place operation accepts.
    open spec fn spec_outofplace_scratch_len(&self) -> nat {
        arbitrary()
    }

    /// The least scratch length that the operation on a read-only input
    /// accepts.
    open spec fn spec_immutable_scratch_len(&self) -> nat {
        arbitrary()
    }

    /// What this instance computes from the samples `input`.
    open spec fn spec_transform(&self, input: Seq<Complex<T>>) -> Seq<Complex<T>> {
        arbitrary()
    }

    /// The number of samples in one transform.
    fn len(&self) -> (n: usize)
        ensures
            n == self.spec_len(),
    ;

    /// The direction this instance was built for.
    fn fft_direction(&self) -> (direction: FftDirection)
        ensures
            direction == self.spec_direction(),
    ;

    /// Transforms `buffer` in place, with scratch space of the instance's own.
    fn process(&self, buffer: &mut [Complex<T>])
        requires
            whole_chunks(old(buffer)@.len(), self.spec_len()),
        ensures
            final(buffer)@ == self.spec_transform(old(buffer)@),
            final(buffer)@.len() == old(buffer)@.len(),
    ;

    /// Transforms `buffer` in place, using the caller's `scratch`.
    fn process_with_scratch(&self, buffer: &mut [Complex<T>], scratch: &mut [Complex<T>])
        requires
            whole_chunks(old(buffer)@.len(), self.spec_len()),
            old(scratch)@.len() >= self.spec_inplace_scratch_len(),
        ensures
            final(buffer)@ == self.spec_transform(old(buffer)@),
            final(buffer)@.len() == old(buffer)@.len(),
            final(scratch)@.len() == old(scratch)@.len(),
    ;

    /// Writes the transform of `input` to `output`. `input` may be used as
    /// work space: it keeps its length, and nothing else is said of it.
    fn process_outofplace_with_scratch(
        &self,
        input: &mut [Complex<T>],
        output: &mut [Complex<T>],
        scratch: &mut [Complex<T>],
    )
        requires
            whole_chunks(old(input)@.len(), self.spec_len()),
            old(output)@.len() == old(input)@.len(),
            old(scratch)@.len() >= self.spec_outofplace_scratch_len(),
        ensures
            final(output)@ == self.spec_transform(old(input)@),
            final(output)@.len() == old(output)@.len(),
            final(input)@.len() == old(input)@.len(),
            final(scratch)@.len() == old(scratch)@.len(),
    ;

    /// Writes the transform of `input` to `output` and leaves `input` as it
    /// is.
    fn process_immutable_with_scratch(
        &self,
        input: &[Complex<T>],
        output: &mut [Complex<T>],
        scratch: &mut [Complex<T>],
    )
        requires
            whole_chunks(input@.len(), self.spec_len()),
            old(output)@.len() == input@.len(),
            old(scratch)@.len() >= self.spec_immutable_scratch_len(),
        ensures
            final(output)@ == self.spec_transform(input@),
            final(output)@.len() == old(output)@.len(),
            final(scratch)@.len() == old(scratch)@.len(),
    ;

    /// The least scratch length that `process_with_scratch` accepts.
    fn get_inplace_scratch_len(&self) -> (n: usize)
        ensures
            n == self.spec_inplace_scratch_len(),
    ;

    /// The least scratch length that `process_outofplace_with_scratch`
    /// accepts.
    fn get_outofplace_scratch_len(&self) -> (n: usize)
        ensures
            n == self.spec_outofplace_scratch_len(),
    ;

    /// The least scratch length that `process_immutable_with_scratch`
    /// accepts.
    fn get_immutable_scratch_len(&self) -> (n: usize)
        ensures
            n == self.spec_immutable_scratch_len(),
    ;
}

} // verus!
