//! Calls that test the demands on buffer and scratch lengths before they hand
//! a buffer to a transform.
//!
//! The operations of the transform interface demand lengths that fit and
//! treat anything else as an error of the caller. A caller that cannot show
//! beforehand that its lengths fit calls through this module: a call with
//! lengths that do not fit is refused, says why, and touches no buffer.

use vstd::prelude::*;
use num_complex::Complex;
use crate::transform::{whole_chunks, Fft};

verus! {

/// Why a call was refused.
#[derive(Clone, Copy, Debug, PartialEq, Eq, Structural)]
pub enum LengthError {
    /// The signal does not split into whole chunks of the transform's length.
    BufferLength,
    /// The output buffer is not as long as the input buffer.
    OutputLength,
    /// The scratch buffer is shorter than the operation's lower bound.
    ScratchLength,
}

/// The verdict on the lengths of one call: on a signal of `input_len`
/// samples, with room for `output_len` samples of output and `scratch_len` of
/// scratch, to an operation of a transform of length `len` whose scratch
/// bound is `required`. The first demand that is broken names the error.
pub open spec fn spec_check_lengths(
    len: nat,
    input_len: nat,
    output_len: nat,
    scratch_len: nat,
    required: nat,
) -> Result<(), LengthError> {
    if !whole_chunks(input_len, len) {
        Err(LengthError::BufferLength)
    } else if output_len != input_len {
        Err(LengthError::OutputLength)
    } else if scratch_len < required {
        Err(LengthError::ScratchLength)
    } else {
        Ok(())
    }
}

/// Gives the verdict on the lengths of one call.
pub fn check_lengths(
    len: usize,
    input_len: usize,
    output_len: usize,
    scratch_len: usize,
    required: usize,
) -> (verdict: Result<(), LengthError>)
    ensures
        verdict == spec_check_lengths(
            len as nat,
            input_len as nat,
            output_len as nat,
            scratch_len as nat,
            required as nat,
        ),
        verdict is Ok <==> whole_chunks(input_len as nat, len as nat) && output_len == input_len
            && scratch_len >= required,
{
    if len == 0 || input_len % len != 0 {
        Err(LengthError::BufferLength)
    } else if output_len != input_len {
        Err(LengthError::OutputLength)
    } else if scratch_len < required {
        Err(LengthError::ScratchLength)
    } else {
        Ok(())
    }
}

/// Transforms `buffer` in place where it splits into whole chunks, and
/// refuses it unchanged where it does not.
pub fn try_process<T, F: Fft<T>>(fft: &F, buffer: &mut [Complex<T>]) -> (done: Result<
    (),
    LengthError,
>)
    ensures
        done == spec_check_lengths(
            fft.spec_len(),
            old(buffer)@.len(),
            old(buffer)@.len(),
            0,
            0,
        ),
        done is Ok ==> final(buffer)@ == fft.spec_transform(old(buffer)@),
        done is Err ==> final(buffer)@ == old(buffer)@,
        final(buffer)@.len() == old(buffer)@.len(),
{
    let verdict = check_lengths(fft.len(), buffer.len(), buffer.len(), 0, 0);
    if verdict.is_ok() {
        fft.process(buffer);
    }
    verdict
}

/// Transforms `buffer` in place with the caller's `scratch` where the lengths
/// fit, and refuses the call, with both buffers unchanged, where they do not.
/// A scratch buffer of exactly `get_inplace_scratch_len()` samples is always
/// long enough.
pub fn try_process_with_scratch<T, F: Fft<T>>(
    fft: &F,
    buffer: &mut [Complex<T>],
    scratch: &mut [Complex<T>],
) -> (done: Result<(), LengthError>)
    ensures
        done == spec_check_lengths(
            fft.spec_len(),
            old(buffer)@.len(),
            old(buffer)@.len(),
            old(scratch)@.len(),
            fft.spec_inplace_scratch_len(),
        ),
        done is Ok ==> final(buffer)@ == fft.spec_transform(old(buffer)@),
        done is Err ==> final(buffer)@ == old(buffer)@ && final(scratch)@ == old(scratch)@,
        final(buffer)@.len() == old(buffer)@.len(),
        final(scratch)@.len() == old(scratch)@.len(),
{
    let verdict = check_lengths(
        fft.len(),
        buffer.len(),
        buffer.len(),
        scratch.len(),
        fft.get_inplace_scratch_len(),
    );
    if verdict.is_ok() {
        fft.process_with_scratch(buffer, scratch);
    }
    verdict
}

/// Writes the transform of `input` to `output` where the lengths fit, and
/// refuses the call, with all three buffers unchanged, where they do not. A
/// scratch buffer of exactly `get_outofplace_scratch_len()` samples is always
/// long enough.
pub fn try_process_outofplace_with_scratch<T, F: Fft<T>>(
    fft: &F,
    input: &mut [Complex<T>],
    output: &mut [Complex<T>],
    scratch: &mut [Complex<T>],
) -> (done: Result<(), LengthError>)
    ensures
        done == spec_check_lengths(
            fft.spec_len(),
            old(input)@.len(),
            old(output)@.len(),
            old(scratch)@.len(),
            fft.spec_outofplace_scratch_len(),
        ),
        done is Ok ==> final(output)@ == fft.spec_transform(old(input)@),
        done is Err ==> final(input)@ == old(input)@ && final(output)@ == old(output)@
            && final(scratch)@ == old(scratch)@,
        final(input)@.len() == old(input)@.len(),
        final(output)@.len() == old(output)@.len(),
        final(scratch)@.len() == old(scratch)@.len(),
{
    let verdict = check_lengths(
        fft.len(),
        input.len(),
        output.len(),
        scratch.len(),
        fft.get_outofplace_scratch_len(),
    );
    if verdict.is_ok() {
        fft.process_outofplace_with_scratch(input, output, scratch);
    }
    verdict
}

/// Writes the transform of `input` to `output` where the lengths fit, and
/// refuses the call, with `output` and `scratch` unchanged, where they do
/// not. `input` is only read. A scratch buffer of exactly
/// `get_immutable_scratch_len()` samples is always long enough.
pub fn try_process_immutable_with_scratch<T, F: Fft<T>>(
    fft: &F,
    input: &[Complex<T>],
    output: &mut [Complex<T>],
    scratch: &mut [Complex<T>],
) -> (done: Result<(), LengthError>)
    ensures
        done == spec_check_lengths(
            fft.spec_len(),
            input@.len(),
            old(output)@.len(),
            old(scratch)@.len(),
            fft.spec_immutable_scratch_len(),
        ),
        done is Ok ==> final(output)@ == fft.spec_transform(input@),
        done is Err ==> final(output)@ == old(output)@ && final(scratch)@ == old(scratch)@,
        final(output)@.len() == old(output)@.len(),
        final(scratch)@.len() == old(scratch)@.len(),
{
    let verdict = check_lengths(
        fft.len(),
        input.len(),
        output.len(),
        scratch.len(),
        fft.get_immutable_scratch_len(),
    );
    if verdict.is_ok() {
        fft.process_immutable_with_scratch(input, output, scratch);
    }
    verdict
}

} // verus!
