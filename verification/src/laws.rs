//! What holds of the parts of this crate taken together.

use vstd::prelude::*;
use num_complex::Complex;
use crate::candidate::{candidates, chosen, spec_bridge_for, Backend, ElementKind, KernelSet};
use crate::checked::spec_check_lengths;
use crate::fixed_1000::Fft1000;
use crate::fixed_1536::Fft1536;
use crate::fixed_256::Fft256;
use crate::fixed_512::Fft512;
use crate::toggle::{spec_disables, spec_enabled, spec_lowers_to, spec_spells};
use crate::transform::{whole_chunks, Fft};

verus! {

/// A configuration value that spells one of the words that switch the
/// fixed-length paths off leaves the planner's plan as the only candidate:
/// it is what is kept for every element type, on every processor, and it is
/// used without a bridge.
pub proof fn lemma_switched_off_gets_planner(
    value: Seq<char>,
    compiled: KernelSet,
    hardware: KernelSet,
    kind: ElementKind,
)
    requires
        spec_disables(value),
    ensures
        !spec_enabled(Some(value)),
        candidates(spec_enabled(Some(value)), compiled, kind) == seq![Backend::GenericComposite],
        chosen(spec_enabled(Some(value)), compiled, hardware, kind) == Backend::GenericComposite,
        spec_bridge_for(spec_enabled(Some(value)), kind) == ElementKind::Other,
{
}

/// Two configuration values that differ only in the case of their ASCII
/// letters switch the same way.
pub proof fn lemma_case_does_not_matter(value: Seq<char>, other: Seq<char>)
    requires
        value.len() == other.len(),
        forall|i: int, lower: char|
            0 <= i < value.len() ==> (#[trigger] spec_lowers_to(value[i], lower)
                <==> spec_lowers_to(other[i], lower)),
    ensures
        spec_disables(value) == spec_disables(other),
        spec_enabled(Some(value)) == spec_enabled(Some(other)),
{
    assert forall|word: Seq<char>| spec_spells(value, word) == spec_spells(other, word) by {
        if value.len() == word.len() {
            if spec_spells(value, word) {
                assert forall|i: int| 0 <= i < other.len() implies spec_lowers_to(
                    #[trigger] other[i],
                    word[i],
                ) by {
                    assert(spec_lowers_to(value[i], word[i]));
                }
            }
            if spec_spells(other, word) {
                assert forall|i: int| 0 <= i < value.len() implies spec_lowers_to(
                    #[trigger] value[i],
                    word[i],
                ) by {
                    assert(spec_lowers_to(other[i], word[i]));
                }
            }
        }
    }
}

/// A scratch buffer of exactly the length that a transform declares for an
/// operation is long enough for it: with a signal that splits into whole
/// chunks, and an output buffer as long as the signal, the call is accepted.
pub proof fn lemma_declared_scratch_is_enough<T, F: Fft<T>>(fft: F, signal_len: nat)
    requires
        whole_chunks(signal_len, fft.spec_len()),
    ensures
        spec_check_lengths(fft.spec_len(), signal_len, signal_len, 0, 0) is Ok,
        spec_check_lengths(
            fft.spec_len(),
            signal_len,
            signal_len,
            fft.spec_inplace_scratch_len(),
            fft.spec_inplace_scratch_len(),
        ) is Ok,
        spec_check_lengths(
            fft.spec_len(),
            signal_len,
            signal_len,
            fft.spec_outofplace_scratch_len(),
            fft.spec_outofplace_scratch_len(),
        ) is Ok,
        spec_check_lengths(
            fft.spec_len(),
            signal_len,
            signal_len,
            fft.spec_immutable_scratch_len(),
            fft.spec_immutable_scratch_len(),
        ) is Ok,
{
}

/// The transform of length 256 gives what its backend gives, and declares
/// the scratch lengths that its backend declares.
pub proof fn lemma_fixed_256_is_its_backend<T, K: Fft<T>>(fft: Fft256<T, K>, input: Seq<Complex<T>>)
    ensures
        fft.spec_len() == 256,
        fft.spec_transform(input) == fft.inner_transform().spec_transform(input),
        fft.spec_inplace_scratch_len() == fft.inner_transform().spec_inplace_scratch_len(),
        fft.spec_outofplace_scratch_len() == fft.inner_transform().spec_outofplace_scratch_len(),
        fft.spec_immutable_scratch_len() == fft.inner_transform().spec_immutable_scratch_len(),
{
}

/// The transform of length 512 gives what its backend gives, and declares
/// the scratch lengths that its backend declares, whichever element type the
/// backend is tagged with.
pub proof fn lemma_fixed_512_is_its_backend<T, K: Fft<T>>(fft: Fft512<T, K>, input: Seq<Complex<T>>)
    ensures
        fft.spec_len() == 512,
        fft.spec_transform(input) == fft.inner_transform().spec_transform(input),
        fft.spec_inplace_scratch_len() == fft.inner_transform().spec_inplace_scratch_len(),
        fft.spec_outofplace_scratch_len() == fft.inner_transform().spec_outofplace_scratch_len(),
        fft.spec_immutable_scratch_len() == fft.inner_transform().spec_immutable_scratch_len(),
{
}

/// The transform of length 1000 gives what its backend gives, and declares
/// the scratch lengths that its backend declares.
pub proof fn lemma_fixed_1000_is_its_backend<T, K: Fft<T>>(
    fft: Fft1000<T, K>,
    input: Seq<Complex<T>>,
)
    ensures
        fft.spec_len() == 1000,
        fft.spec_transform(input) == fft.inner_transform().spec_transform(input),
        fft.spec_inplace_scratch_len() == fft.inner_transform().spec_inplace_scratch_len(),
        fft.spec_outofplace_scratch_len() == fft.inner_transform().spec_outofplace_scratch_len(),
        fft.spec_immutable_scratch_len() == fft.inner_transform().spec_immutable_scratch_len(),
{
}

/// The transform of length 1536 gives what its backend gives, and declares
/// the scratch lengths that its backend declares.
pub proof fn lemma_fixed_1536_is_its_backend<T, K: Fft<T>>(
    fft: Fft1536<T, K>,
    input: Seq<Complex<T>>,
)
    ensures
        fft.spec_len() == 1536,
        fft.spec_transform(input) == fft.inner_transform().spec_transform(input),
        fft.spec_inplace_scratch_len() == fft.inner_transform().spec_inplace_scratch_len(),
        fft.spec_outofplace_scratch_len() == fft.inner_transform().spec_outofplace_scratch_len(),
        fft.spec_immutable_scratch_len() == fft.inner_transform().spec_immutable_scratch_len(),
{
}

/// Two transforms of length 512 around the same backend give the same
/// output, whatever was selected for them: the selection decides what is
/// built, and only the backend decides what is computed.
pub proof fn lemma_fixed_512_output_depends_on_backend_only<T, K: Fft<T>>(
    one: Fft512<T, K>,
    other: Fft512<T, K>,
    input: Seq<Complex<T>>,
)
    requires
        one.inner_transform() == other.inner_transform(),
    ensures
        one.spec_transform(input) == other.spec_transform(input),
{
}

} // verus!
