//! The transform of length 512, the one length with accelerated kernels.

use vstd::prelude::*;
use num_complex::Complex;
use core::marker::PhantomData;
use crate::candidate::{permitted, Backend, ElementKind};
use crate::direction::FftDirection;
use crate::probe::Selection;
use crate::transform::Fft;

verus! {

/// The backend, tagged with the element type that it was built for. The tag
/// is set once, from the selection, and every call branches on it.
enum Fft512Inner<K> {
    /// Built for 32-bit floating point.
    Single(K),
    /// Built for 64-bit floating point.
    Double(K),
    /// The planner's plan over the caller's own element type.
    Generic(K),
}

/// A transform of exactly 512 samples. It holds the one backend that came out
/// of the walk of the candidate set and hands every call to it.
pub struct Fft512<T, K: Fft<T>> {
    inner: Fft512Inner<K>,
    backend: Backend,
    direction: FftDirection,
    element: PhantomData<T>,
}

impl<K> Fft512Inner<K> {
    /// The tagged backend itself.
    spec fn transform(self) -> K {
        match self {
            Fft512Inner::Single(inner) => inner,
            Fft512Inner::Double(inner) => inner,
            Fft512Inner::Generic(inner) => inner,
        }
    }

    /// The element kind that the tag names.
    spec fn bridge(self) -> ElementKind {
        match self {
            Fft512Inner::Single(_) => ElementKind::Single,
            Fft512Inner::Double(_) => ElementKind::Double,
            Fft512Inner::Generic(_) => ElementKind::Other,
        }
    }
}

impl<T, K: Fft<T>> Fft512<T, K> {
    #[verifier::type_invariant]
    spec fn holds_matching_backend(self) -> bool {
        &&& self.inner.transform().spec_len() == 512
        &&& self.inner.transform().spec_direction() == self.direction
        &&& permitted(self.inner.bridge(), self.backend)
    }

    /// The backend that calls are handed to.
    pub closed spec fn inner_transform(self) -> K {
        self.inner.transform()
    }

    /// The element kind that the backend was built for, `Other` standing for
    /// the planner's plan over the caller's own element type.
    pub closed spec fn spec_bridge(self) -> ElementKind {
        self.inner.bridge()
    }

    /// Which implementation the backend is.
    pub closed spec fn spec_backend(self) -> Backend {
        self.backend
    }

    /// Tags `inner` with the element kind `bridge`.
    fn select_impl(bridge: ElementKind, inner: K) -> (tagged: Fft512Inner<K>)
        ensures
            tagged.transform() == inner,
            tagged.bridge() == bridge,
    {
        match bridge {
            ElementKind::Single => Fft512Inner::Single(inner),
            ElementKind::Double => Fft512Inner::Double(inner),
            ElementKind::Other => Fft512Inner::Generic(inner),
        }
    }

    /// Builds the transform of length 512 in the direction `direction` around
    /// `inner`, the implementation that was built for the candidate kept in
    /// `selection`. From here on `inner` is the backend, and it is never
    /// exchanged.
    pub fn new(direction: FftDirection, selection: Selection, inner: K) -> (fft: Self)
        requires
            inner.spec_len() == 512,
            inner.spec_direction() == direction,
        ensures
            fft.inner_transform() == inner,
            fft.spec_bridge() == selection.spec_bridge(),
            fft.spec_backend() == selection.spec_backend(),
            permitted(fft.spec_bridge(), fft.spec_backend()),
            fft.spec_len() == 512,
            fft.spec_direction() == direction,
    {
        let backend = selection.backend();
        let inner = Self::select_impl(selection.bridge(), inner);
        Fft512 { inner, backend, direction, element: PhantomData }
    }

    /// Builds the transform as `new` does where `inner` has the length 512
    /// and the direction `direction`, and gives `None` where it has not.
    pub fn try_new(direction: FftDirection, selection: Selection, inner: K) -> (built: Option<
        Self,
    >)
        ensures
            built is Some <==> inner.spec_len() == 512 && inner.spec_direction() == direction,
            built matches Some(fft) ==> fft.inner_transform() == inner && fft.spec_bridge()
                == selection.spec_bridge() && fft.spec_backend() == selection.spec_backend()
                && permitted(fft.spec_bridge(), fft.spec_backend()) && fft.spec_len() == 512
                && fft.spec_direction() == direction,
    {
        if inner.len() == 512 && inner.fft_direction() == direction {
            Some(Self::new(direction, selection, inner))
        } else {
            None
        }
    }

    /// The element kind that the backend was built for. A kernel is only ever
    /// held for the element type it was written for, and for an element type
    /// without kernels the planner's plan is held.
    pub fn bridge(&self) -> (bridge: ElementKind)
        ensures
            bridge == self.spec_bridge(),
            permitted(bridge, self.spec_backend()),
            bridge == ElementKind::Other ==> self.spec_backend() == Backend::GenericComposite,
    {
        proof {
            use_type_invariant(self);
        }
        match &self.inner {
            Fft512Inner::Single(_) => ElementKind::Single,
            Fft512Inner::Double(_) => ElementKind::Double,
            Fft512Inner::Generic(_) => ElementKind::Other,
        }
    }

    /// Which implementation the backend is.
    pub fn backend(&self) -> (backend: Backend)
        ensures
            backend == self.spec_backend(),
            permitted(self.spec_bridge(), backend),
    {
        proof {
            use_type_invariant(self);
        }
        self.backend
    }
}

impl<T, K: Fft<T>> Fft<T> for Fft512<T, K> {
    open spec fn spec_len(&self) -> nat {
        512
    }

    closed spec fn spec_direction(&self) -> FftDirection {
        self.direction
    }

    open spec fn spec_inplace_scratch_len(&self) -> nat {
        self.inner_transform().spec_inplace_scratch_len()
    }

    open spec fn spec_outofplace_scratch_len(&self) -> nat {
        self.inner_transform().spec_outofplace_scratch_len()
    }

    open spec fn spec_immutable_scratch_len(&self) -> nat {
        self.inner_transform().spec_immutable_scratch_len()
    }

    open spec fn spec_transform(&self, input: Seq<Complex<T>>) -> Seq<Complex<T>> {
        self.inner_transform().spec_transform(input)
    }

    fn len(&self) -> (n: usize) {
        512
    }

    fn fft_direction(&self) -> (direction: FftDirection) {
        self.direction
    }

    fn process(&self, buffer: &mut [Complex<T>]) {
        proof {
            use_type_invariant(self);
        }
        match &self.inner {
            Fft512Inner::Generic(inner) => inner.process(buffer),
            Fft512Inner::Single(inner) => inner.process(buffer),
            Fft512Inner::Double(inner) => inner.process(buffer),
        }
    }

    fn process_with_scratch(&self, buffer: &mut [Complex<T>], scratch: &mut [Complex<T>]) {
        proof {
            use_type_invariant(self);
        }
        match &self.inner {
            Fft512Inner::Generic(inner) => inner.process_with_scratch(buffer, scratch),
            Fft512Inner::Single(inner) => inner.process_with_scratch(buffer, scratch),
            Fft512Inner::Double(inner) => inner.process_with_scratch(buffer, scratch),
        }
    }

    fn process_outofplace_with_scratch(
        &self,
        input: &mut [Complex<T>],
        output: &mut [Complex<T>],
        scratch: &mut [Complex<T>],
    ) {
        proof {
            use_type_invariant(self);
        }
        match &self.inner {
            Fft512Inner::Generic(inner) => {
                inner.process_outofplace_with_scratch(input, output, scratch)
            },
            Fft512Inner::Single(inner) => {
                inner.process_outofplace_with_scratch(input, output, scratch)
            },
            Fft512Inner::Double(inner) => {
                inner.process_outofplace_with_scratch(input, output, scratch)
            },
        }
    }

    fn process_immutable_with_scratch(
        &self,
        input: &[Complex<T>],
        output: &mut [Complex<T>],
        scratch: &mut [Complex<T>],
    ) {
        proof {
            use_type_invariant(self);
        }
        match &self.inner {
            Fft512Inner::Generic(inner) => {
                inner.process_immutable_with_scratch(input, output, scratch)
            },
            Fft512Inner::Single(inner) => {
                inner.process_immutable_with_scratch(input, output, scratch)
            },
            Fft512Inner::Double(inner) => {
                inner.process_immutable_with_scratch(input, output, scratch)
            },
        }
    }

    fn get_inplace_scratch_len(&self) -> (n: usize) {
        match &self.inner {
            Fft512Inner::Generic(inner) => inner.get_inplace_scratch_len(),
            Fft512Inner::Single(inner) => inner.get_inplace_scratch_len(),
            Fft512Inner::Double(inner) => inner.get_inplace_scratch_len(),
        }
    }

    fn get_outofplace_scratch_len(&self) -> (n: usize) {
        match &self.inner {
            Fft512Inner::Generic(inner) => inner.get_outofplace_scratch_len(),
            Fft512Inner::Single(inner) => inner.get_outofplace_scratch_len(),
            Fft512Inner::Double(inner) => inner.get_outofplace_scratch_len(),
        }
    }

    fn get_immutable_scratch_len(&self) -> (n: usize) {
        match &self.inner {
            Fft512Inner::Generic(inner) => inner.get_immutable_scratch_len(),
            Fft512Inner::Single(inner) => inner.get_immutable_scratch_len(),
            Fft512Inner::Double(inner) => inner.get_immutable_scratch_len(),
        }
    }
}

} // verus!
