//! Walking the candidate set: one attempt at a time, and never past the first
//! candidate that could be built.
//!
//! Whether a kernel can be built is known only by trying, so the walk is
//! split in two. The caller makes each attempt; `Probe` decides what is
//! attempted and what follows from the outcome.

use vstd::prelude::*;
use crate::candidate::{
    candidates, chosen, first_usable, lemma_first_usable_is_chosen, permitted, spec_bridge_for,
    try_specialized, usable, Backend, ElementKind, InstructionSet, KernelSet, Outcome,
};

verus! {

/// The backend that was kept, and the element kind whose buffers it works
/// on. A value of this type comes only out of a walk of the candidate set, so
/// a kernel is never paired with an element type it was not written for.
#[derive(Clone, Copy, Debug)]
pub struct Selection {
    bridge: ElementKind,
    backend: Backend,
}

/// The state of a walk: the candidates that have not been ruled out, the
/// first of which is the one to attempt now.
#[derive(Debug)]
pub struct Probe {
    bridge: ElementKind,
    list: Vec<Backend>,
    pos: usize,
}

/// What follows from the outcome of an attempt.
#[derive(Debug)]
pub enum Progress {
    /// The candidate was built: it is kept, and the walk is over.
    Keep(Selection),
    /// The candidate could not be built: attempt the next one.
    Attempt(Probe),
}

impl Selection {
    #[verifier::type_invariant]
    spec fn kernel_fits_elements(self) -> bool {
        permitted(self.bridge, self.backend)
    }

    /// The element kind whose buffers the backend works on.
    pub closed spec fn spec_bridge(self) -> ElementKind {
        self.bridge
    }

    /// The backend that was kept.
    pub closed spec fn spec_backend(self) -> Backend {
        self.backend
    }

    /// The element kind whose buffers the backend works on.
    pub fn bridge(&self) -> (bridge: ElementKind)
        ensures
            bridge == self.spec_bridge(),
    {
        self.bridge
    }

    /// The backend that was kept.
    pub fn backend(&self) -> (backend: Backend)
        ensures
            backend == self.spec_backend(),
            permitted(self.spec_bridge(), backend),
    {
        proof {
            use_type_invariant(self);
        }
        self.backend
    }
}

impl Probe {
    #[verifier::type_invariant]
    spec fn well_formed(self) -> bool {
        &&& self.pos < self.list@.len() <= usize::MAX
        &&& self.list@.last() == Backend::GenericComposite
        &&& forall|i: int| 0 <= i < self.list@.len() ==> permitted(self.bridge, #[trigger] self.list@[i])
    }

    /// The candidates that have not been ruled out, in the order in which
    /// they are attempted.
    pub closed spec fn remaining(self) -> Seq<Backend> {
        self.list@.skip(self.pos as int)
    }

    /// The element kind whose buffers the candidates work on.
    pub closed spec fn spec_bridge(self) -> ElementKind {
        self.bridge
    }

    /// Starts a walk for the element kind `kind`, with the kernels in
    /// `compiled` compiled in. With `enabled` false the fixed-length paths
    /// are switched off and the planner's plan is the only candidate.
    pub fn new(enabled: bool, compiled: KernelSet, kind: ElementKind) -> (probe: Probe)
        ensures
            probe.remaining() == candidates(enabled, compiled, kind),
            probe.spec_bridge() == spec_bridge_for(enabled, kind),
    {
        let bridge = if enabled {
            kind
        } else {
            ElementKind::Other
        };
        let mut list: Vec<Backend> = Vec::new();
        match try_specialized(bridge) {
            Some(precision) => {
                if compiled.contains(InstructionSet::Avx) {
                    list.push(Backend::HardwareKernel(InstructionSet::Avx, precision));
                }
                if compiled.contains(InstructionSet::Sse) {
                    list.push(Backend::HardwareKernel(InstructionSet::Sse, precision));
                }
                if compiled.contains(InstructionSet::Neon) {
                    list.push(Backend::HardwareKernel(InstructionSet::Neon, precision));
                }
            },
            None => {},
        }
        list.push(Backend::GenericComposite);
        assert(list@ =~= candidates(enabled, compiled, kind));
        assert(list@.skip(0) =~= list@);
        Probe { bridge, list, pos: 0 }
    }

    /// The candidate to attempt now. There always is one, it fits the element
    /// type, and the planner's plan stands at the end of what is left.
    pub fn candidate(&self) -> (backend: Backend)
        ensures
            self.remaining().len() > 0,
            backend == self.remaining()[0],
            permitted(self.spec_bridge(), backend),
            self.remaining().last() == Backend::GenericComposite,
    {
        proof {
            use_type_invariant(self);
        }
        self.list[self.pos]
    }

    /// Whether the candidate to attempt now is the last one, the planner's
    /// plan, which can always be built.
    pub fn is_fallback(&self) -> (last: bool)
        ensures
            last == (self.remaining().len() == 1),
            last ==> self.remaining()[0] == Backend::GenericComposite,
    {
        proof {
            use_type_invariant(self);
        }
        self.pos + 1 == self.list.len()
    }

    /// Takes in the outcome of the attempt at the current candidate. A
    /// candidate that was built is kept and no later one is ever attempted;
    /// one that could not be built is ruled out and the next one is due.
    ///
    /// The planner's plan can always be built, so `Unavailable` is no outcome
    /// of an attempt at the last candidate.
    pub fn step(self, outcome: Outcome) -> (progress: Progress)
        requires
            outcome == Outcome::Unavailable ==> self.remaining().len() > 1,
        ensures
            outcome == Outcome::Built ==> (progress matches Progress::Keep(selection)
                && selection.spec_backend() == self.remaining()[0] && selection.spec_bridge()
                == self.spec_bridge() && permitted(
                selection.spec_bridge(),
                selection.spec_backend(),
            )),
            outcome == Outcome::Unavailable ==> (progress matches Progress::Attempt(next)
                && next.remaining() == self.remaining().drop_first() && next.spec_bridge()
                == self.spec_bridge()),
    {
        proof {
            use_type_invariant(&self);
        }
        match outcome {
            Outcome::Built => {
                let backend = self.list[self.pos];
                Progress::Keep(Selection { bridge: self.bridge, backend })
            },
            Outcome::Unavailable => {
                let next = Probe { bridge: self.bridge, list: self.list, pos: self.pos + 1 };
                assert(next.remaining() =~= self.remaining().drop_first());
                Progress::Attempt(next)
            },
        }
    }
}

/// The outcome of an attempt at `backend` on a processor that can run the
/// instruction sets in `hardware`.
pub fn attempt(backend: Backend, hardware: KernelSet) -> (outcome: Outcome)
    ensures
        outcome == Outcome::Built <==> usable(backend, hardware),
        outcome == Outcome::Unavailable <==> !usable(backend, hardware),
{
    match backend {
        Backend::HardwareKernel(set, _) => {
            if hardware.contains(set) {
                Outcome::Built
            } else {
                Outcome::Unavailable
            }
        },
        Backend::GenericComposite => Outcome::Built,
    }
}

/// Walks the candidate set on a processor whose instruction sets are known,
/// and returns what is kept. The result depends on the switch, on what was
/// compiled in, on the processor and on the element kind, and on nothing
/// else.
pub fn select_backend(
    enabled: bool,
    compiled: KernelSet,
    hardware: KernelSet,
    kind: ElementKind,
) -> (selection: Selection)
    ensures
        selection.spec_backend() == chosen(enabled, compiled, hardware, kind),
        selection.spec_bridge() == spec_bridge_for(enabled, kind),
        permitted(selection.spec_bridge(), selection.spec_backend()),
{
    let mut probe = Probe::new(enabled, compiled, kind);
    proof {
        lemma_first_usable_is_chosen(enabled, compiled, hardware, kind);
    }
    loop
        invariant
            first_usable(probe.remaining(), hardware) == chosen(enabled, compiled, hardware, kind),
            probe.spec_bridge() == spec_bridge_for(enabled, kind),
        decreases probe.remaining().len(),
    {
        let candidate = probe.candidate();
        let outcome = attempt(candidate, hardware);
        match probe.step(outcome) {
            Progress::Keep(selection) => {
                return selection;
            },
            Progress::Attempt(next) => {
                probe = next;
            },
        }
    }
}

} // verus!
