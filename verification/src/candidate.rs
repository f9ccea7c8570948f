//! The candidate set of a fixed length: which backends may be built for an
//! element type, in which order they are attempted, and which one is kept.

use vstd::prelude::*;

verus! {

/// The element types that a caller may ask a transform for. Only the two
/// floating-point representations have accelerated kernels; every other type
/// is `Other`.
#[derive(Clone, Copy, Debug, PartialEq, Eq, Structural)]
pub enum ElementKind {
    /// 32-bit floating point.
    Single,
    /// 64-bit floating point.
    Double,
    /// Any other numeric type.
    Other,
}

/// The element type that an accelerated kernel is written for.
#[derive(Clone, Copy, Debug, PartialEq, Eq, Structural)]
pub enum Precision {
    /// 32-bit floating point.
    Single,
    /// 64-bit floating point.
    Double,
}

/// The vector instruction sets that kernels exist for, fastest first.
#[derive(Clone, Copy, Debug, PartialEq, Eq, Structural)]
pub enum InstructionSet {
    Avx,
    Sse,
    Neon,
}

/// One fully built implementation of a transform.
#[derive(Clone, Copy, Debug, PartialEq, Eq, Structural)]
pub enum Backend {
    /// A kernel for one instruction set and one element type.
    HardwareKernel(InstructionSet, Precision),
    /// The planner's composite plan, which can be built for every length,
    /// direction and element type.
    GenericComposite,
}

/// One yes or no per instruction set. It describes either the kernels that
/// were compiled into the program or those that the processor can run.
#[derive(Clone, Copy, Debug, PartialEq, Eq, Structural)]
pub struct KernelSet {
    pub avx: bool,
    pub sse: bool,
    pub neon: bool,
}

/// What an attempt to build a candidate came to.
#[derive(Clone, Copy, Debug, PartialEq, Eq, Structural)]
pub enum Outcome {
    /// The candidate was built and is ready for use.
    Built,
    /// The processor cannot run the candidate's kernel.
    Unavailable,
}

impl Precision {
    /// The element kind that this precision stands for.
    pub open spec fn spec_kind(self) -> ElementKind {
        match self {
            Precision::Single => ElementKind::Single,
            Precision::Double => ElementKind::Double,
        }
    }

    /// The element kind that this precision stands for.
    pub fn kind(self) -> (kind: ElementKind)
        ensures
            kind == self.spec_kind(),
    {
        match self {
            Precision::Single => ElementKind::Single,
            Precision::Double => ElementKind::Double,
        }
    }
}

impl KernelSet {
    /// Whether the set holds the instruction set `set`.
    pub open spec fn spec_contains(self, set: InstructionSet) -> bool {
        match set {
            InstructionSet::Avx => self.avx,
            InstructionSet::Sse => self.sse,
            InstructionSet::Neon => self.neon,
        }
    }

    /// Whether the set holds the instruction set `set`.
    pub fn contains(&self, set: InstructionSet) -> (held: bool)
        ensures
            held == self.spec_contains(set),
    {
        match set {
            InstructionSet::Avx => self.avx,
            InstructionSet::Sse => self.sse,
            InstructionSet::Neon => self.neon,
        }
    }
}

/// The precision whose kernels may serve the element kind `kind`, if there is
/// one.
pub open spec fn spec_try_specialized(kind: ElementKind) -> Option<Precision> {
    match kind {
        ElementKind::Single => Some(Precision::Single),
        ElementKind::Double => Some(Precision::Double),
        ElementKind::Other => None,
    }
}

/// Resolves an element kind to the precision whose kernels may serve it. The
/// match is closed: a kind that is neither of the two accelerated types gets
/// no precision, and so no kernel.
pub fn try_specialized(kind: ElementKind) -> (precision: Option<Precision>)
    ensures
        precision == spec_try_specialized(kind),
        precision is None <==> kind == ElementKind::Other,
        precision is Some ==> precision->0.spec_kind() == kind,
{
    match kind {
        ElementKind::Single => Some(Precision::Single),
        ElementKind::Double => Some(Precision::Double),
        ElementKind::Other => None,
    }
}

/// The element kind whose buffers the kept backend works on: the caller's own
/// kind while the fixed-length paths are enabled, and `Other`, the path
/// without a bridge, while they are disabled.
pub open spec fn spec_bridge_for(enabled: bool, kind: ElementKind) -> ElementKind {
    if enabled {
        kind
    } else {
        ElementKind::Other
    }
}

/// Whether a transform over elements of kind `bridge` may hold `backend`. A
/// kernel is permitted only for the element type it was written for.
pub open spec fn permitted(bridge: ElementKind, backend: Backend) -> bool {
    match backend {
        Backend::HardwareKernel(_, precision) => bridge == precision.spec_kind(),
        Backend::GenericComposite => true,
    }
}

/// The candidate for one instruction set: its kernel where it was compiled
/// in, and nothing where it was not.
pub open spec fn tier(compiled: KernelSet, set: InstructionSet, precision: Precision) -> Seq<
    Backend,
> {
    if compiled.spec_contains(set) {
        seq![Backend::HardwareKernel(set, precision)]
    } else {
        Seq::empty()
    }
}

/// The candidates for an element kind, in the order in which they are
/// attempted. The planner's plan always comes last.
pub open spec fn candidates(enabled: bool, compiled: KernelSet, kind: ElementKind) -> Seq<
    Backend,
> {
    match spec_try_specialized(spec_bridge_for(enabled, kind)) {
        Some(precision) => tier(compiled, InstructionSet::Avx, precision) + tier(
            compiled,
            InstructionSet::Sse,
            precision,
        ) + tier(compiled, InstructionSet::Neon, precision) + seq![Backend::GenericComposite],
        None => seq![Backend::GenericComposite],
    }
}

/// Whether an attempt to build `backend` succeeds on a processor that can run
/// the instruction sets in `hardware`.
pub open spec fn usable(backend: Backend, hardware: KernelSet) -> bool {
    match backend {
        Backend::HardwareKernel(set, _) => hardware.spec_contains(set),
        Backend::GenericComposite => true,
    }
}

/// The first candidate of `list` that can be built, and the planner's plan
/// where there is none.
pub open spec fn first_usable(list: Seq<Backend>, hardware: KernelSet) -> Backend
    decreases list.len(),
{
    if list.len() == 0 {
        Backend::GenericComposite
    } else if usable(list[0], hardware) {
        list[0]
    } else {
        first_usable(list.drop_first(), hardware)
    }
}

/// The backend that is kept, said directly: the kernel of the fastest
/// instruction set that was compiled in and that the processor can run, for
/// the caller's precision; the planner's plan where there is no such kernel,
/// where the element type has no kernels, or where the fixed-length paths are
/// disabled.
pub open spec fn chosen(
    enabled: bool,
    compiled: KernelSet,
    hardware: KernelSet,
    kind: ElementKind,
) -> Backend {
    match spec_try_specialized(spec_bridge_for(enabled, kind)) {
        Some(precision) => {
            if compiled.avx && hardware.avx {
                Backend::HardwareKernel(InstructionSet::Avx, precision)
            } else if compiled.sse && hardware.sse {
                Backend::HardwareKernel(InstructionSet::Sse, precision)
            } else if compiled.neon && hardware.neon {
                Backend::HardwareKernel(InstructionSet::Neon, precision)
            } else {
                Backend::GenericComposite
            }
        },
        None => Backend::GenericComposite,
    }
}

/// Attempting the candidates in order and keeping the first that can be built
/// gives the backend that `chosen` names.
pub proof fn lemma_first_usable_is_chosen(
    enabled: bool,
    compiled: KernelSet,
    hardware: KernelSet,
    kind: ElementKind,
)
    ensures
        first_usable(candidates(enabled, compiled, kind), hardware) == chosen(
            enabled,
            compiled,
            hardware,
            kind,
        ),
{
    let list = candidates(enabled, compiled, kind);
    match spec_try_specialized(spec_bridge_for(enabled, kind)) {
        Some(precision) => {
            let a = tier(compiled, InstructionSet::Avx, precision);
            let s = tier(compiled, InstructionSet::Sse, precision);
            let n = tier(compiled, InstructionSet::Neon, precision);
            let g = seq![Backend::GenericComposite];
            assert(list == a + s + n + g);
            lemma_first_usable_concat(a, s + n + g, hardware);
            lemma_first_usable_concat(s, n + g, hardware);
            lemma_first_usable_concat(n, g, hardware);
            assert(a + s + n + g =~= a + (s + n + g));
            assert(s + n + g =~= s + (n + g));
            reveal_with_fuel(first_usable, 3);
        },
        None => {
            reveal_with_fuel(first_usable, 3);
        },
    }
}

/// The place of an instruction set in the order of attempts: the lower, the
/// earlier and the faster.
pub open spec fn rank(set: InstructionSet) -> nat {
    match set {
        InstructionSet::Avx => 0,
        InstructionSet::Sse => 1,
        InstructionSet::Neon => 2,
    }
}

/// Whether a kernel for `set` was compiled in and can run on the processor.
pub open spec fn ready(compiled: KernelSet, hardware: KernelSet, set: InstructionSet) -> bool {
    compiled.spec_contains(set) && hardware.spec_contains(set)
}

/// Every candidate set ends in the planner's plan, which can always be built:
/// building a transform never fails. Everything before it is a kernel that
/// was compiled in, and every candidate fits the element type.
pub proof fn lemma_candidates_end_in_planner(enabled: bool, compiled: KernelSet, kind: ElementKind)
    ensures
        candidates(enabled, compiled, kind).len() >= 1,
        candidates(enabled, compiled, kind).last() == Backend::GenericComposite,
        forall|i: int|
            0 <= i < candidates(enabled, compiled, kind).len() - 1 ==> (#[trigger] candidates(
                enabled,
                compiled,
                kind,
            )[i] matches Backend::HardwareKernel(set, _) && compiled.spec_contains(set)),
        forall|i: int|
            0 <= i < candidates(enabled, compiled, kind).len() ==> permitted(
                spec_bridge_for(enabled, kind),
                #[trigger] candidates(enabled, compiled, kind)[i],
            ),
{
}

/// The candidates stand in the order of their instruction sets' ranks: a
/// faster kernel is always attempted before a slower one.
pub proof fn lemma_candidates_fastest_first(
    enabled: bool,
    compiled: KernelSet,
    kind: ElementKind,
    i: int,
    j: int,
)
    requires
        0 <= i < j < candidates(enabled, compiled, kind).len() - 1,
    ensures
        candidates(enabled, compiled, kind)[i] matches Backend::HardwareKernel(first, _)
            && candidates(enabled, compiled, kind)[j] matches Backend::HardwareKernel(second, _)
            && rank(first) < rank(second),
{
}

/// What is kept fits the element type: a kernel is kept only for the
/// precision that the caller's element type has.
pub proof fn lemma_chosen_fits_elements(
    enabled: bool,
    compiled: KernelSet,
    hardware: KernelSet,
    kind: ElementKind,
)
    ensures
        permitted(spec_bridge_for(enabled, kind), chosen(enabled, compiled, hardware, kind)),
        chosen(enabled, compiled, hardware, kind) matches Backend::HardwareKernel(_, precision)
            ==> enabled && precision.spec_kind() == kind,
{
}

/// For an element type that is neither of the two accelerated ones the
/// planner's plan is the only candidate, and so it is what is kept, whatever
/// was compiled in and whatever the processor can run.
pub proof fn lemma_other_elements_get_planner(
    enabled: bool,
    compiled: KernelSet,
    hardware: KernelSet,
)
    ensures
        candidates(enabled, compiled, ElementKind::Other) == seq![Backend::GenericComposite],
        chosen(enabled, compiled, hardware, ElementKind::Other) == Backend::GenericComposite,
        spec_bridge_for(enabled, ElementKind::Other) == ElementKind::Other,
{
}

/// With the fixed-length paths switched off the planner's plan is the only
/// candidate for every element type, and it is used without a bridge.
pub proof fn lemma_disabled_gets_planner(
    compiled: KernelSet,
    hardware: KernelSet,
    kind: ElementKind,
)
    ensures
        candidates(false, compiled, kind) == seq![Backend::GenericComposite],
        chosen(false, compiled, hardware, kind) == Backend::GenericComposite,
        spec_bridge_for(false, kind) == ElementKind::Other,
{
}

/// A kernel is kept exactly where it is ready and no faster one is.
pub proof fn lemma_chosen_kernel_is_fastest_ready(
    enabled: bool,
    compiled: KernelSet,
    hardware: KernelSet,
    kind: ElementKind,
    set: InstructionSet,
    precision: Precision,
)
    ensures
        chosen(enabled, compiled, hardware, kind) == Backend::HardwareKernel(set, precision) <==> {
            &&& enabled
            &&& precision.spec_kind() == kind
            &&& ready(compiled, hardware, set)
            &&& forall|faster: InstructionSet|
                rank(faster) < rank(set) ==> !#[trigger] ready(compiled, hardware, faster)
        },
{
    if chosen(enabled, compiled, hardware, kind) == Backend::HardwareKernel(set, precision) {
        assert forall|faster: InstructionSet| rank(faster) < rank(set) implies !#[trigger] ready(
            compiled,
            hardware,
            faster,
        ) by {}
    }
    if enabled && precision.spec_kind() == kind && ready(compiled, hardware, set) && (forall|
        faster: InstructionSet,
    |
        rank(faster) < rank(set) ==> !#[trigger] ready(compiled, hardware, faster)) {
        if rank(InstructionSet::Avx) < rank(set) {
            assert(!ready(compiled, hardware, InstructionSet::Avx));
        }
        if rank(InstructionSet::Sse) < rank(set) {
            assert(!ready(compiled, hardware, InstructionSet::Sse));
        }
    }
}

/// The planner's plan is kept exactly where no kernel is ready for the
/// element type, or the fixed-length paths are switched off.
pub proof fn lemma_planner_kept_without_ready_kernel(
    enabled: bool,
    compiled: KernelSet,
    hardware: KernelSet,
    kind: ElementKind,
)
    ensures
        chosen(enabled, compiled, hardware, kind) == Backend::GenericComposite <==> {
            ||| !enabled
            ||| kind == ElementKind::Other
            ||| forall|set: InstructionSet| !#[trigger] ready(compiled, hardware, set)
        },
{
    if enabled && kind != ElementKind::Other && chosen(enabled, compiled, hardware, kind)
        == Backend::GenericComposite {
        assert forall|set: InstructionSet| !#[trigger] ready(compiled, hardware, set) by {
            match set {
                InstructionSet::Avx => {},
                InstructionSet::Sse => {},
                InstructionSet::Neon => {},
            }
        }
    }
    if forall|set: InstructionSet| !#[trigger] ready(compiled, hardware, set) {
        assert(!ready(compiled, hardware, InstructionSet::Avx));
        assert(!ready(compiled, hardware, InstructionSet::Sse));
        assert(!ready(compiled, hardware, InstructionSet::Neon));
    }
}

/// Over a list made of a head of at most one candidate and a tail, the first
/// usable candidate is the head's where it can be built and the tail's where
/// it cannot.
proof fn lemma_first_usable_concat(head: Seq<Backend>, tail: Seq<Backend>, hardware: KernelSet)
    requires
        head.len() <= 1,
    ensures
        first_usable(head + tail, hardware) == if head.len() == 1 && usable(head[0], hardware) {
            head[0]
        } else {
            first_usable(tail, hardware)
        },
{
    if head.len() == 0 {
        assert(head + tail =~= tail);
    } else {
        assert((head + tail)[0] == head[0]);
        assert((head + tail).drop_first() =~= tail);
    }
}

} // verus!
