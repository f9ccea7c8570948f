use fixed_fft::candidate::{
    try_specialized, Backend, ElementKind, InstructionSet, KernelSet, Outcome, Precision,
};
use fixed_fft::probe::{attempt, select_backend, Probe, Progress};

const ALL: KernelSet = KernelSet { avx: true, sse: true, neon: true };
const NONE: KernelSet = KernelSet { avx: false, sse: false, neon: false };

fn set(avx: bool, sse: bool, neon: bool) -> KernelSet {
    KernelSet { avx, sse, neon }
}

fn kernel(set: InstructionSet, precision: Precision) -> Backend {
    Backend::HardwareKernel(set, precision)
}

/// Walks a probe to its end, with `built` saying which attempts succeed, and
/// returns every candidate that was attempted together with what was kept.
fn walk(mut probe: Probe, built: &dyn Fn(Backend) -> bool) -> (Vec<Backend>, Backend, ElementKind) {
    let mut attempted = Vec::new();
    loop {
        let candidate = probe.candidate();
        attempted.push(candidate);
        let outcome = if probe.is_fallback() || built(candidate) {
            Outcome::Built
        } else {
            Outcome::Unavailable
        };
        match probe.step(outcome) {
            Progress::Keep(selection) => {
                return (attempted, selection.backend(), selection.bridge());
            }
            Progress::Attempt(next) => probe = next,
        }
    }
}

#[test]
fn precision_resolves_only_for_the_two_float_kinds() {
    assert_eq!(try_specialized(ElementKind::Single), Some(Precision::Single));
    assert_eq!(try_specialized(ElementKind::Double), Some(Precision::Double));
    assert_eq!(try_specialized(ElementKind::Other), None);
    assert_eq!(Precision::Single.kind(), ElementKind::Single);
    assert_eq!(Precision::Double.kind(), ElementKind::Double);
}

#[test]
fn kernel_set_answers_per_instruction_set() {
    let s = set(true, false, true);
    assert!(s.contains(InstructionSet::Avx));
    assert!(!s.contains(InstructionSet::Sse));
    assert!(s.contains(InstructionSet::Neon));
}

#[test]
fn candidates_are_attempted_fastest_first() {
    let (attempted, kept, bridge) =
        walk(Probe::new(true, ALL, ElementKind::Single), &|_| false);
    assert_eq!(
        attempted,
        vec![
            kernel(InstructionSet::Avx, Precision::Single),
            kernel(InstructionSet::Sse, Precision::Single),
            kernel(InstructionSet::Neon, Precision::Single),
            Backend::GenericComposite,
        ]
    );
    assert_eq!(kept, Backend::GenericComposite);
    assert_eq!(bridge, ElementKind::Single);
}

#[test]
fn only_compiled_kernels_are_candidates() {
    let (attempted, kept, _) =
        walk(Probe::new(true, set(false, true, false), ElementKind::Double), &|_| false);
    assert_eq!(
        attempted,
        vec![kernel(InstructionSet::Sse, Precision::Double), Backend::GenericComposite]
    );
    assert_eq!(kept, Backend::GenericComposite);

    let (attempted, kept, _) = walk(Probe::new(true, NONE, ElementKind::Double), &|_| true);
    assert_eq!(attempted, vec![Backend::GenericComposite]);
    assert_eq!(kept, Backend::GenericComposite);
}

#[test]
fn nothing_is_attempted_after_the_first_success() {
    let (attempted, kept, bridge) = walk(Probe::new(true, ALL, ElementKind::Double), &|b| {
        b == kernel(InstructionSet::Sse, Precision::Double)
    });
    assert_eq!(
        attempted,
        vec![
            kernel(InstructionSet::Avx, Precision::Double),
            kernel(InstructionSet::Sse, Precision::Double),
        ]
    );
    assert_eq!(kept, kernel(InstructionSet::Sse, Precision::Double));
    assert_eq!(bridge, ElementKind::Double);

    let (attempted, kept, _) = walk(Probe::new(true, ALL, ElementKind::Single), &|_| true);
    assert_eq!(attempted, vec![kernel(InstructionSet::Avx, Precision::Single)]);
    assert_eq!(kept, kernel(InstructionSet::Avx, Precision::Single));
}

#[test]
fn other_elements_have_the_planner_as_their_only_candidate() {
    let probe = Probe::new(true, ALL, ElementKind::Other);
    assert!(probe.is_fallback());
    let (attempted, kept, bridge) = walk(probe, &|_| true);
    assert_eq!(attempted, vec![Backend::GenericComposite]);
    assert_eq!(kept, Backend::GenericComposite);
    assert_eq!(bridge, ElementKind::Other);
}

#[test]
fn switched_off_leaves_the_planner_as_the_only_candidate() {
    for kind in [ElementKind::Single, ElementKind::Double, ElementKind::Other] {
        let probe = Probe::new(false, ALL, kind);
        assert!(probe.is_fallback());
        assert_eq!(probe.candidate(), Backend::GenericComposite);
        let (attempted, kept, bridge) = walk(probe, &|_| true);
        assert_eq!(attempted, vec![Backend::GenericComposite]);
        assert_eq!(kept, Backend::GenericComposite);
        assert_eq!(bridge, ElementKind::Other);
    }
}

#[test]
fn is_fallback_is_true_only_at_the_end() {
    let probe = Probe::new(true, set(true, false, false), ElementKind::Single);
    assert!(!probe.is_fallback());
    assert_eq!(probe.candidate(), kernel(InstructionSet::Avx, Precision::Single));
    match probe.step(Outcome::Unavailable) {
        Progress::Attempt(next) => {
            assert!(next.is_fallback());
            assert_eq!(next.candidate(), Backend::GenericComposite);
        }
        Progress::Keep(_) => panic!("a candidate that could not be built was kept"),
    }
}

#[test]
fn an_attempt_succeeds_where_the_processor_runs_the_kernel() {
    let hardware = set(false, true, false);
    assert_eq!(attempt(kernel(InstructionSet::Avx, Precision::Single), hardware), Outcome::Unavailable);
    assert_eq!(attempt(kernel(InstructionSet::Sse, Precision::Single), hardware), Outcome::Built);
    assert_eq!(attempt(kernel(InstructionSet::Neon, Precision::Double), hardware), Outcome::Unavailable);
    assert_eq!(attempt(Backend::GenericComposite, hardware), Outcome::Built);
    assert_eq!(attempt(Backend::GenericComposite, NONE), Outcome::Built);
}

#[test]
fn the_fastest_ready_kernel_is_selected() {
    let s = select_backend(true, ALL, ALL, ElementKind::Single);
    assert_eq!(s.backend(), kernel(InstructionSet::Avx, Precision::Single));
    assert_eq!(s.bridge(), ElementKind::Single);

    let s = select_backend(true, ALL, set(false, true, true), ElementKind::Double);
    assert_eq!(s.backend(), kernel(InstructionSet::Sse, Precision::Double));
    assert_eq!(s.bridge(), ElementKind::Double);

    let s = select_backend(true, set(true, false, true), set(false, true, true), ElementKind::Single);
    assert_eq!(s.backend(), kernel(InstructionSet::Neon, Precision::Single));

    let s = select_backend(true, set(true, false, false), set(false, true, true), ElementKind::Single);
    assert_eq!(s.backend(), Backend::GenericComposite);
    assert_eq!(s.bridge(), ElementKind::Single);

    let s = select_backend(true, ALL, NONE, ElementKind::Double);
    assert_eq!(s.backend(), Backend::GenericComposite);
    assert_eq!(s.bridge(), ElementKind::Double);
}

#[test]
fn selection_for_other_elements_is_the_planner() {
    for compiled in [ALL, NONE, set(false, true, false)] {
        for hardware in [ALL, NONE, set(true, false, false)] {
            for enabled in [true, false] {
                let s = select_backend(enabled, compiled, hardware, ElementKind::Other);
                assert_eq!(s.backend(), Backend::GenericComposite);
                assert_eq!(s.bridge(), ElementKind::Other);
            }
        }
    }
}

#[test]
fn selection_when_switched_off_is_the_planner() {
    for kind in [ElementKind::Single, ElementKind::Double, ElementKind::Other] {
        let s = select_backend(false, ALL, ALL, kind);
        assert_eq!(s.backend(), Backend::GenericComposite);
        assert_eq!(s.bridge(), ElementKind::Other);
    }
}

#[test]
fn selection_agrees_with_a_walk_for_every_configuration() {
    let flags = [false, true];
    for &ca in &flags {
        for &cs in &flags {
            for &cn in &flags {
                for &ha in &flags {
                    for &hs in &flags {
                        for &hn in &flags {
                            for kind in [ElementKind::Single, ElementKind::Double, ElementKind::Other] {
                                for &enabled in &flags {
                                    let compiled = set(ca, cs, cn);
                                    let hardware = set(ha, hs, hn);
                                    let s = select_backend(enabled, compiled, hardware, kind);
                                    let (_, kept, bridge) =
                                        walk(Probe::new(enabled, compiled, kind), &|b| {
                                            attempt(b, hardware) == Outcome::Built
                                        });
                                    assert_eq!(s.backend(), kept);
                                    assert_eq!(s.bridge(), bridge);
                                    if let Backend::HardwareKernel(used, precision) = kept {
                                        assert!(enabled);
                                        assert_eq!(precision.kind(), kind);
                                        assert!(compiled.contains(used) && hardware.contains(used));
                                    }
                                }
                            }
                        }
                    }
                }
            }
        }
    }
}
