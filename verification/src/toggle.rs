//! The switch that turns every fixed-length path off.
//!
//! The switch is one configuration value of the process. What it says is
//! decided by `special_fft_enabled`. A `FeatureToggle` keeps the first answer
//! for as long as it lives: whatever the configuration holds later, the
//! answer stays.

use vstd::prelude::*;
use vstd::string::StrSliceExecFns;

verus! {

/// Whether `c`, turned to lower case where it is an ASCII capital, is
/// `lower`.
pub open spec fn spec_lowers_to(c: char, lower: char) -> bool {
    if 'A' <= c && c <= 'Z' {
        c as u32 + 32 == lower as u32
    } else {
        c == lower
    }
}

/// Whether `value` spells `word` when its ASCII capitals are turned to lower
/// case.
pub open spec fn spec_spells(value: Seq<char>, word: Seq<char>) -> bool {
    &&& value.len() == word.len()
    &&& forall|i: int| 0 <= i < value.len() ==> spec_lowers_to(#[trigger] value[i], word[i])
}

/// Whether a configuration value switches the fixed-length paths off: it
/// does when it spells `1`, `true`, `yes` or `on`, in capitals or not.
pub open spec fn spec_disables(value: Seq<char>) -> bool {
    ||| spec_spells(value, seq!['1'])
    ||| spec_spells(value, seq!['t', 'r', 'u', 'e'])
    ||| spec_spells(value, seq!['y', 'e', 's'])
    ||| spec_spells(value, seq!['o', 'n'])
}

/// Whether the fixed-length paths are enabled under the configuration
/// `config`, `None` standing for a value that is not set.
pub open spec fn spec_enabled(config: Option<Seq<char>>) -> bool {
    match config {
        Some(value) => !spec_disables(value),
        None => true,
    }
}

/// Whether `c`, turned to lower case where it is an ASCII capital, is
/// `lower`.
pub fn lowers_to(c: char, lower: char) -> (same: bool)
    ensures
        same == spec_lowers_to(c, lower),
{
    let code: u32 = c as u32;
    if 65 <= code && code <= 90 {
        code + 32 == lower as u32
    } else {
        c == lower
    }
}

/// Whether `value` spells `word` when its ASCII capitals are turned to lower
/// case.
pub fn spells(value: &str, word: &str) -> (same: bool)
    ensures
        same == spec_spells(value@, word@),
{
    let count: usize = word.unicode_len();
    if value.unicode_len() != count {
        return false;
    }
    let mut i: usize = 0;
    while i < count
        invariant
            i <= count,
            count == word@.len(),
            count == value@.len(),
            forall|j: int| 0 <= j < i ==> spec_lowers_to(#[trigger] value@[j], word@[j]),
        decreases count - i,
    {
        if !lowers_to(value.get_char(i), word.get_char(i)) {
            return false;
        }
        i += 1;
    }
    true
}

/// Whether the configuration value `value` switches the fixed-length paths
/// off.
pub fn disables(value: &str) -> (off: bool)
    ensures
        off == spec_disables(value@),
{
    proof {
        reveal_strlit("1");
        reveal_strlit("true");
        reveal_strlit("yes");
        reveal_strlit("on");
        assert("1"@ =~= seq!['1']);
        assert("true"@ =~= seq!['t', 'r', 'u', 'e']);
        assert("yes"@ =~= seq!['y', 'e', 's']);
        assert("on"@ =~= seq!['o', 'n']);
    }
    spells(value, "1") || spells(value, "true") || spells(value, "yes") || spells(value, "on")
}

/// Whether the fixed-length paths are enabled under the configuration
/// `config`, `None` standing for a value that is not set. They are enabled
/// unless the value is set and spells one of the four words that switch them
/// off; a value that spells anything else leaves them enabled.
pub fn special_fft_enabled(config: Option<&str>) -> (enabled: bool)
    ensures
        enabled == spec_enabled(
            match config {
                Some(value) => Some(value@),
                None => None,
            },
        ),
{
    match config {
        Some(value) => !disables(value),
        None => true,
    }
}

/// The switch of one process: not yet read, or read and settled.
#[derive(Debug)]
pub struct FeatureToggle {
    settled: Option<bool>,
}

impl FeatureToggle {
    /// The answer that was settled on, if the switch has been read.
    pub closed spec fn spec_settled(self) -> Option<bool> {
        self.settled
    }

    /// A switch that has not been read.
    pub fn new() -> (toggle: FeatureToggle)
        ensures
            toggle.spec_settled() is None,
    {
        FeatureToggle { settled: None }
    }

    /// The answer that was settled on, if the switch has been read.
    pub fn settled(&self) -> (answer: Option<bool>)
        ensures
            answer == self.spec_settled(),
    {
        self.settled
    }

    /// Whether the fixed-length paths are enabled. The first call settles the
    /// answer from `config`, as `special_fft_enabled` reads it. Every later
    /// call gives that answer again and leaves the switch as it is, whatever
    /// `config` holds by then.
    pub fn enabled(&mut self, config: Option<&str>) -> (enabled: bool)
        ensures
            final(self).spec_settled() == Some(enabled),
            old(self).spec_settled() matches Some(first) ==> enabled == first,
            old(self).spec_settled() is None ==> enabled == spec_enabled(
                match config {
                    Some(value) => Some(value@),
                    None => None,
                },
            ),
    {
        match self.settled {
            Some(first) => first,
            None => {
                let enabled = special_fft_enabled(config);
                self.settled = Some(enabled);
                enabled
            },
        }
    }
}

} // verus!
