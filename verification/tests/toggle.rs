use fixed_fft::toggle::{disables, lowers_to, special_fft_enabled, spells, FeatureToggle};

#[test]
fn unset_leaves_the_fixed_paths_enabled() {
    assert!(special_fft_enabled(None));
}

#[test]
fn the_four_words_switch_the_fixed_paths_off() {
    for word in ["1", "true", "yes", "on"] {
        assert!(disables(word), "{}", word);
        assert!(!special_fft_enabled(Some(word)), "{}", word);
    }
}

#[test]
fn the_words_are_read_without_regard_to_case() {
    for word in ["TRUE", "True", "tRuE", "YES", "Yes", "yeS", "ON", "On", "oN"] {
        assert!(disables(word), "{}", word);
        assert!(!special_fft_enabled(Some(word)), "{}", word);
    }
}

#[test]
fn any_other_value_leaves_the_fixed_paths_enabled() {
    for word in [
        "", "0", "false", "no", "off", "2", "11", "tru", "truee", " true", "true ", "y", "o",
        "yes!", "enabled", "disable", "\u{212A}", "tr\u{0131}e", "ｔｒｕｅ",
    ] {
        assert!(!disables(word), "{:?}", word);
        assert!(special_fft_enabled(Some(word)), "{:?}", word);
    }
}

#[test]
fn only_ascii_capitals_are_lowered() {
    assert!(lowers_to('A', 'a'));
    assert!(lowers_to('Z', 'z'));
    assert!(lowers_to('a', 'a'));
    assert!(lowers_to('1', '1'));
    assert!(!lowers_to('A', 'A'));
    assert!(!lowers_to('a', 'A'));
    assert!(!lowers_to('@', '`'));
    assert!(!lowers_to('[', '{'));
    assert!(!lowers_to('\u{00C9}', '\u{00E9}'));
}

#[test]
fn spelling_compares_whole_words() {
    assert!(spells("On", "on"));
    assert!(spells("", ""));
    assert!(!spells("o", "on"));
    assert!(!spells("onn", "on"));
    assert!(!spells("no", "on"));
    assert!(!spells("on", "ON"));
}

#[test]
fn a_toggle_settles_on_its_first_answer() {
    let mut toggle = FeatureToggle::new();
    assert_eq!(toggle.settled(), None);
    assert!(!toggle.enabled(Some("Yes")));
    assert_eq!(toggle.settled(), Some(false));
    assert!(!toggle.enabled(Some("no")));
    assert!(!toggle.enabled(None));
    assert_eq!(toggle.settled(), Some(false));

    let mut toggle = FeatureToggle::new();
    assert!(toggle.enabled(None));
    assert_eq!(toggle.settled(), Some(true));
    assert!(toggle.enabled(Some("1")));
    assert!(toggle.enabled(Some("true")));
    assert_eq!(toggle.settled(), Some(true));

    let mut toggle = FeatureToggle::new();
    assert!(toggle.enabled(Some("0")));
    assert!(toggle.enabled(Some("on")));
}
