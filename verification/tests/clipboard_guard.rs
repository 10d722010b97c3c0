use password_out::hotkey::clipboard_guard::{clipboard_holds, ClipboardGuard, PasteDetector};

#[test]
fn a_copy_is_cleared_by_its_own_timer() {
    let mut guard = ClipboardGuard::new();
    let (generation, replaced) = guard.activate("s3cret".to_string());
    assert_eq!(generation, 1);
    assert!(!replaced);
    assert!(guard.should_clear(generation, "s3cret"));
    assert!(!guard.should_clear(generation, "other"));
    assert_eq!(guard.snapshot(), Some((1, "s3cret".to_string())));
    assert!(guard.deactivate_if_generation_matches(generation));
    assert_eq!(guard.snapshot(), None);
    assert!(!guard.should_clear(generation, "s3cret"));
}

#[test]
fn a_later_copy_supersedes_the_earlier_timer() {
    let mut guard = ClipboardGuard::new();
    let (first, _) = guard.activate("same".to_string());
    let (second, replaced) = guard.activate("same".to_string());
    assert_eq!(second, first + 1);
    assert!(replaced);
    assert!(!guard.should_clear(first, "same"));
    assert!(guard.should_clear(second, "same"));
    assert!(!guard.deactivate_if_generation_matches(first));
    assert_eq!(guard.snapshot(), Some((second, "same".to_string())));
}

#[test]
fn replacing_the_clipboard_ends_the_copy() {
    let mut guard = ClipboardGuard::new();
    let (generation, _) = guard.activate("pw".to_string());
    assert!(!guard.on_clipboard_text(generation, "pw"));
    assert_eq!(guard.snapshot(), Some((generation, "pw".to_string())));
    assert!(!guard.on_clipboard_text(generation + 1, "something else"));
    assert!(guard.on_clipboard_text(generation, "something else"));
    assert_eq!(guard.snapshot(), None);
}

#[test]
fn paste_is_detected_on_the_key_down_edge() {
    let mut detector = PasteDetector::new();
    assert!(detector.sample(true, false, true, false));
    assert!(!detector.sample(true, false, true, false));
    assert!(!detector.sample(true, false, false, false));
    assert!(detector.sample(false, true, false, true));
    assert!(!detector.sample(false, false, true, false));
}


#[test]
fn only_the_copied_secret_is_cleared() {
    assert!(clipboard_holds("s3cret", "s3cret"));
    assert!(!clipboard_holds("something else", "s3cret"));
    assert!(!clipboard_holds("", "s3cret"));
}
