use d2b_clip_picker::focus::{FocusLifecycle, FocusTransition};

#[test]
fn startup_inactive_transition_is_ignored_then_focus_loss_cancels_once() {
    let mut lifecycle = FocusLifecycle::default();

    assert_eq!(
        lifecycle.focus_changed(false),
        FocusTransition::Keep,
        "startup inactivity must not dismiss the picker"
    );
    assert_eq!(lifecycle.focus_changed(true), FocusTransition::Keep);
    assert_eq!(lifecycle.focus_changed(false), FocusTransition::Cancel);
    assert_eq!(lifecycle.focus_changed(false), FocusTransition::Keep);
    assert!(!lifecycle.claim_terminal(), "cancel must be claimed once");
}

#[test]
fn pin_suppresses_focus_loss_and_unpinning_while_inactive_cancels() {
    let mut lifecycle = FocusLifecycle::default();

    lifecycle.focus_changed(true);
    assert_eq!(lifecycle.set_pinned(true), FocusTransition::Keep);
    assert!(lifecycle.is_pinned());
    assert_eq!(lifecycle.focus_changed(false), FocusTransition::Keep);
    assert_eq!(lifecycle.set_pinned(false), FocusTransition::Cancel);
    assert_eq!(lifecycle.set_pinned(false), FocusTransition::Keep);
}

#[test]
fn explicit_terminal_action_prevents_focus_loss_cancel() {
    let mut lifecycle = FocusLifecycle::default();

    lifecycle.focus_changed(true);
    assert!(lifecycle.claim_terminal());
    assert_eq!(lifecycle.focus_changed(false), FocusTransition::Keep);
    assert!(!lifecycle.claim_terminal());
}

#[test]
fn pinning_before_the_first_focus_does_not_cancel() {
    let mut lifecycle = FocusLifecycle::default();
    assert_eq!(lifecycle.set_pinned(true), FocusTransition::Keep);
    assert_eq!(lifecycle.set_pinned(false), FocusTransition::Keep);
    assert!(!lifecycle.has_answered());
    assert!(lifecycle.claim_terminal());
    assert!(lifecycle.has_answered());
}
