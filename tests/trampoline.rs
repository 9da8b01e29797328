use sidequest::trampoline::{height_factor, TRAMPOLINE_ANIMATION_MS, TRAMPOLINE_COMPRESSION};
use sidequest::{hitbox_change, HitboxChange, TrampolineAnimation, TrampolinePose};

#[test]
fn height_factor_values() {
    assert_eq!(height_factor(0, 300), 1000);
    assert_eq!(height_factor(250, 300), 925);
    assert_eq!(height_factor(499, 300), 702);
    assert_eq!(height_factor(500, 300), 670);
    assert_eq!(height_factor(750, 300), 924);
    assert_eq!(height_factor(999, 300), 1000);
}

#[test]
fn idle_animation_leaves_surface_alone() {
    let mut a = TrampolineAnimation::new(1000, 1000);
    assert_eq!(a.advance(16), None);
    assert_eq!(a, TrampolineAnimation::new(1000, 1000));
}

#[test]
fn animation_compresses_then_returns_to_rest() {
    let mut a = TrampolineAnimation::new(1000, 1000);
    assert_eq!(TRAMPOLINE_ANIMATION_MS, 300);
    assert_eq!(TRAMPOLINE_COMPRESSION, 300);
    a.trigger();
    assert!(a.is_animating);
    // 75 ms of 300: progress 250, factor 925.
    assert_eq!(a.advance(75), Some(TrampolinePose { y: 985, scale_y: 925 }));
    // 150 ms: progress 500, the deepest point, factor 670.
    assert_eq!(a.advance(75), Some(TrampolinePose { y: 934, scale_y: 670 }));
    // 225 ms: progress 750, factor 924.
    assert_eq!(a.advance(75), Some(TrampolinePose { y: 985, scale_y: 924 }));
    // 300 ms: over, back at rest.
    assert_eq!(a.advance(75), Some(TrampolinePose { y: 1000, scale_y: 1000 }));
    assert!(!a.is_animating);
    assert_eq!(a.animation_time, 0);
    assert_eq!(a.advance(75), None);
}

#[test]
fn trigger_restarts_animation() {
    let mut a = TrampolineAnimation::new(0, 2000);
    a.trigger();
    a.advance(200);
    a.trigger();
    assert_eq!(a.animation_time, 0);
    assert_eq!(a.advance(75), Some(TrampolinePose { y: -15, scale_y: 1850 }));
}

#[test]
fn hitbox_changes_only_when_needed() {
    assert_eq!(hitbox_change(true, false), Some(HitboxChange::ActivateFeet));
    assert_eq!(hitbox_change(true, true), None);
    assert_eq!(hitbox_change(false, true), Some(HitboxChange::RestoreStandard));
    assert_eq!(hitbox_change(false, false), None);
}
