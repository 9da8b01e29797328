use sidequest::fall::{FALL_SEQUENCE_MS, RESPAWN_AT_MS};
use sidequest::{FallSequence, FallStep};

#[test]
fn idle_sequence_does_nothing() {
    let mut f = FallSequence::new();
    assert!(!f.is_active());
    assert_eq!(f.advance(5000), FallStep { respawn: false, complete: false });
    assert_eq!(f.progress_permille(5000), 0);
}

#[test]
fn sequence_respawns_once_then_completes() {
    let mut f = FallSequence::new();
    f.begin(10_000);
    assert!(f.is_active());
    assert_eq!(f.advance(10_000), FallStep { respawn: false, complete: false });
    assert_eq!(f.advance(11_199), FallStep { respawn: false, complete: false });
    assert_eq!(f.advance(11_275), FallStep { respawn: true, complete: false });
    assert_eq!(f.advance(11_300), FallStep { respawn: false, complete: false });
    assert_eq!(f.advance(11_500), FallStep { respawn: false, complete: true });
    assert!(!f.is_active());
    assert_eq!(f.advance(11_600), FallStep { respawn: false, complete: false });
    assert_eq!(RESPAWN_AT_MS, 1200);
    assert_eq!(FALL_SEQUENCE_MS, 1500);
}

#[test]
fn long_gap_respawns_and_completes_together() {
    let mut f = FallSequence::new();
    f.begin(0);
    assert_eq!(f.advance(3000), FallStep { respawn: true, complete: true });
}

#[test]
fn progress_is_in_thousandths() {
    let mut f = FallSequence::new();
    f.begin(1000);
    assert_eq!(f.progress_permille(1000), 0);
    assert_eq!(f.progress_permille(1750), 500);
    assert_eq!(f.progress_permille(2275), 850);
    assert_eq!(f.progress_permille(9000), 1000);
    assert_eq!(f.progress_permille(500), 0);
}

#[test]
fn begin_restarts_a_running_sequence() {
    let mut f = FallSequence::new();
    f.begin(0);
    f.advance(1300);
    f.begin(2000);
    assert_eq!(f, FallSequence { started_at: Some(2000), respawned: false });
    assert_eq!(f.advance(3200), FallStep { respawn: true, complete: false });
}
