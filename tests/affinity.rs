use c2pa_preview::affinity::{StartupInspect, Target, STARTUP_DURATION_NANOS};

#[test]
fn first_request_within_grace_period_uses_startup_window() {
    let mut a = StartupInspect::new(5_000);
    assert!(!a.is_startup_used());
    assert_eq!(a.dispatch(5_000 + 100_000_000), Target::StartupWindow);
    assert!(a.is_startup_used());
}

#[test]
fn two_simultaneous_requests_only_one_wins_startup_window() {
    let mut a = StartupInspect::new(0);
    let first = a.dispatch(1);
    let second = a.dispatch(1);
    assert_eq!(first, Target::StartupWindow);
    assert_eq!(second, Target::NewWindow);
}

#[test]
fn used_startup_window_always_gives_new_window() {
    let mut a = StartupInspect::new(0);
    a.dispatch(0);
    for now in [0u64, 1, 499_999_999, 500_000_000, 10_000_000_000] {
        assert_eq!(a.dispatch(now), Target::NewWindow);
    }
}

#[test]
fn context_menu_two_seconds_after_launch_creates_new_window() {
    let mut a = StartupInspect::new(1_000_000);
    assert_eq!(a.dispatch(1_000_000 + 2_000_000_000), Target::NewWindow);
    assert!(!a.is_startup_used());
}

#[test]
fn grace_period_boundary_is_exclusive() {
    let mut a = StartupInspect::new(0);
    assert_eq!(a.dispatch(STARTUP_DURATION_NANOS), Target::NewWindow);
    let mut b = StartupInspect::new(0);
    assert_eq!(b.dispatch(STARTUP_DURATION_NANOS - 1), Target::StartupWindow);
}

#[test]
fn clock_before_startup_counts_as_no_time_elapsed() {
    let mut a = StartupInspect::new(1_000);
    assert_eq!(a.dispatch(0), Target::StartupWindow);
}

#[test]
fn grace_period_is_half_a_second() {
    assert_eq!(STARTUP_DURATION_NANOS, 500_000_000);
}
