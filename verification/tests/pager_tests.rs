use babelmap::pager::{activation_target, Pager};

#[test]
fn no_pager_when_output_fits_one_screen() {
    assert_eq!(activation_target(20, 28, 10), None);
    assert_eq!(activation_target(20, 30, 10), None);
    assert_eq!(activation_target(0, 100, 0), None);
}

#[test]
fn pager_parks_at_first_new_screenful() {
    assert_eq!(activation_target(2, 27, 10), Some(15));
    let t = activation_target(2, 27, 10).unwrap();
    assert!(t <= 27u16.saturating_sub(10));
}

#[test]
fn arm_disarm_roundtrip() {
    let mut p = Pager::default();
    assert!(p.pending_before_rows.is_none());
    p.arm(42);
    assert_eq!(p.pending_before_rows, Some(42));
    p.disarm();
    assert!(p.pending_before_rows.is_none());
    assert!(!p.active);
}

#[test]
fn the_target_leaves_one_screen_below_the_old_bottom() {
    // 100 rows before, 160 after, 20 visible: park 40 rows up.
    assert_eq!(activation_target(100, 160, 20), Some(40));
    // Rows that shrank (a cleared screen) never engage.
    assert_eq!(activation_target(50, 10, 5), None);
}
