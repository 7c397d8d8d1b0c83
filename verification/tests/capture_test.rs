use godot_wry_playwright::capture::{capture_interval_ms, CaptureSchedule};

#[test]
fn interval_at_thirty_fps_is_thirty_three_ms() {
  assert_eq!(capture_interval_ms(30), 33);
}

#[test]
fn interval_exact_values() {
  assert_eq!(capture_interval_ms(1), 1000);
  assert_eq!(capture_interval_ms(2), 500);
  assert_eq!(capture_interval_ms(3), 333);
  assert_eq!(capture_interval_ms(7), 142);
  assert_eq!(capture_interval_ms(24), 41);
  assert_eq!(capture_interval_ms(29), 34);
}

#[test]
fn fps_is_clamped() {
  assert_eq!(capture_interval_ms(0), 1000);
  assert_eq!(capture_interval_ms(-5), 1000);
  assert_eq!(capture_interval_ms(i32::MIN), 1000);
  assert_eq!(capture_interval_ms(31), 33);
  assert_eq!(capture_interval_ms(60), 33);
  assert_eq!(capture_interval_ms(i32::MAX), 33);
}

#[test]
fn no_capture_before_a_page_has_loaded() {
  let mut schedule = CaptureSchedule::new(30, 0);
  assert!(!schedule.tick(0));
  assert!(!schedule.tick(33));
  assert!(!schedule.tick(10_000));
}

#[test]
fn first_capture_comes_at_once_after_page_load() {
  let mut schedule = CaptureSchedule::new(30, 0);
  schedule.page_loaded(5);
  assert!(schedule.tick(5));
}

#[test]
fn no_second_capture_while_one_is_in_flight() {
  let mut schedule = CaptureSchedule::new(30, 0);
  schedule.page_loaded(100);
  assert!(schedule.tick(100));
  assert!(!schedule.tick(133));
  assert!(!schedule.tick(1_000));
  assert!(!schedule.tick(u64::MAX));
  schedule.capture_done();
  assert!(schedule.tick(1_050));
}

#[test]
fn captures_keep_the_interval() {
  let mut schedule = CaptureSchedule::new(30, 0);
  schedule.page_loaded(100);
  assert!(schedule.tick(100));
  schedule.capture_done();
  assert!(!schedule.tick(132));
  assert!(schedule.tick(133));
  schedule.capture_done();
  assert!(!schedule.tick(165));
  assert!(schedule.tick(166));
}

#[test]
fn slow_capture_does_not_cause_a_burst() {
  let mut schedule = CaptureSchedule::new(10, 0);
  schedule.page_loaded(0);
  assert!(schedule.tick(0));
  schedule.capture_done();
  // The capture took long; the next is due at once, and then one interval
  // after it, not back to back.
  assert!(schedule.tick(450));
  schedule.capture_done();
  assert!(!schedule.tick(451));
  assert!(!schedule.tick(549));
  assert!(schedule.tick(550));
}

#[test]
fn navigation_holds_captures_back() {
  let mut schedule = CaptureSchedule::new(30, 0);
  schedule.page_loaded(0);
  assert!(schedule.tick(0));
  schedule.capture_done();
  schedule.navigation_started();
  assert!(!schedule.tick(1_000));
  schedule.page_loaded(1_200);
  assert!(schedule.tick(1_200));
}

#[test]
fn set_fps_retunes_the_cadence() {
  let mut schedule = CaptureSchedule::new(30, 0);
  schedule.page_loaded(0);
  schedule.set_fps(2, 100);
  assert!(!schedule.tick(599));
  assert!(schedule.tick(600));
  schedule.capture_done();
  assert!(!schedule.tick(1_099));
  assert!(schedule.tick(1_100));
}

#[test]
fn capture_once_makes_the_next_tick_eligible() {
  let mut schedule = CaptureSchedule::new(1, 0);
  schedule.page_loaded(0);
  assert!(schedule.tick(0));
  schedule.capture_done();
  assert!(!schedule.tick(500));
  schedule.capture_once(500);
  assert!(schedule.tick(500));
}

#[test]
fn capture_once_waits_for_the_capture_in_flight() {
  let mut schedule = CaptureSchedule::new(1, 0);
  schedule.page_loaded(0);
  assert!(schedule.tick(0));
  schedule.capture_once(10);
  assert!(!schedule.tick(10));
  schedule.capture_done();
  assert!(schedule.tick(11));
}

#[test]
fn schedule_saturates_at_the_end_of_the_clock() {
  let mut schedule = CaptureSchedule::new(1, 0);
  schedule.page_loaded(u64::MAX - 10);
  assert!(schedule.tick(u64::MAX - 10));
  schedule.capture_done();
  assert!(!schedule.tick(u64::MAX - 1));
  assert!(schedule.tick(u64::MAX));
}
