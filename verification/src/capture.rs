//! The cadence of frame captures: when a tick may ask the browser engine for
//! a frame, so that captures never overlap and never run back to back.

use crate::pending::deadline_of;
use vstd::prelude::*;

verus! {

/// The slowest cadence, in frames per second.
pub const MIN_FPS: i32 = 1;

/// The fastest cadence, in frames per second.
pub const MAX_FPS: i32 = 30;

/// `fps` brought into the range from `MIN_FPS` to `MAX_FPS`.
pub open spec fn clamped_fps(fps: i32) -> i32 {
    if fps < MIN_FPS {
        MIN_FPS
    } else if fps > MAX_FPS {
        MAX_FPS
    } else {
        fps
    }
}

/// The time between two captures at `fps` frames per second, in whole
/// milliseconds: 1000 divided by the clamped rate, rounded down.
pub open spec fn capture_interval(fps: i32) -> u64 {
    (1000int / (clamped_fps(fps) as int)) as u64
}

/// The time between two captures at `fps` frames per second, in whole
/// milliseconds.
pub fn capture_interval_ms(fps: i32) -> (interval: u64)
    ensures
        interval == capture_interval(fps),
        33 <= interval <= 1000,
        interval * clamped_fps(fps) <= 1000 < (interval + 1) * clamped_fps(fps),
{
    let rate: i32 = if fps < MIN_FPS {
        MIN_FPS
    } else if fps > MAX_FPS {
        MAX_FPS
    } else {
        fps
    };
    let interval: u64 = 1000 / (rate as u64);
    proof {
        lemma_interval_is_quotient(fps);
    }
    interval
}

/// The interval is the whole number of milliseconds that fits into a second
/// once for every frame: between 33 at the fastest rate and 1000 at the
/// slowest.
pub proof fn lemma_interval_is_quotient(fps: i32)
    ensures
        33 <= capture_interval(fps) <= 1000,
        capture_interval(fps) * clamped_fps(fps) <= 1000 < (capture_interval(fps) + 1)
            * clamped_fps(fps),
        fps >= MAX_FPS ==> capture_interval(fps) == 33,
        fps <= MIN_FPS ==> capture_interval(fps) == 1000,
{
    let rate = clamped_fps(fps) as int;
    let q = 1000int / rate;
    assert(33 <= q <= 1000 && q * rate <= 1000 < (q + 1) * rate) by (nonlinear_arith)
        requires
            1 <= rate <= 30,
            q == 1000int / rate,
    ;
    if fps >= MAX_FPS {
        assert(q == 33) by (nonlinear_arith)
            requires
                rate == 30,
                q * rate <= 1000 < (q + 1) * rate,
        ;
    }
    if fps <= MIN_FPS {
        assert(q == 1000) by (nonlinear_arith)
            requires
                rate == 1,
                q * rate <= 1000 < (q + 1) * rate,
        ;
    }
}

/// The state of the capture cadence.
pub struct ScheduleView {
    /// A page has finished loading since the last navigation began.
    pub ready: bool,
    /// The time between two captures, in milliseconds.
    pub interval_ms: u64,
    /// The instant from which the next capture may be requested.
    pub next_at_ms: u64,
    /// A capture was requested and has not finished.
    pub in_flight: bool,
}

/// Whether a tick at `now_ms` requests a capture: a page is loaded, the
/// scheduled instant has come, and no capture is in flight.
pub open spec fn capture_due(schedule: ScheduleView, now_ms: u64) -> bool {
    schedule.ready && now_ms >= schedule.next_at_ms && !schedule.in_flight
}

/// The schedule right after it was created at `now_ms` for `fps` frames per
/// second.
pub open spec fn initial_schedule(fps: i32, now_ms: u64) -> ScheduleView {
    ScheduleView {
        ready: false,
        interval_ms: capture_interval(fps),
        next_at_ms: deadline_of(now_ms, capture_interval(fps)),
        in_flight: false,
    }
}

/// The schedule after the rate was set to `fps` at `now_ms`.
pub open spec fn after_set_fps(schedule: ScheduleView, fps: i32, now_ms: u64) -> ScheduleView {
    ScheduleView {
        interval_ms: capture_interval(fps),
        next_at_ms: deadline_of(now_ms, capture_interval(fps)),
        ..schedule
    }
}

/// The schedule after a single capture was asked for at `now_ms`.
pub open spec fn after_capture_once(schedule: ScheduleView, now_ms: u64) -> ScheduleView {
    ScheduleView { next_at_ms: now_ms, ..schedule }
}

/// The schedule after a navigation began.
pub open spec fn after_navigation_started(schedule: ScheduleView) -> ScheduleView {
    ScheduleView { ready: false, ..schedule }
}

/// The schedule after a page finished loading at `now_ms`.
pub open spec fn after_page_loaded(schedule: ScheduleView, now_ms: u64) -> ScheduleView {
    ScheduleView { ready: true, next_at_ms: now_ms, ..schedule }
}

/// The schedule after a tick at `now_ms`. Where a capture is due it is now
/// in flight and the next one is scheduled one interval later; otherwise
/// nothing changes.
pub open spec fn after_tick(schedule: ScheduleView, now_ms: u64) -> ScheduleView {
    if capture_due(schedule, now_ms) {
        ScheduleView {
            in_flight: true,
            next_at_ms: deadline_of(now_ms, schedule.interval_ms),
            ..schedule
        }
    } else {
        schedule
    }
}

/// The schedule after the capture in flight ended, with a frame or with an
/// error.
pub open spec fn after_capture_done(schedule: ScheduleView) -> ScheduleView {
    ScheduleView { in_flight: false, ..schedule }
}

/// When the next frame capture may be requested.
#[derive(Debug, Clone, Copy)]
pub struct CaptureSchedule {
    ready: bool,
    interval_ms: u64,
    next_at_ms: u64,
    in_flight: bool,
}

impl View for CaptureSchedule {
    type V = ScheduleView;

    closed spec fn view(&self) -> ScheduleView {
        ScheduleView {
            ready: self.ready,
            interval_ms: self.interval_ms,
            next_at_ms: self.next_at_ms,
            in_flight: self.in_flight,
        }
    }
}

impl CaptureSchedule {
    /// A schedule for `fps` frames per second, created at `now_ms`. No
    /// capture is requested before a page has loaded.
    pub fn new(fps: i32, now_ms: u64) -> (schedule: Self)
        ensures
            schedule@ == initial_schedule(fps, now_ms),
    {
        let interval_ms = capture_interval_ms(fps);
        CaptureSchedule {
            ready: false,
            interval_ms,
            next_at_ms: now_ms.saturating_add(interval_ms),
            in_flight: false,
        }
    }

    /// Sets the rate to `fps` frames per second; the next capture is due one
    /// interval after `now_ms`.
    pub fn set_fps(&mut self, fps: i32, now_ms: u64)
        ensures
            final(self)@ == after_set_fps(old(self)@, fps, now_ms),
    {
        let interval_ms = capture_interval_ms(fps);
        self.interval_ms = interval_ms;
        self.next_at_ms = now_ms.saturating_add(interval_ms);
    }

    /// Makes the very next tick eligible to capture.
    pub fn capture_once(&mut self, now_ms: u64)
        ensures
            final(self)@ == after_capture_once(old(self)@, now_ms),
    {
        self.next_at_ms = now_ms;
    }

    /// Holds captures back until the page of the navigation that begins now
    /// has loaded.
    pub fn navigation_started(&mut self)
        ensures
            final(self)@ == after_navigation_started(old(self)@),
    {
        self.ready = false;
    }

    /// Lets captures go ahead, the first one at once.
    pub fn page_loaded(&mut self, now_ms: u64)
        ensures
            final(self)@ == after_page_loaded(old(self)@, now_ms),
    {
        self.ready = true;
        self.next_at_ms = now_ms;
    }

    /// Decides whether the tick at `now_ms` requests a capture, and if so
    /// marks it in flight and schedules the next one.
    pub fn tick(&mut self, now_ms: u64) -> (request: bool)
        ensures
            request == capture_due(old(self)@, now_ms),
            final(self)@ == after_tick(old(self)@, now_ms),
            old(self)@.in_flight ==> !request,
    {
        if self.ready && now_ms >= self.next_at_ms && !self.in_flight {
            self.in_flight = true;
            self.next_at_ms = now_ms.saturating_add(self.interval_ms);
            true
        } else {
            false
        }
    }

    /// Records that the capture in flight has ended.
    pub fn capture_done(&mut self)
        ensures
            final(self)@ == after_capture_done(old(self)@),
    {
        self.in_flight = false;
    }
}

/// While a capture is in flight no tick requests another, however late it
/// comes, and the schedule does not move.
pub proof fn lemma_no_overlapping_capture(schedule: ScheduleView, now_ms: u64)
    requires
        schedule.in_flight,
    ensures
        !capture_due(schedule, now_ms),
        after_tick(schedule, now_ms) == schedule,
{
}

/// A tick that requests a capture leaves one in flight, so the ticks that
/// follow request none until that capture has ended.
pub proof fn lemma_capture_blocks_next(schedule: ScheduleView, now_ms: u64, later_ms: u64)
    requires
        capture_due(schedule, now_ms),
    ensures
        after_tick(schedule, now_ms).in_flight,
        !capture_due(after_tick(schedule, now_ms), later_ms),
{
}

/// Once a capture was requested at `now_ms` and has ended, the next one is
/// not requested before a whole interval has passed, as long as the clock
/// can represent that instant.
pub proof fn lemma_cadence(schedule: ScheduleView, now_ms: u64, later_ms: u64)
    requires
        capture_due(schedule, now_ms),
        now_ms + schedule.interval_ms <= u64::MAX,
        later_ms < now_ms + schedule.interval_ms,
    ensures
        !capture_due(after_capture_done(after_tick(schedule, now_ms)), later_ms),
{
}

} // verus!
