//! The frame-loop engine: configuration, delta-time clamping, the advisory
//! frame-rate estimate, frame-rate throttling, and per-frame event planning.
//!
//! The loop itself (polling the windowing collaborator, presenting the
//! surface, sleeping) runs at the application boundary; every decision it
//! takes per iteration is computed here. All durations are in microseconds.

use vstd::prelude::*;
use crate::event::{Event, is_quit};

verus! {

/// Upper bound on the delta time handed to user code, in microseconds
/// (0.1 s). Clamping avoids large, destabilizing steps after a stall.
pub const DT_CAP_MICROS: u64 = 100_000;

/// One second, in microseconds.
pub const MICROS_PER_SECOND: u64 = 1_000_000;

/// One second, in nanoseconds; numerator of the frame-rate estimate in
/// thousandths of a frame per second.
pub const NANOS_PER_SECOND: u64 = 1_000_000_000;

/// Configuration for the application window and rendering.
#[derive(Debug, Clone)]
pub struct AppConfig {
    /// The window title.
    pub app_name: String,
    /// The window width in pixels.
    pub window_width: u32,
    /// The window height in pixels.
    pub window_height: u32,
    /// Whether to start in fullscreen mode.
    pub fullscreen: bool,
    /// Whether to enable vsync for the renderer.
    pub vsync: bool,
    /// Optional maximum frames per second; `None` leaves the rate unbounded.
    pub max_fps: Option<u32>,
    /// Optional directory for log files. If `None`, a default under the
    /// home directory is used.
    pub log_directory: Option<String>,
}

impl AppConfig {
    /// The configuration invariant: positive window dimensions, and a
    /// positive frame-rate bound whenever one is given.
    pub open spec fn wf(self) -> bool {
        &&& self.window_width > 0
        &&& self.window_height > 0
        &&& match self.max_fps {
            Some(f) => f > 0,
            None => true,
        }
    }

    /// True exactly when the configuration meets its invariant.
    pub fn is_valid(&self) -> (r: bool)
        ensures
            r == self.wf(),
    {
        self.window_width > 0 && self.window_height > 0 && (match self.max_fps {
            Some(f) => f > 0,
            None => true,
        })
    }
}

/// The raw elapsed time since the previous frame start, clamped to the cap.
pub open spec fn spec_clamped_dt(elapsed_micros: u64) -> u64 {
    if elapsed_micros > DT_CAP_MICROS {
        DT_CAP_MICROS
    } else {
        elapsed_micros
    }
}

/// The advisory frame-rate estimate for a frame of length `dt_micros`, in
/// thousandths of a frame per second. The denominator is guarded by one
/// microsecond so that an extremely fast frame cannot divide by zero.
pub open spec fn spec_rate_estimate(dt_micros: u64) -> int {
    NANOS_PER_SECOND as int / (dt_micros as int + 1)
}

/// The frame budget for a configured maximum frame rate, in microseconds;
/// a bound of zero is treated as one frame per second.
pub open spec fn spec_frame_budget(max_fps: u32) -> int {
    MICROS_PER_SECOND as int / (if max_fps == 0 {
        1int
    } else {
        max_fps as int
    })
}

/// How long the loop must still block after a frame whose work took
/// `work_micros`: nothing under vsync or without a configured bound,
/// otherwise the remainder of the frame budget.
pub open spec fn spec_throttle_delay(vsync: bool, max_fps: Option<u32>, work_micros: u64) -> int {
    if vsync {
        0
    } else {
        match max_fps {
            Some(f) => {
                if (work_micros as int) < spec_frame_budget(f) {
                    spec_frame_budget(f) - work_micros as int
                } else {
                    0
                }
            },
            None => 0,
        }
    }
}

/// Law: the delta time handed to user code never exceeds the cap, whatever
/// the raw elapsed time was.
pub proof fn lemma_dt_clamped(elapsed_micros: u64)
    ensures
        0 <= spec_clamped_dt(elapsed_micros) <= DT_CAP_MICROS,
{
}

/// Per-frame timing state: the throttling policy and the most recent
/// frame-rate estimate.
pub struct FrameTimer {
    vsync: bool,
    max_fps: Option<u32>,
    frame_rate_milli_fps: u64,
}

impl FrameTimer {
    /// Whether the presentation call already paces the loop.
    pub closed spec fn spec_vsync(self) -> bool {
        self.vsync
    }

    /// The configured maximum frame rate, if any.
    pub closed spec fn spec_max_fps(self) -> Option<u32> {
        self.max_fps
    }

    /// The most recent frame-rate estimate, in thousandths of a frame per
    /// second; advisory only.
    pub closed spec fn spec_frame_rate(self) -> u64 {
        self.frame_rate_milli_fps
    }

    /// A timer for a loop with the given pacing policy.
    pub fn new(vsync: bool, max_fps: Option<u32>) -> (t: FrameTimer)
        ensures
            t.spec_vsync() == vsync,
            t.spec_max_fps() == max_fps,
            t.spec_frame_rate() == 0,
    {
        FrameTimer { vsync, max_fps, frame_rate_milli_fps: 0 }
    }

    /// Start a frame: clamp the raw elapsed time since the previous frame
    /// start and update the frame-rate estimate. Returns the delta time to
    /// hand to user code.
    pub fn begin_frame(&mut self, elapsed_micros: u64) -> (dt: u64)
        ensures
            dt == spec_clamped_dt(elapsed_micros),
            0 <= dt <= DT_CAP_MICROS,
            final(self).spec_frame_rate() as int == spec_rate_estimate(dt),
            final(self).spec_vsync() == old(self).spec_vsync(),
            final(self).spec_max_fps() == old(self).spec_max_fps(),
    {
        let dt: u64 = if elapsed_micros > DT_CAP_MICROS {
            DT_CAP_MICROS
        } else {
            elapsed_micros
        };
        self.frame_rate_milli_fps = NANOS_PER_SECOND / (dt + 1);
        dt
    }

    /// How long the loop must still block after this frame's work, in
    /// microseconds; zero under vsync or without a configured bound.
    pub fn throttle_delay_micros(&self, work_micros: u64) -> (d: u64)
        ensures
            d as int == spec_throttle_delay(self.spec_vsync(), self.spec_max_fps(), work_micros),
    {
        if self.vsync {
            0
        } else {
            match self.max_fps {
                Some(f) => {
                    let fps: u32 = if f == 0 {
                        1
                    } else {
                        f
                    };
                    let target: u64 = MICROS_PER_SECOND / (fps as u64);
                    if work_micros < target {
                        target - work_micros
                    } else {
                        0
                    }
                },
                None => 0,
            }
        }
    }

    /// The most recent frame-rate estimate, in thousandths of a frame per
    /// second.
    pub fn frame_rate(&self) -> (r: u64)
        ensures
            r == self.spec_frame_rate(),
    {
        self.frame_rate_milli_fps
    }
}

/// True on the quit events of `s`.
pub open spec fn has_quit(s: Seq<Event>) -> bool
    decreases s.len(),
{
    s.len() > 0 && (is_quit(s[0]) || has_quit(s.drop_first()))
}

/// The events the loop forwards to user code in one frame: every drained
/// event before the first quit event, in arrival order.
pub open spec fn forward_prefix(s: Seq<Event>) -> Seq<Event>
    decreases s.len(),
{
    if s.len() == 0 {
        Seq::empty()
    } else if is_quit(s[0]) {
        Seq::empty()
    } else {
        seq![s[0]] + forward_prefix(s.drop_first())
    }
}

/// What one frame does with the events drained from the windowing
/// collaborator.
pub struct EventPlan {
    /// The events to forward to user code, in arrival order.
    pub forward: Vec<Event>,
    /// Whether a quit event was drained; the loop then terminates after
    /// forwarding `forward` and invokes no further callbacks this frame.
    pub quit: bool,
}

/// Whether an event signals that the application should quit.
fn should_quit(event: &Event) -> (r: bool)
    ensures
        r == is_quit(*event),
{
    match event {
        Event::Quit => true,
        _ => false,
    }
}

/// Plan one frame's event dispatch: forward every drained event before the
/// first quit event, and report whether a quit event was seen at all.
pub fn plan_events(events: &Vec<Event>) -> (plan: EventPlan)
    ensures
        plan.quit == has_quit(events@),
        plan.forward@ == forward_prefix(events@),
{
    let mut forward: Vec<Event> = Vec::new();
    let mut quit: bool = false;
    let n = events.len();
    let mut i: usize = 0;
    proof {
        assert(events@.skip(0) =~= events@);
        assert(forward@ + forward_prefix(events@.skip(0)) =~= forward_prefix(events@));
    }
    while i < n && !quit
        invariant
            i <= n,
            n == events@.len(),
            quit ==> has_quit(events@) && forward@ == forward_prefix(events@),
            !quit ==> forward_prefix(events@) == forward@ + forward_prefix(
                events@.skip(i as int),
            ),
            !quit ==> has_quit(events@) == has_quit(events@.skip(i as int)),
        decreases n - i,
    {
        let e = events[i];
        proof {
            assert(events@.skip(i as int).len() > 0);
            assert(events@.skip(i as int)[0] == events@[i as int]);
            assert(events@.skip(i as int).drop_first() =~= events@.skip(i as int + 1));
        }
        if should_quit(&e) {
            quit = true;
            proof {
                assert(forward@ + forward_prefix(events@.skip(i as int)) =~= forward@);
            }
        } else {
            let ghost prior = forward@;
            forward.push(e);
            proof {
                assert(forward_prefix(events@.skip(i as int)) == seq![events@[i as int]]
                    + forward_prefix(events@.skip(i as int + 1)));
                assert(prior + (seq![events@[i as int]] + forward_prefix(
                    events@.skip(i as int + 1),
                )) =~= forward@ + forward_prefix(events@.skip(i as int + 1)));
            }
        }
        i = i + 1;
    }
    proof {
        if !quit {
            assert(events@.skip(n as int) =~= Seq::<Event>::empty());
            assert(forward@ + forward_prefix(events@.skip(n as int)) =~= forward@);
        }
    }
    EventPlan { forward, quit }
}

} // verus!
