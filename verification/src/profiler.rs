use vstd::prelude::*;
use std::collections::VecDeque;
use std::time::{Duration, Instant};
use crate::text::{append_decimal, decimal};

verus! {

/// A point in time read from the monotonic clock.
#[verifier::external_type_specification]
#[verifier::external_body]
pub struct ExInstant(Instant);

/// The largest number of nanoseconds a `Duration` can hold (`u64::MAX`
/// seconds and 999 999 999 nanoseconds).
pub const MAX_DURATION_NANOS: u128 = 18_446_744_073_709_551_615_999_999_999;

/// Nanoseconds in a millisecond.
pub const NANOS_PER_MILLI: u128 = 1_000_000;

/// The number of frame times the profiler keeps.
pub const FRAME_HISTORY: usize = 120;

/// Reads the monotonic clock (`Instant::now`). Nothing is stated of the
/// result: it is the time of the call.
#[verifier::external_body]
fn clock_now() -> Instant {
    Instant::now()
}

/// The time passed since `start` (`Instant::elapsed`). Nothing is stated of
/// the result: it depends on the time of the call.
#[verifier::external_body]
fn elapsed_since(start: &Instant) -> Duration {
    start.elapsed()
}

/// The nanoseconds in `d` (`Duration::as_nanos`). Stated: at most the
/// nanoseconds of `Duration::MAX`. The durations handed to it here are
/// clock readings, so the value itself is not tied to anything.
#[verifier::external_body]
fn duration_nanos(d: &Duration) -> (nanos: u128)
    ensures
        nanos <= MAX_DURATION_NANOS,
{
    d.as_nanos()
}

/// The share of a frame that a part took, in whole percent (rounded down),
/// measured against a frame of at least 1 ms.
pub open spec fn share_percent(part_ms: u128, frame_ms: u32) -> int {
    (part_ms * 100) / (if frame_ms == 0 { 1int } else { frame_ms as int })
}

/// A percentage as it is printed: limited to `u32::MAX`.
pub open spec fn shown(percent: int) -> nat {
    if percent > u32::MAX {
        u32::MAX as nat
    } else {
        percent as nat
    }
}

/// The largest of three numbers.
pub open spec fn max3(a: int, b: int, c: int) -> int {
    let m = if a > b { a } else { b };
    if m > c { m } else { c }
}

/// The bottleneck description for a frame: balanced when no part takes
/// more than 40 % of the frame, physics- or render-heavy (whichever took
/// longer, render on a tie) up to 60 %, critical above.
pub open spec fn bottleneck_text(frame_ms: u32, physics_ms: u128, render_ms: u128, gpu_ms: u128) -> Seq<char> {
    let physics = share_percent(physics_ms, frame_ms);
    let render = share_percent(render_ms, frame_ms);
    let gpu = share_percent(gpu_ms, frame_ms);
    let worst = max3(physics, render, gpu);
    let frame = decimal(frame_ms as nat);
    if worst <= 40 {
        "\u{2705} BALANCED ("@ + frame + "ms)"@
    } else if worst <= 60 {
        if physics_ms > render_ms {
            "\u{26a0}\u{fe0f} PHYSICS HEAVY ("@ + frame + "ms) - "@ + decimal(shown(physics)) + "%"@
        } else {
            "\u{26a0}\u{fe0f} RENDER HEAVY ("@ + frame + "ms) - "@ + decimal(shown(render)) + "%"@
        }
    } else {
        "\u{1f534} CRITICAL ("@ + frame + "ms) - Physics:"@ + decimal(shown(physics)) + "% Render:"@
            + decimal(shown(render)) + "% GPU:"@ + decimal(shown(gpu)) + "%"@
    }
}

fn percent_of(part_ms: u128, frame_ms: u32) -> (p: u128)
    requires
        part_ms <= u128::MAX / 100,
    ensures
        p == share_percent(part_ms, frame_ms),
{
    let frame: u128 = if frame_ms == 0 { 1 } else { frame_ms as u128 };
    part_ms * 100 / frame
}

fn shown_percent(p: u128) -> (s: u32)
    ensures
        s == shown(p as int),
{
    if p > u32::MAX as u128 {
        u32::MAX
    } else {
        p as u32
    }
}

/// Describes where the time of a frame went (see `bottleneck_text`).
pub fn describe_bottleneck(frame_ms: u32, physics_ms: u128, render_ms: u128, gpu_ms: u128) -> (text: String)
    requires
        physics_ms <= u128::MAX / 100,
        render_ms <= u128::MAX / 100,
        gpu_ms <= u128::MAX / 100,
    ensures
        text@ == bottleneck_text(frame_ms, physics_ms, render_ms, gpu_ms),
{
    let physics = percent_of(physics_ms, frame_ms);
    let render = percent_of(render_ms, frame_ms);
    let gpu = percent_of(gpu_ms, frame_ms);
    let mut worst = if physics > render { physics } else { render };
    if gpu > worst {
        worst = gpu;
    }
    if worst <= 40 {
        let mut text = String::from_str("\u{2705} BALANCED (");
        append_decimal(&mut text, frame_ms);
        text.append("ms)");
        text
    } else if worst <= 60 {
        if physics_ms > render_ms {
            let mut text = String::from_str("\u{26a0}\u{fe0f} PHYSICS HEAVY (");
            append_decimal(&mut text, frame_ms);
            text.append("ms) - ");
            append_decimal(&mut text, shown_percent(physics));
            text.append("%");
            text
        } else {
            let mut text = String::from_str("\u{26a0}\u{fe0f} RENDER HEAVY (");
            append_decimal(&mut text, frame_ms);
            text.append("ms) - ");
            append_decimal(&mut text, shown_percent(render));
            text.append("%");
            text
        }
    } else {
        let mut text = String::from_str("\u{1f534} CRITICAL (");
        append_decimal(&mut text, frame_ms);
        text.append("ms) - Physics:");
        append_decimal(&mut text, shown_percent(physics));
        text.append("% Render:");
        append_decimal(&mut text, shown_percent(render));
        text.append("% GPU:");
        append_decimal(&mut text, shown_percent(gpu));
        text.append("%");
        text
    }
}

/// The sum of a sequence of times.
pub open spec fn total(times: Seq<u128>) -> int
    decreases times.len(),
{
    if times.len() == 0 {
        0
    } else {
        total(times.drop_last()) + times.last()
    }
}

/// The average of the recorded frame times in nanoseconds, rounded down,
/// or `None` when their sum exceeds what a `Duration` can hold.
pub open spec fn average_of(times: Seq<u128>) -> Option<u128> {
    if total(times) > MAX_DURATION_NANOS {
        None
    } else {
        Some((total(times) / (times.len() as int)) as u128)
    }
}

/// The length of the last recorded frame in whole milliseconds (truncated
/// to 32 bits), or 16 when no frame was recorded.
pub open spec fn last_frame_ms(times: Seq<u128>) -> u32 {
    if times.len() == 0 {
        16
    } else {
        (times.last() / NANOS_PER_MILLI) as u32
    }
}

/// The pause that keeps a frame to `target_nanos`: what is left of the
/// target after `elapsed_nanos`, or nothing when the frame took longer.
pub fn pacing_delay(elapsed_nanos: u128, target_nanos: u128) -> (delay: u128)
    ensures
        delay == if elapsed_nanos < target_nanos {
            target_nanos - elapsed_nanos
        } else {
            0
        },
{
    if elapsed_nanos < target_nanos {
        target_nanos - elapsed_nanos
    } else {
        0
    }
}

/// Measures frame times and the time spent in each part of a frame, all
/// in nanoseconds.
pub struct FrameProfiler {
    frame_start: Instant,
    frame_times: VecDeque<u128>,
    max_history: usize,
    physics_nanos: u128,
    render_nanos: u128,
    gpu_nanos: u128,
}

impl FrameProfiler {
    /// The recorded frame times, oldest first.
    pub closed spec fn frame_times(&self) -> Seq<u128> {
        self.frame_times@
    }

    /// The clock reading at which the current frame started.
    pub closed spec fn started_at(&self) -> Instant {
        self.frame_start
    }

    /// The recorded physics time.
    pub closed spec fn physics(&self) -> u128 {
        self.physics_nanos
    }

    /// The recorded render time.
    pub closed spec fn render(&self) -> u128 {
        self.render_nanos
    }

    /// The recorded GPU time.
    pub closed spec fn gpu(&self) -> u128 {
        self.gpu_nanos
    }

    /// The profiler keeps at most `FRAME_HISTORY` frame times, each no
    /// longer than a `Duration` can hold.
    pub closed spec fn well_formed(&self) -> bool {
        &&& self.max_history == FRAME_HISTORY
        &&& self.frame_times@.len() <= FRAME_HISTORY
        &&& forall|i: int|
            0 <= i < self.frame_times@.len() ==> #[trigger] self.frame_times@[i]
                <= MAX_DURATION_NANOS
    }

    /// A profiler with no recorded frames and zero part times, started now.
    pub fn new() -> (p: Self)
        ensures
            p.well_formed(),
            p.frame_times() == Seq::<u128>::empty(),
            p.physics() == 0,
            p.render() == 0,
            p.gpu() == 0,
    {
        let p = FrameProfiler {
            frame_start: clock_now(),
            frame_times: VecDeque::with_capacity(FRAME_HISTORY),
            max_history: FRAME_HISTORY,
            physics_nanos: 0,
            render_nanos: 0,
            gpu_nanos: 0,
        };
        assert(p.frame_times@ =~= Seq::<u128>::empty());
        p
    }

    /// Marks the start of a frame with a fresh clock reading.
    pub fn frame_start(&mut self)
        ensures
            final(self).frame_times() == old(self).frame_times(),
            final(self).well_formed() == old(self).well_formed(),
            final(self).physics() == old(self).physics(),
            final(self).render() == old(self).render(),
            final(self).gpu() == old(self).gpu(),
    {
        self.frame_start = clock_now();
    }

    /// Records the time since the frame started, dropping the oldest
    /// record beyond `FRAME_HISTORY`, and answers the average of the
    /// records (`None` if their sum exceeds a `Duration`) and the time of
    /// this frame, in nanoseconds.
    pub fn frame_end(&mut self) -> (r: (Option<u128>, u128))
        requires
            old(self).well_formed(),
        ensures
            final(self).well_formed(),
            r.1 <= MAX_DURATION_NANOS,
            final(self).frame_times() == if old(self).frame_times().len() + 1 > FRAME_HISTORY {
                old(self).frame_times().push(r.1).drop_first()
            } else {
                old(self).frame_times().push(r.1)
            },
            r.0 == average_of(final(self).frame_times()),
            last_frame_ms(final(self).frame_times()) == (r.1 / NANOS_PER_MILLI) as u32,
            final(self).started_at() == old(self).started_at(),
            final(self).physics() == old(self).physics(),
            final(self).render() == old(self).render(),
            final(self).gpu() == old(self).gpu(),
    {
        let frame_time = duration_nanos(&elapsed_since(&self.frame_start));
        self.frame_times.push_back(frame_time);
        if self.frame_times.len() > self.max_history {
            let _ = self.frame_times.pop_front();
        }
        let ghost pushed = old(self).frame_times@.push(frame_time);
        assert(self.frame_times@ =~= if pushed.len() > FRAME_HISTORY {
            pushed.drop_first()
        } else {
            pushed
        });
        assert forall|i: int| 0 <= i < self.frame_times@.len() implies #[trigger] self.frame_times@[i]
            <= MAX_DURATION_NANOS by {
            if pushed.len() > FRAME_HISTORY {
                assert(self.frame_times@[i] == pushed[i + 1]);
            } else {
                assert(self.frame_times@[i] == pushed[i]);
            }
        }
        let count = self.frame_times.len();
        let mut sum: u128 = 0;
        let mut i: usize = 0;
        while i < count
            invariant
                i <= count <= FRAME_HISTORY,
                count == self.frame_times@.len(),
                forall|j: int|
                    0 <= j < self.frame_times@.len() ==> #[trigger] self.frame_times@[j]
                        <= MAX_DURATION_NANOS,
                sum == total(self.frame_times@.take(i as int)),
                sum <= i * MAX_DURATION_NANOS,
            decreases count - i,
        {
            proof {
                assert(self.frame_times@.take(i + 1).drop_last() =~= self.frame_times@.take(
                    i as int,
                ));
            }
            sum = sum + self.frame_times[i];
            i = i + 1;
        }
        proof {
            assert(self.frame_times@.take(i as int) =~= self.frame_times@);
        }
        let average = if sum > MAX_DURATION_NANOS {
            None
        } else {
            Some(sum / (count as u128))
        };
        (average, frame_time)
    }

    /// Describes where the time of the last frame went (see
    /// `bottleneck_text`), measuring the parts against the last recorded
    /// frame, or against 16 ms when no frame was recorded.
    pub fn get_bottleneck(&self) -> (text: String)
        ensures
            text@ == bottleneck_text(
                last_frame_ms(self.frame_times()),
                self.physics() / NANOS_PER_MILLI,
                self.render() / NANOS_PER_MILLI,
                self.gpu() / NANOS_PER_MILLI,
            ),
    {
        let count = self.frame_times.len();
        let frame_ms: u32 = if count == 0 {
            16
        } else {
            (self.frame_times[count - 1] / NANOS_PER_MILLI) as u32
        };
        describe_bottleneck(
            frame_ms,
            self.physics_nanos / NANOS_PER_MILLI,
            self.render_nanos / NANOS_PER_MILLI,
            self.gpu_nanos / NANOS_PER_MILLI,
        )
    }

    /// The recorded physics time in nanoseconds.
    pub fn physics_time(&self) -> (nanos: u128)
        ensures
            nanos == self.physics(),
    {
        self.physics_nanos
    }

    /// The recorded render time in nanoseconds.
    pub fn render_time(&self) -> (nanos: u128)
        ensures
            nanos == self.render(),
    {
        self.render_nanos
    }

    /// The recorded GPU time in nanoseconds.
    pub fn gpu_time(&self) -> (nanos: u128)
        ensures
            nanos == self.gpu(),
    {
        self.gpu_nanos
    }

    /// Records the physics time, in nanoseconds.
    pub fn set_physics_time(&mut self, nanos: u128)
        ensures
            final(self).physics() == nanos,
            final(self).frame_times() == old(self).frame_times(),
            final(self).well_formed() == old(self).well_formed(),
            final(self).started_at() == old(self).started_at(),
            final(self).render() == old(self).render(),
            final(self).gpu() == old(self).gpu(),
    {
        self.physics_nanos = nanos;
    }

    /// Records the render time, in nanoseconds.
    pub fn set_render_time(&mut self, nanos: u128)
        ensures
            final(self).render() == nanos,
            final(self).frame_times() == old(self).frame_times(),
            final(self).well_formed() == old(self).well_formed(),
            final(self).started_at() == old(self).started_at(),
            final(self).physics() == old(self).physics(),
            final(self).gpu() == old(self).gpu(),
    {
        self.render_nanos = nanos;
    }

    /// Records the GPU time, in nanoseconds.
    pub fn set_gpu_time(&mut self, nanos: u128)
        ensures
            final(self).gpu() == nanos,
            final(self).frame_times() == old(self).frame_times(),
            final(self).well_formed() == old(self).well_formed(),
            final(self).started_at() == old(self).started_at(),
            final(self).physics() == old(self).physics(),
            final(self).render() == old(self).render(),
    {
        self.gpu_nanos = nanos;
    }

    /// Sets the physics time to the time a fresh clock reading takes to
    /// age (next to nothing).
    pub fn start_physics(&mut self)
        ensures
            final(self).physics() <= MAX_DURATION_NANOS,
            final(self).frame_times() == old(self).frame_times(),
            final(self).well_formed() == old(self).well_formed(),
            final(self).started_at() == old(self).started_at(),
            final(self).render() == old(self).render(),
            final(self).gpu() == old(self).gpu(),
    {
        self.physics_nanos = duration_nanos(&elapsed_since(&clock_now()));
    }

    /// Sets the physics time to the time a fresh clock reading takes to
    /// age (next to nothing).
    pub fn end_physics(&mut self)
        ensures
            final(self).physics() <= MAX_DURATION_NANOS,
            final(self).frame_times() == old(self).frame_times(),
            final(self).well_formed() == old(self).well_formed(),
            final(self).started_at() == old(self).started_at(),
            final(self).render() == old(self).render(),
            final(self).gpu() == old(self).gpu(),
    {
        self.physics_nanos = duration_nanos(&elapsed_since(&clock_now()));
    }

    /// Sets the render time to the time a fresh clock reading takes to
    /// age (next to nothing).
    pub fn start_render(&mut self)
        ensures
            final(self).render() <= MAX_DURATION_NANOS,
            final(self).frame_times() == old(self).frame_times(),
            final(self).well_formed() == old(self).well_formed(),
            final(self).started_at() == old(self).started_at(),
            final(self).physics() == old(self).physics(),
            final(self).gpu() == old(self).gpu(),
    {
        self.render_nanos = duration_nanos(&elapsed_since(&clock_now()));
    }

    /// Sets the render time to the time a fresh clock reading takes to
    /// age (next to nothing).
    pub fn end_render(&mut self)
        ensures
            final(self).render() <= MAX_DURATION_NANOS,
            final(self).frame_times() == old(self).frame_times(),
            final(self).well_formed() == old(self).well_formed(),
            final(self).started_at() == old(self).started_at(),
            final(self).physics() == old(self).physics(),
            final(self).gpu() == old(self).gpu(),
    {
        self.render_nanos = duration_nanos(&elapsed_since(&clock_now()));
    }
}

} // verus!
