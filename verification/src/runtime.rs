use crate::config::MrgrConfig;
use crate::graphics::Rect;
use vstd::prelude::*;

verus! {

/// What the rest of the program can ask of the presentation loop.
#[derive(Copy, Clone, Debug, PartialEq, Eq, Structural)]
pub enum RuntimeEvent {
    ShutdownRequested,
}

/// What the presentation loop does on a wake.
#[derive(Copy, Clone, Debug, PartialEq, Eq, Structural)]
pub enum FrameAction {
    /// Snapshot the viewport and present it; `deadline` is the instant the
    /// frame was scheduled for.
    Present { deadline: u64 },
    /// Nothing is due yet.
    Wait,
}

/// The number of microseconds in a second.
pub const MICROS_PER_SECOND: u64 = 1_000_000;

/// The length of a frame at `framerate` frames a second, in whole
/// microseconds.
pub fn frame_interval_micros(framerate: u32) -> (interval: u64)
    requires
        framerate > 0,
    ensures
        interval == MICROS_PER_SECOND / (framerate as u64),
{
    MICROS_PER_SECOND / (framerate as u64)
}

/// The deadline that follows `deadline` once the loop has woken at `now`:
/// one interval later where the frame was due, the same where it was not.
pub open spec fn deadline_after_wake(deadline: int, interval: int, now: int) -> int {
    if now >= deadline {
        deadline + interval
    } else {
        deadline
    }
}

/// The deadline that stands after the loop has woken at each of `wakes` in
/// turn, having started with `start`.
pub open spec fn deadline_after(start: int, interval: int, wakes: Seq<u64>) -> int
    decreases wakes.len(),
{
    if wakes.len() == 0 {
        start
    } else {
        deadline_after_wake(
            deadline_after(start, interval, wakes.drop_last()),
            interval,
            wakes.last() as int,
        )
    }
}

/// The number of frames presented over the wakes `wakes`.
pub open spec fn frames_presented(start: int, interval: int, wakes: Seq<u64>) -> nat
    decreases wakes.len(),
{
    if wakes.len() == 0 {
        0
    } else {
        let earlier = frames_presented(start, interval, wakes.drop_last());
        if wakes.last() >= deadline_after(start, interval, wakes.drop_last()) {
            earlier + 1
        } else {
            earlier
        }
    }
}

/// The frame clock: the next instant at which a frame is due and the length
/// of a frame, both in microseconds on the caller's monotonic clock.
#[derive(Copy, Clone, Debug)]
pub struct FrameClock {
    interval: u64,
    next_deadline: u64,
}

impl FrameClock {
    /// The length of a frame.
    pub closed spec fn spec_interval(&self) -> u64 {
        self.interval
    }

    /// The instant at which the next frame is due.
    pub closed spec fn spec_next_deadline(&self) -> u64 {
        self.next_deadline
    }

    /// The deadline of the frame before the next one. It may lie before the
    /// clock's origin.
    pub open spec fn last_deadline(&self) -> int {
        self.spec_next_deadline() - self.spec_interval()
    }

    /// Whether the deadline can move on by one interval.
    pub open spec fn spec_can_advance(&self) -> bool {
        self.spec_next_deadline() + self.spec_interval() <= u64::MAX
    }

    /// A clock anchored at `now`: the frame before counts as scheduled one
    /// interval ago, so the first wake presents at once.
    pub fn start(now: u64, interval: u64) -> (clock: Self)
        ensures
            clock.spec_interval() == interval,
            clock.spec_next_deadline() == now,
            clock.last_deadline() == now - interval,
    {
        FrameClock { interval, next_deadline: now }
    }

    #[verifier::when_used_as_spec(spec_interval)]
    pub fn interval(&self) -> (interval: u64)
        ensures
            interval == self.spec_interval(),
    {
        self.interval
    }

    #[verifier::when_used_as_spec(spec_next_deadline)]
    pub fn next_deadline(&self) -> (deadline: u64)
        ensures
            deadline == self.spec_next_deadline(),
    {
        self.next_deadline
    }

    /// The instant before which the loop need not wake again: the next
    /// deadline.
    pub fn wake_at(&self) -> (instant: u64)
        ensures
            instant == self.spec_next_deadline(),
    {
        self.next_deadline
    }

    /// Whether a frame is due at `now`: a whole interval has passed since
    /// the last deadline.
    pub fn is_due(&self, now: u64) -> (due: bool)
        ensures
            due == (now >= self.spec_next_deadline()),
            due == (now - self.last_deadline() >= self.spec_interval()),
    {
        now >= self.next_deadline
    }

    #[verifier::when_used_as_spec(spec_can_advance)]
    pub fn can_advance(&self) -> (fits: bool)
        ensures
            fits == self.spec_can_advance(),
    {
        self.interval <= u64::MAX - self.next_deadline
    }

    /// One wake of the loop at `now`. Where a frame is due it is presented,
    /// and the deadline moves on by exactly one interval, however late the
    /// wake came. Where none is due the clock stays as it is.
    pub fn on_wake(&mut self, now: u64) -> (action: FrameAction)
        requires
            old(self).spec_can_advance(),
        ensures
            final(self).spec_interval() == old(self).spec_interval(),
            final(self).spec_next_deadline() == deadline_after_wake(
                old(self).spec_next_deadline() as int,
                old(self).spec_interval() as int,
                now as int,
            ),
            action == if now >= old(self).spec_next_deadline() {
                (FrameAction::Present { deadline: old(self).spec_next_deadline() })
            } else {
                FrameAction::Wait
            },
    {
        if now >= self.next_deadline {
            let deadline = self.next_deadline;
            self.next_deadline = deadline + self.interval;
            FrameAction::Present { deadline }
        } else {
            FrameAction::Wait
        }
    }

    /// Anchors the clock at `now` again: the next wake presents at once.
    pub fn reanchor(&mut self, now: u64)
        ensures
            final(self).spec_interval() == old(self).spec_interval(),
            final(self).spec_next_deadline() == now,
    {
        self.next_deadline = now;
    }
}

/// How a pixel buffer is laid out: four bytes a pixel, rows one after
/// another.
#[derive(Copy, Clone, Debug, PartialEq, Eq, Structural)]
pub struct BufferLayout {
    pub width: u32,
    pub height: u32,
    pub pixel_count: u64,
    pub row_bytes: u64,
    pub byte_len: u64,
}

/// The layout of the presentation buffer of an accepted configuration: the
/// viewport scaled by the zoom level.
pub fn present_buffer(config: &MrgrConfig) -> (buffer: BufferLayout)
    requires
        config.is_sane(),
    ensures
        buffer.width == config.viewport_size.0 * config.zoom_level,
        buffer.height == config.viewport_size.1 * config.zoom_level,
        buffer.pixel_count == buffer.width * buffer.height,
        buffer.row_bytes == 4 * buffer.width,
        buffer.byte_len == 4 * buffer.pixel_count,
{
    proof {
        crate::config::lemma_sane_physical_size_bounded(*config);
    }
    let width = config.physical_width();
    let height = config.physical_height();
    assert(width * height <= 12800 * 7200) by (nonlinear_arith)
        requires
            width <= 12800,
            height <= 7200,
    ;
    let pixel_count: u64 = width as u64 * height as u64;
    BufferLayout { width, height, pixel_count, row_bytes: 4 * (width as u64), byte_len: 4 * pixel_count }
}

/// The layout of the viewport's own pixel buffer, at the logical resolution.
pub fn viewport_buffer(config: &MrgrConfig) -> (buffer: BufferLayout)
    requires
        config.is_sane(),
    ensures
        buffer.width == config.viewport_size.0,
        buffer.height == config.viewport_size.1,
        buffer.pixel_count == buffer.width * buffer.height,
        buffer.row_bytes == 4 * buffer.width,
        buffer.byte_len == 4 * buffer.pixel_count,
{
    let width = config.viewport_size.0;
    let height = config.viewport_size.1;
    assert(width * height <= 1280 * 720) by (nonlinear_arith)
        requires
            width <= 1280,
            height <= 720,
    ;
    let pixel_count: u64 = width as u64 * height as u64;
    BufferLayout { width, height, pixel_count, row_bytes: 4 * (width as u64), byte_len: 4 * pixel_count }
}

/// The rectangle of the presentation buffer into which a snapshot of the
/// viewport is scaled: all of it.
pub fn present_bounds(config: &MrgrConfig) -> (bounds: Rect)
    requires
        config.is_sane(),
    ensures
        bounds == (Rect {
            x: 0,
            y: 0,
            width: (config.viewport_size.0 * config.zoom_level) as i64,
            height: (config.viewport_size.1 * config.zoom_level) as i64,
        }),
{
    proof {
        crate::config::lemma_sane_physical_size_bounded(*config);
    }
    Rect {
        x: 0,
        y: 0,
        width: config.physical_width() as i64,
        height: config.physical_height() as i64,
    }
}

/// No drift: after any wakes, however late each came, the deadline stands
/// at the start plus one interval for each frame presented.
pub proof fn lemma_no_drift(start: int, interval: int, wakes: Seq<u64>)
    ensures
        deadline_after(start, interval, wakes) == start + frames_presented(start, interval, wakes)
            * interval,
        frames_presented(start, interval, wakes) <= wakes.len(),
    decreases wakes.len(),
{
    if wakes.len() > 0 {
        let earlier = wakes.drop_last();
        lemma_no_drift(start, interval, earlier);
        let n: int = frames_presented(start, interval, earlier) as int;
        let d: int = deadline_after(start, interval, earlier);
        assert(d == start + n * interval);
        assert((n + 1) * interval == n * interval + interval) by (nonlinear_arith);
        if wakes.last() >= d {
            assert(frames_presented(start, interval, wakes) == n + 1);
            assert(deadline_after(start, interval, wakes) == d + interval);
            assert(frames_presented(start, interval, wakes) * interval == (n + 1) * interval);
        } else {
            assert(frames_presented(start, interval, wakes) == n);
            assert(deadline_after(start, interval, wakes) == d);
        }
    } else {
        assert(frames_presented(start, interval, wakes) * interval == 0) by (nonlinear_arith)
            requires
                frames_presented(start, interval, wakes) == 0,
        ;
    }
}

/// The number of deadlines that have come by `now` and have no frame yet:
/// the deadline itself and every whole interval after it up to `now`.
pub open spec fn frames_due(deadline: int, interval: int, now: int) -> int {
    if now < deadline {
        0
    } else {
        (now - deadline) / interval + 1
    }
}

/// One present per deadline crossed: a wake at which a frame is due takes
/// exactly one of the deadlines that have come, whatever their number, and
/// a wake at which none is due takes none.
pub proof fn lemma_present_takes_one_deadline(deadline: int, interval: int, now: int)
    requires
        interval > 0,
    ensures
        frames_due(deadline_after_wake(deadline, interval, now), interval, now) == if now
            >= deadline {
            frames_due(deadline, interval, now) - 1
        } else {
            0
        },
        frames_due(deadline, interval, now) > 0 <==> now >= deadline,
{
    if now >= deadline {
        let late = now - deadline;
        assert(late / interval >= 0) by (nonlinear_arith)
            requires
                late >= 0,
                interval > 0,
        ;
        if late >= interval {
            assert((late - interval) / interval == late / interval - 1) by (nonlinear_arith)
                requires
                    late >= interval,
                    interval > 0,
            ;
        } else {
            assert(late / interval == 0) by (nonlinear_arith)
                requires
                    0 <= late < interval,
            ;
        }
    }
}

/// A wake presents at most one frame, and a frame is presented only once
/// its deadline has come: a wake before the deadline changes nothing.
pub proof fn lemma_early_wake_keeps_deadline(start: int, interval: int, wakes: Seq<u64>, now: u64)
    requires
        now < deadline_after(start, interval, wakes),
    ensures
        deadline_after(start, interval, wakes.push(now)) == deadline_after(start, interval, wakes),
        frames_presented(start, interval, wakes.push(now)) == frames_presented(
            start,
            interval,
            wakes,
        ),
{
    assert(wakes.push(now).drop_last() =~= wakes);
}

} // verus!
