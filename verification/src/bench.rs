//! Benchmarking helpers: a cycle-count timer and a frame counter that ends a
//! benchmark run after a fixed number of frames.
use vstd::prelude::*;

verus! {

/// The character of a decimal digit.
pub open spec fn digit_char(d: nat) -> char {
    (48 + d) as char
}

/// The decimal representation of `n`, most significant digit first, without
/// leading zeros (zero is "0").
pub open spec fn decimal_digits(n: nat) -> Seq<char>
    decreases n,
{
    if n < 10 {
        seq![digit_char(n)]
    } else {
        decimal_digits(n / 10).push(digit_char(n % 10))
    }
}

/// Formats a number in decimal with std's `ToString` (`Display`) for `u64`,
/// which writes the number's digits in base ten, without sign, padding or
/// leading zeros.
#[verifier::external_body]
fn u64_to_decimal(x: u64) -> (s: String)
    ensures
        s@ == decimal_digits(x as nat),
{
    x.to_string()
}

/// A minimalistic tool to measure how many CPU cycles have passed.
///
/// The cycle counter is read by the caller (it is a processor instruction);
/// the timer keeps the count at its start. Measure the cost of the tool
/// itself first: a timer that is ended at once reports a few hundred cycles.
pub struct Timer(u64);

impl Timer {
    /// The cycle count at which the timer started.
    pub closed spec fn start(&self) -> u64 {
        self.0
    }

    /// The cycle count at which the timer started.
    pub fn started_at(&self) -> (count: u64)
        ensures
            count == self.start(),
    {
        self.0
    }

    /// A timer started at cycle count `now`.
    pub fn new(now: u64) -> (t: Self)
        ensures
            t.start() == now,
    {
        Timer(now)
    }

    /// The number of cycles from the timer's start to `now`; the timer lives on.
    pub fn duration(&self, now: u64) -> (cycles: u64)
        requires
            now >= self.start(),
        ensures
            cycles == now - self.start(),
    {
        now - self.0
    }

    /// The number of cycles from the timer's start to `now`; the timer ends.
    pub fn duration_end(self, now: u64) -> (cycles: u64)
        requires
            now >= self.start(),
        ensures
            cycles == now - self.start(),
    {
        self.duration(now)
    }

    /// The line that reports the duration up to `now`: the number of cycles
    /// in decimal. The timer lives on.
    pub fn no_end(&self, now: u64) -> (line: String)
        requires
            now >= self.start(),
        ensures
            line@ == decimal_digits((now - self.start()) as nat),
    {
        u64_to_decimal(self.duration(now))
    }

    /// The line that reports the duration up to `now`; the timer ends.
    pub fn end(self, now: u64) -> (line: String)
        requires
            now >= self.start(),
        ensures
            line@ == decimal_digits((now - self.start()) as nat),
    {
        self.no_end(now)
    }
}

/// Measuring twice from one start differs by exactly the cycles between
/// the two readings.
pub proof fn lemma_durations_add_up(t: Timer, now1: u64, now2: u64)
    requires
        t.start() <= now1 <= now2,
    ensures
        (now2 - t.start()) == (now1 - t.start()) + (now2 - now1),
{
}

/// The number of frames after which a benchmark run ends.
pub const MAX_FRAME_COUNT: u32 = 25_000;

/// Counts rendered frames and asks to end the run once more than
/// `MAX_FRAME_COUNT` frames have been rendered.
pub struct FrameCounter {
    pub frame_count: u32,
}

/// How many of `n` more frames, counted from `count`, come after the limit:
/// each of them sends an exit request.
pub open spec fn frames_over_limit(count: nat, n: nat) -> nat {
    if count + n <= MAX_FRAME_COUNT {
        0
    } else if count >= MAX_FRAME_COUNT {
        n
    } else {
        (count + n - MAX_FRAME_COUNT) as nat
    }
}

/// An app system that does nothing yet.
pub fn gui_event_system() {
}

impl FrameCounter {
    /// No frame counted yet.
    pub fn new() -> (c: Self)
        ensures
            c.frame_count == 0,
    {
        FrameCounter { frame_count: 0 }
    }

    /// Counts `frame_events` more rendered frames; every frame counted beyond
    /// `MAX_FRAME_COUNT` reports the elapsed time and sends an exit request.
    /// Returns the number of exit requests. The count must not overflow.
    pub fn bench(&mut self, frame_events: u32) -> (exits: u32)
        requires
            old(self).frame_count + frame_events <= u32::MAX,
        ensures
            final(self).frame_count == old(self).frame_count + frame_events,
            exits == frames_over_limit(old(self).frame_count as nat, frame_events as nat),
    {
        let mut exits: u32 = 0;
        let mut k: u32 = 0;
        while k < frame_events
            invariant
                k <= frame_events,
                old(self).frame_count + frame_events <= u32::MAX,
                self.frame_count == old(self).frame_count + k,
                exits == frames_over_limit(old(self).frame_count as nat, k as nat),
                exits <= k,
            decreases frame_events - k,
        {
            self.frame_count += 1;
            if self.frame_count > MAX_FRAME_COUNT {
                exits += 1;
            }
            k += 1;
        }
        exits
    }
}

/// Counting frames in two batches asks to exit as often as counting them at
/// once.
pub proof fn lemma_bench_batches(count: nat, n1: nat, n2: nat)
    ensures
        frames_over_limit(count, n1 + n2) == frames_over_limit(count, n1) + frames_over_limit(
            count + n1,
            n2,
        ),
{
}

/// The number of frames over which the lowest frame rate is taken.
pub const FPS_WINDOW_FRAMES: u32 = 100;

/// Counts the frames of the current window of `FPS_WINDOW_FRAMES` frames
/// over which the lowest frame rate is tracked.
pub struct FrameWindow {
    pub index: u32,
}

impl FrameWindow {
    /// The first window, before its first frame.
    pub fn new() -> (w: Self)
        ensures
            w.index == 0,
    {
        FrameWindow { index: 0 }
    }

    /// Counts one more frame. Returns whether a new window starts with it,
    /// that is whether the lowest frame rate must be forgotten: the count
    /// reached `FPS_WINDOW_FRAMES` (or passed it), and starts again from zero.
    pub fn advance(&mut self) -> (reset: bool)
        ensures
            reset == (old(self).index + 1 >= FPS_WINDOW_FRAMES),
            final(self).index == if reset {
                0
            } else {
                old(self).index + 1
            },
            final(self).index < FPS_WINDOW_FRAMES,
    {
        if self.index >= FPS_WINDOW_FRAMES - 1 {
            self.index = 0;
            true
        } else {
            self.index += 1;
            false
        }
    }
}

/// A fresh window starts again every `FPS_WINDOW_FRAMES` frames: from the
/// first window, frame `n` (counting from one) resets exactly when `n` is a
/// multiple of `FPS_WINDOW_FRAMES`, and the count then is `n` modulo it.
pub proof fn lemma_frame_window_period(n: nat)
    ensures
        (n % (FPS_WINDOW_FRAMES as nat) + 1 >= FPS_WINDOW_FRAMES) == ((n + 1) % (
        FPS_WINDOW_FRAMES as nat) == 0),
        (if n % (FPS_WINDOW_FRAMES as nat) + 1 >= FPS_WINDOW_FRAMES {
            0
        } else {
            n % (FPS_WINDOW_FRAMES as nat) + 1
        }) == (n + 1) % (FPS_WINDOW_FRAMES as nat),
{
}

} // verus!
