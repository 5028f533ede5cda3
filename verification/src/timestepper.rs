//! A fixed-timestep accumulator.
//!
//! Wall-clock time observed between calls is accumulated (each observation
//! capped at `max_time_between_steps`), and every call that finds at least one
//! `game_time_step` in the accumulator consumes one step and reports a tick.
//! Callers read the clock and drain pending ticks with
//! `while stepper.step(now) { .. }`.
//!
//! The clock itself is read by the caller: no way of reading it (through
//! `time::OffsetDateTime::now_utc` or `std::time::SystemTime::now`) is free of
//! panics on every target, so the reading is handed in as an argument.
//!
//! Durations are carried as whole nanoseconds: a signed span stands for a
//! `time::SignedDuration`, an unsigned span for a `std::time::Duration`, and an
//! instant for an `OffsetDateTime` given as nanoseconds since the Unix epoch.
use vstd::prelude::*;

verus! {

/// Earliest instant `time::OffsetDateTime` represents (year -9999), in Unix nanoseconds.
pub const EARLIEST_INSTANT_NANOS: i128 = -377_705_116_800_000_000_000;

/// Latest instant `time::OffsetDateTime` represents (end of year 9999), in Unix nanoseconds.
pub const LATEST_INSTANT_NANOS: i128 = 253_402_300_799_999_999_999;

/// Smallest `time::SignedDuration`, in nanoseconds.
pub const MIN_SIGNED_SPAN_NANOS: i128 = -9_223_372_036_854_775_808_999_999_999;

/// Largest `time::SignedDuration`, in nanoseconds.
pub const MAX_SIGNED_SPAN_NANOS: i128 = 9_223_372_036_854_775_807_999_999_999;

/// Largest `std::time::Duration`, in nanoseconds.
pub const MAX_UNSIGNED_SPAN_NANOS: u128 = 18_446_744_073_709_551_615_999_999_999;

/// Length of one game tick: 16 667 microseconds, about 60 ticks per second.
pub const GAME_TIME_STEP_NANOS: u128 = 16_667_000;

/// At most a quarter of a second of wall-clock time is counted per observation.
pub const MAX_TIME_BETWEEN_STEPS_NANOS: i128 = 250_000_000;

pub open spec fn is_instant(t: int) -> bool {
    EARLIEST_INSTANT_NANOS <= t <= LATEST_INSTANT_NANOS
}

pub open spec fn is_signed_span(d: int) -> bool {
    MIN_SIGNED_SPAN_NANOS <= d <= MAX_SIGNED_SPAN_NANOS
}

pub open spec fn is_unsigned_span(d: int) -> bool {
    0 <= d <= MAX_UNSIGNED_SPAN_NANOS
}

/// The part of an observed frame time that is counted: the frame time itself,
/// or `max` where the frame time exceeds it.
pub open spec fn capped(frame_time: int, max: int) -> int {
    if frame_time > max {
        max
    } else {
        frame_time
    }
}

/// The mathematical state of a `FixedTimeStepper`.
pub struct StepperModel {
    /// The instant of the last observation of the clock.
    pub last_checked_time: int,
    /// The length of one tick.
    pub game_time_step: int,
    /// Counted time not yet consumed by ticks.
    pub accumulator: int,
    /// The (uncapped) time between the last two observations.
    pub last_frame_time: int,
    /// The most time one observation adds to the accumulator.
    pub max_time_between_steps: int,
}

impl StepperModel {
    /// Every field lies in the range of the type it stands for.
    pub open spec fn valid(self) -> bool {
        &&& is_instant(self.last_checked_time)
        &&& is_unsigned_span(self.game_time_step)
        &&& is_signed_span(self.accumulator)
        &&& is_signed_span(self.last_frame_time)
        &&& is_signed_span(self.max_time_between_steps)
    }

    /// The time that an observation of the clock at `now` adds to the accumulator.
    pub open spec fn counted(self, now: int) -> int {
        capped(now - self.last_checked_time, self.max_time_between_steps)
    }

    /// Adding the counted time at `now` keeps the accumulator representable.
    pub open spec fn can_advance(self, now: int) -> bool {
        is_signed_span(self.accumulator + self.counted(now))
    }

    /// One observation of the clock at `now`: the new state, and whether a tick is due.
    pub open spec fn advance(self, now: int) -> (StepperModel, bool) {
        let frame_time = now - self.last_checked_time;
        let accumulated = self.accumulator + self.counted(now);
        if accumulated >= self.game_time_step {
            (
                StepperModel {
                    last_checked_time: now,
                    accumulator: accumulated - self.game_time_step,
                    last_frame_time: frame_time,
                    ..self
                },
                true,
            )
        } else {
            (
                StepperModel {
                    last_checked_time: now,
                    accumulator: accumulated,
                    last_frame_time: frame_time,
                    ..self
                },
                false,
            )
        }
    }
}

/// Decides, one call at a time, whether a fixed-length game tick is due.
pub struct FixedTimeStepper {
    last_checked_time: i128,
    game_time_step: u128,
    accumulator: i128,
    last_frame_time: i128,
    max_time_between_steps: i128,
}

impl View for FixedTimeStepper {
    type V = StepperModel;

    closed spec fn view(&self) -> StepperModel {
        StepperModel {
            last_checked_time: self.last_checked_time as int,
            game_time_step: self.game_time_step as int,
            accumulator: self.accumulator as int,
            last_frame_time: self.last_frame_time as int,
            max_time_between_steps: self.max_time_between_steps as int,
        }
    }
}

impl FixedTimeStepper {
    #[verifier::type_invariant]
    spec fn inv(self) -> bool {
        self@.valid()
    }

    /// A stepper started at `start_time` (the clock reading at start), with an
    /// empty accumulator.
    pub fn new(game_time_step: u128, max_time_between_steps: i128, start_time: i128) -> (s:
        Self)
        requires
            is_unsigned_span(game_time_step as int),
            is_signed_span(max_time_between_steps as int),
            is_instant(start_time as int),
        ensures
            s@ == (StepperModel {
                last_checked_time: start_time as int,
                game_time_step: game_time_step as int,
                accumulator: 0,
                last_frame_time: 0,
                max_time_between_steps: max_time_between_steps as int,
            }),
    {
        FixedTimeStepper {
            last_checked_time: start_time,
            game_time_step,
            accumulator: 0,
            last_frame_time: 0,
            max_time_between_steps,
        }
    }

    /// Observes the clock at `now`: counts the time since the last observation
    /// (at most `max_time_between_steps` of it), and, where a whole
    /// `game_time_step` is accumulated, consumes it and returns `true`. Called
    /// with the current time each time, it returns `true` once per pending tick.
    pub fn step(&mut self, now: i128) -> (ticked: bool)
        requires
            is_instant(now as int),
            old(self)@.can_advance(now as int),
        ensures
            (final(self)@, ticked) == old(self)@.advance(now as int),
    {
        proof {
            use_type_invariant(&*self);
        }
        let frame_time = now - self.last_checked_time;
        let counted = if frame_time > self.max_time_between_steps {
            self.max_time_between_steps
        } else {
            frame_time
        };
        let accumulated = self.accumulator + counted;
        let ticked = accumulated >= 0 && accumulated as u128 >= self.game_time_step;
        let accumulator = if ticked {
            accumulated - self.game_time_step as i128
        } else {
            accumulated
        };
        *self = FixedTimeStepper {
            last_checked_time: now,
            game_time_step: self.game_time_step,
            accumulator,
            last_frame_time: frame_time,
            max_time_between_steps: self.max_time_between_steps,
        };
        ticked
    }

    /// Whether `step(now)` may be called: adding the time counted at `now`
    /// keeps the accumulator within the range of a `SignedDuration`.
    pub fn can_step_at(&self, now: i128) -> (ok: bool)
        requires
            is_instant(now as int),
        ensures
            ok == self@.can_advance(now as int),
    {
        proof {
            use_type_invariant(self);
        }
        let frame_time = now - self.last_checked_time;
        let counted = if frame_time > self.max_time_between_steps {
            self.max_time_between_steps
        } else {
            frame_time
        };
        let accumulated = self.accumulator + counted;
        MIN_SIGNED_SPAN_NANOS <= accumulated && accumulated <= MAX_SIGNED_SPAN_NANOS
    }

    /// The time between the last two observations of the clock (not capped).
    pub fn get_time_since_last_step(&self) -> (frame_time: i128)
        ensures
            frame_time == self@.last_frame_time,
    {
        self.last_frame_time
    }

    /// The instant of the last observation of the clock, in Unix nanoseconds.
    pub fn last_checked_time(&self) -> (instant: i128)
        ensures
            instant == self@.last_checked_time,
    {
        self.last_checked_time
    }

    /// Counted time not yet consumed by ticks.
    pub fn accumulated(&self) -> (accumulator: i128)
        ensures
            accumulator == self@.accumulator,
    {
        self.accumulator
    }
}

impl FixedTimeStepper {
    /// The default stepper, started at `start_time`: ticks of
    /// `GAME_TIME_STEP_NANOS`, at most `MAX_TIME_BETWEEN_STEPS_NANOS` counted
    /// per observation.
    pub fn default_started_at(start_time: i128) -> (s: Self)
        requires
            is_instant(start_time as int),
        ensures
            s@ == (StepperModel {
                last_checked_time: start_time as int,
                game_time_step: GAME_TIME_STEP_NANOS as int,
                accumulator: 0,
                last_frame_time: 0,
                max_time_between_steps: MAX_TIME_BETWEEN_STEPS_NANOS as int,
            }),
    {
        Self::new(GAME_TIME_STEP_NANOS, MAX_TIME_BETWEEN_STEPS_NANOS, start_time)
    }
}

/// The state after `n` observations of the clock, all at `now`.
pub open spec fn advance_repeatedly(s: StepperModel, now: int, n: nat) -> StepperModel
    decreases n,
{
    if n == 0 {
        s
    } else {
        advance_repeatedly(s, now, (n - 1) as nat).advance(now).0
    }
}

/// How many of `n` observations of the clock, all at `now`, report a tick.
pub open spec fn ticks_reported(s: StepperModel, now: int, n: nat) -> nat
    decreases n,
{
    if n == 0 {
        0
    } else {
        ticks_reported(s, now, (n - 1) as nat) + if advance_repeatedly(
            s,
            now,
            (n - 1) as nat,
        ).advance(now).1 {
            1nat
        } else {
            0nat
        }
    }
}

/// Each observation either reports a tick and consumes exactly one
/// `game_time_step`, or reports none and consumes nothing: the accumulator
/// afterwards plus the time consumed equals the accumulator before plus the
/// time counted. The clock reading is recorded, and so is the uncapped frame time.
pub proof fn lemma_tick_consumes_one_step(s: StepperModel, now: int)
    ensures
        ({
            let (t, ticked) = s.advance(now);
            &&& t.accumulator + (if ticked {
                s.game_time_step
            } else {
                0
            }) == s.accumulator + s.counted(now)
            &&& ticked <==> s.accumulator + s.counted(now) >= s.game_time_step
            &&& t.last_checked_time == now
            &&& t.last_frame_time == now - s.last_checked_time
            &&& t.game_time_step == s.game_time_step
            &&& t.max_time_between_steps == s.max_time_between_steps
        }),
{
}

/// However long the time between two observations, one observation adds at
/// most `max_time_between_steps` to the accumulator.
pub proof fn lemma_counted_at_most_max(s: StepperModel, now: int)
    requires
        0 <= s.game_time_step,
    ensures
        s.counted(now) <= s.max_time_between_steps,
        s.advance(now).0.accumulator <= s.accumulator + s.max_time_between_steps,
{
}

/// An observation that is possible keeps every field within the range of its type.
pub proof fn lemma_advance_keeps_valid(s: StepperModel, now: int)
    requires
        s.valid(),
        is_instant(now),
        s.can_advance(now),
    ensures
        s.advance(now).0.valid(),
{
}

/// Where the clock never runs backwards and the cap is not negative, the
/// accumulator never becomes negative.
pub proof fn lemma_accumulator_stays_nonnegative(s: StepperModel, now: int)
    requires
        0 <= s.accumulator,
        0 <= s.game_time_step,
        0 <= s.max_time_between_steps,
        s.last_checked_time <= now,
    ensures
        0 <= s.advance(now).0.accumulator,
{
}

/// Draining at one instant, for a cap that is not negative: when the clock
/// shows the instant already observed,
/// the first `accumulator / game_time_step` observations each report a tick,
/// and the next one reports none, leaving `accumulator % game_time_step`.
pub proof fn lemma_drain_at_fixed_instant(s: StepperModel, now: int, n: nat)
    requires
        s.last_checked_time == now,
        0 <= s.accumulator,
        0 < s.game_time_step,
        0 <= s.max_time_between_steps,
        n <= s.accumulator / s.game_time_step,
    ensures
        ticks_reported(s, now, n) == n,
        advance_repeatedly(s, now, n).accumulator == s.accumulator - n * s.game_time_step,
        advance_repeatedly(s, now, n).last_checked_time == now,
        advance_repeatedly(s, now, n).game_time_step == s.game_time_step,
        advance_repeatedly(s, now, n).max_time_between_steps == s.max_time_between_steps,
        n == s.accumulator / s.game_time_step ==> {
            &&& !advance_repeatedly(s, now, n).advance(now).1
            &&& advance_repeatedly(s, now, n).accumulator == s.accumulator % s.game_time_step
        },
    decreases n,
{
    let a = s.accumulator;
    let b = s.game_time_step;
    let q = a / b;
    assert(a == b * q + a % b && 0 <= a % b < b) by {
        vstd::arithmetic::div_mod::lemma_fundamental_div_mod(a, b);
    }
    if n == 0 {
        assert(n * b == 0) by (nonlinear_arith)
            requires
                n == 0,
        ;
    } else {
        let m = (n - 1) as nat;
        lemma_drain_at_fixed_instant(s, now, m);
        let prev = advance_repeatedly(s, now, m);
        assert(n * b <= q * b) by {
            vstd::arithmetic::mul::lemma_mul_inequality(n as int, q, b);
        }
        assert(m * b + b == n * b) by (nonlinear_arith)
            requires
                m + 1 == n,
        ;
        assert(b * q == q * b) by (nonlinear_arith);
        assert(prev.counted(now) == 0);
        assert(prev.accumulator >= b);
    }
    if n == q {
        assert(b * q == n * b) by (nonlinear_arith)
            requires
                n == q,
        ;
    }
}

/// Observing the clock at each instant of `times` in turn: the final state and
/// how many of the observations reported a tick.
pub open spec fn observe_all(s: StepperModel, times: Seq<int>) -> (StepperModel, nat)
    decreases times.len(),
{
    if times.len() == 0 {
        (s, 0)
    } else {
        let (prev, ticks) = observe_all(s, times.drop_last());
        let (next, ticked) = prev.advance(times.last());
        (next, ticks + if ticked {
            1nat
        } else {
            0nat
        })
    }
}

/// No time between two consecutive observations exceeds the cap.
pub open spec fn frames_within_cap(s: StepperModel, times: Seq<int>) -> bool {
    forall|i: int|
        0 <= i < times.len() ==> #[trigger] times[i] - (if i == 0 {
            s.last_checked_time
        } else {
            times[i - 1]
        }) <= s.max_time_between_steps
}

/// No time is lost or invented: over observations whose frame times stay
/// within the cap, the time consumed by ticks plus what is left in the
/// accumulator equals what was in it plus the wall-clock time elapsed.
pub proof fn lemma_elapsed_time_is_conserved(s: StepperModel, times: Seq<int>)
    requires
        frames_within_cap(s, times),
    ensures
        ({
            let (t, ticks) = observe_all(s, times);
            let last = if times.len() == 0 {
                s.last_checked_time
            } else {
                times.last()
            };
            &&& t.accumulator + ticks * s.game_time_step == s.accumulator + (last
                - s.last_checked_time)
            &&& t.last_checked_time == last
            &&& t.game_time_step == s.game_time_step
            &&& t.max_time_between_steps == s.max_time_between_steps
        }),
    decreases times.len(),
{
    if times.len() == 0 {
        assert(0nat * s.game_time_step == 0) by (nonlinear_arith);
    } else {
        let init = times.drop_last();
        assert forall|i: int| 0 <= i < init.len() implies #[trigger] init[i] - (if i == 0 {
            s.last_checked_time
        } else {
            init[i - 1]
        }) <= s.max_time_between_steps by {
            assert(init[i] == times[i]);
            assert(times[i] - (if i == 0 {
                s.last_checked_time
            } else {
                times[i - 1]
            }) <= s.max_time_between_steps);
        }
        lemma_elapsed_time_is_conserved(s, init);
        let (prev, k) = observe_all(s, init);
        let n = times.len() - 1;
        assert(times[n] - (if n == 0 {
            s.last_checked_time
        } else {
            times[n - 1]
        }) <= s.max_time_between_steps);
        if n > 0 {
            assert(init.last() == times[n - 1]);
        }
        assert(prev.counted(times.last()) == times.last() - prev.last_checked_time);
        let b = s.game_time_step;
        assert((k + 1) * b == k * b + b) by (nonlinear_arith);
    }
}

/// A frame longer than the cap counts exactly the cap, and a frame within the
/// cap counts exactly its own length: what one observation adds to the
/// accumulator (before a tick consumes a step) is
/// `min(now - last_checked_time, max_time_between_steps)`.
pub proof fn lemma_long_frames_count_the_cap(s: StepperModel, now: int)
    ensures
        ({
            let (t, ticked) = s.advance(now);
            let consumed = if ticked {
                s.game_time_step
            } else {
                0
            };
            &&& now - s.last_checked_time > s.max_time_between_steps ==> t.accumulator + consumed
                == s.accumulator + s.max_time_between_steps
            &&& now - s.last_checked_time <= s.max_time_between_steps ==> t.accumulator
                + consumed == s.accumulator + (now - s.last_checked_time)
        }),
{
}

/// An observation is refused only where the accumulator would leave the range
/// of a `SignedDuration`: it is possible exactly when the time it leaves in the
/// accumulator, plus what a tick consumes, is representable.
pub proof fn lemma_can_advance_is_only_the_range_check(s: StepperModel, now: int)
    ensures
        ({
            let (t, ticked) = s.advance(now);
            s.can_advance(now) <==> is_signed_span(
                t.accumulator + if ticked {
                    s.game_time_step
                } else {
                    0
                },
            )
        }),
        s.can_advance(now) <==> MIN_SIGNED_SPAN_NANOS <= s.accumulator + (if now
            - s.last_checked_time > s.max_time_between_steps {
            s.max_time_between_steps
        } else {
            now - s.last_checked_time
        }) <= MAX_SIGNED_SPAN_NANOS,
{
}

/// From an empty accumulator and a cap that is not negative, the clock may be
/// observed at every instant, however long the frame.
pub proof fn lemma_empty_accumulator_can_always_advance(s: StepperModel, now: int)
    requires
        s.valid(),
        is_instant(now),
        s.accumulator == 0,
        0 <= s.max_time_between_steps,
    ensures
        s.can_advance(now),
{
}

} // verus!
