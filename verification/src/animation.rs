//! A flip-book sprite animation driven by game ticks: every `ticks_per_frame`
//! ticks the next sprite frame of the sheet is shown, cycling through `frames`.
use vstd::prelude::*;

verus! {

/// The index into `frames` that is shown from tick `tick` on, for a tick that
/// is a multiple of `ticks_per_frame`.
pub open spec fn frame_index_at(tick: int, ticks_per_frame: int, frame_count: int) -> int {
    (tick / ticks_per_frame) % frame_count
}

/// The mathematical state of a `SpriteCycle`.
pub struct SpriteCycleModel {
    /// The sprite-sheet frame numbers to cycle through.
    pub frames: Seq<u32>,
    /// How many ticks each frame stays.
    pub ticks_per_frame: int,
    /// The number of ticks seen so far, modulo 2^32.
    pub tick: int,
    /// The index into `frames` of the frame shown.
    pub current: int,
}

impl SpriteCycleModel {
    pub open spec fn valid(self) -> bool {
        &&& 0 < self.frames.len() <= u32::MAX
        &&& 0 < self.ticks_per_frame <= u32::MAX
        &&& 0 <= self.tick <= u32::MAX
        &&& 0 <= self.current < self.frames.len()
    }

    /// The frame number shown.
    pub open spec fn shown(self) -> u32 {
        self.frames[self.current]
    }

    /// One game tick: the new state, and the frame to switch to where one is due.
    pub open spec fn on_tick(self) -> (SpriteCycleModel, Option<u32>) {
        let next_tick = if self.tick == u32::MAX {
            0
        } else {
            self.tick + 1
        };
        if self.tick % self.ticks_per_frame == 0 {
            let index = frame_index_at(self.tick, self.ticks_per_frame, self.frames.len() as int);
            (
                SpriteCycleModel { tick: next_tick, current: index, ..self },
                Some(self.frames[index]),
            )
        } else {
            (SpriteCycleModel { tick: next_tick, ..self }, None)
        }
    }
}

/// Cycles through sprite frames, one step every `ticks_per_frame` game ticks.
pub struct SpriteCycle {
    frames: Vec<u32>,
    ticks_per_frame: u32,
    tick: u32,
    current: usize,
}

impl View for SpriteCycle {
    type V = SpriteCycleModel;

    closed spec fn view(&self) -> SpriteCycleModel {
        SpriteCycleModel {
            frames: self.frames@,
            ticks_per_frame: self.ticks_per_frame as int,
            tick: self.tick as int,
            current: self.current as int,
        }
    }
}

impl SpriteCycle {
    #[verifier::type_invariant]
    spec fn inv(self) -> bool {
        self@.valid()
    }

    /// A cycle at tick 0 that shows `frames[0]`.
    pub fn new(frames: Vec<u32>, ticks_per_frame: u32) -> (c: Self)
        requires
            0 < frames.len() <= u32::MAX,
            0 < ticks_per_frame,
        ensures
            c@ == (SpriteCycleModel {
                frames: frames@,
                ticks_per_frame: ticks_per_frame as int,
                tick: 0,
                current: 0,
            }),
    {
        SpriteCycle { frames, ticks_per_frame, tick: 0, current: 0 }
    }

    /// The frame number shown.
    pub fn current_frame(&self) -> (frame: u32)
        ensures
            frame == self@.shown(),
    {
        proof {
            use_type_invariant(self);
        }
        self.frames[self.current]
    }

    /// Advances one game tick. On a tick that is a multiple of
    /// `ticks_per_frame` the shown frame becomes
    /// `frames[(tick / ticks_per_frame) % frames.len()]` and is returned;
    /// otherwise nothing changes but the tick count, and `None` is returned.
    pub fn on_tick(&mut self) -> (switched_to: Option<u32>)
        ensures
            (final(self)@, switched_to) == old(self)@.on_tick(),
            switched_to matches Some(f) ==> old(self)@.frames.contains(f),
            switched_to matches Some(f) ==> final(self)@.shown() == f,
            switched_to is None ==> final(self)@.shown() == old(self)@.shown(),
            final(self)@.tick == (old(self)@.tick + 1) % 0x1_0000_0000,
    {
        proof {
            use_type_invariant(&*self);
        }
        let tick = self.tick;
        let count = self.frames.len() as u32;
        let switched_to = if tick.is_multiple_of(self.ticks_per_frame) {
            let index = ((tick / self.ticks_per_frame) % count) as usize;
            self.current = index;
            Some(self.frames[index])
        } else {
            None
        };
        self.tick = tick.wrapping_add(1);
        switched_to
    }
}

/// From one switch to the next (`ticks_per_frame` ticks later) the shown
/// frame moves on to the following entry of `frames`, wrapping to the first
/// after the last: with two frames, the sprite flips between them.
pub proof fn lemma_next_switch_shows_next_frame(tick: int, ticks_per_frame: int, frame_count: int)
    requires
        0 <= tick,
        0 < ticks_per_frame,
        0 < frame_count,
    ensures
        frame_index_at(tick + ticks_per_frame, ticks_per_frame, frame_count) == (frame_index_at(
            tick,
            ticks_per_frame,
            frame_count,
        ) + 1) % frame_count,
{
    let q = tick / ticks_per_frame;
    assert(q + 1 == (tick + 1 * ticks_per_frame) / ticks_per_frame) by {
        vstd::arithmetic::div_mod::lemma_hoist_over_denominator(tick, 1, ticks_per_frame as nat);
    }
    assert(1 * ticks_per_frame == ticks_per_frame);
    assert((q % frame_count + 1) % frame_count == (q + 1) % frame_count) by {
        vstd::arithmetic::div_mod::lemma_add_mod_noop_right(1, q, frame_count);
        vstd::arithmetic::div_mod::lemma_add_mod_noop_right(1, q % frame_count, frame_count);
        vstd::arithmetic::div_mod::lemma_mod_twice(q, frame_count);
    }
}

/// The animation repeats: a full round of `frames.len()` switches later, the
/// same frame is shown again.
pub proof fn lemma_cycle_repeats(tick: int, ticks_per_frame: int, frame_count: int)
    requires
        0 <= tick,
        0 < ticks_per_frame,
        0 < frame_count,
    ensures
        frame_index_at(tick + frame_count * ticks_per_frame, ticks_per_frame, frame_count)
            == frame_index_at(tick, ticks_per_frame, frame_count),
{
    let q = tick / ticks_per_frame;
    assert(q + frame_count == (tick + frame_count * ticks_per_frame) / ticks_per_frame) by {
        vstd::arithmetic::div_mod::lemma_hoist_over_denominator(
            tick,
            frame_count,
            ticks_per_frame as nat,
        );
    }
    assert((frame_count + q) % frame_count == q % frame_count) by {
        vstd::arithmetic::div_mod::lemma_mod_add_multiples_vanish(q, frame_count);
    }
}

/// The state after `n` ticks.
pub open spec fn ticked_times(m: SpriteCycleModel, n: nat) -> SpriteCycleModel
    decreases n,
{
    if n == 0 {
        m
    } else {
        ticked_times(m, (n - 1) as nat).on_tick().0
    }
}

/// Each tick advances the tick count by one, modulo 2^32, and keeps the
/// frames and the period.
pub proof fn lemma_tick_count_wraps_at_u32(m: SpriteCycleModel)
    requires
        m.valid(),
    ensures
        m.on_tick().0.tick == (m.tick + 1) % 0x1_0000_0000,
        m.on_tick().0.frames == m.frames,
        m.on_tick().0.ticks_per_frame == m.ticks_per_frame,
        m.on_tick().0.valid(),
{
    assert(m.tick < 0x1_0000_0000);
    if m.tick % m.ticks_per_frame == 0 {
        vstd::arithmetic::div_mod::lemma_mod_bound(
            m.tick / m.ticks_per_frame,
            m.frames.len() as int,
        );
    }
}

/// A switched-to frame is the frame shown afterwards; without a switch the
/// shown frame stays.
pub proof fn lemma_switch_shows_the_returned_frame(m: SpriteCycleModel)
    requires
        m.valid(),
    ensures
        m.on_tick().1 matches Some(f) ==> m.on_tick().0.shown() == f,
        m.on_tick().1 is None ==> m.on_tick().0.shown() == m.shown(),
{
}

/// Counting from a fresh cycle: the tick after `n` ticks (`n` below 2^32)
/// is tick `n`, and that tick switches, to `frames[(n / ticks_per_frame) % len]`,
/// exactly when `n` is a multiple of `ticks_per_frame`.
pub proof fn lemma_nth_tick_from_start(m: SpriteCycleModel, n: nat)
    requires
        m.valid(),
        m.tick == 0,
        n <= u32::MAX,
    ensures
        ticked_times(m, n).valid(),
        ticked_times(m, n).tick == n,
        ticked_times(m, n).frames == m.frames,
        ticked_times(m, n).ticks_per_frame == m.ticks_per_frame,
        ticked_times(m, n).on_tick().1 == if (n as int) % m.ticks_per_frame == 0 {
            Some(m.frames[((n as int) / m.ticks_per_frame) % (m.frames.len() as int)])
        } else {
            None::<u32>
        },
    decreases n,
{
    if n > 0 {
        let k = (n - 1) as nat;
        lemma_nth_tick_from_start(m, k);
        lemma_tick_count_wraps_at_u32(ticked_times(m, k));
    }
}

} // verus!
