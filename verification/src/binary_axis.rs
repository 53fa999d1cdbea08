//! Per-button debounced hold/edge tracker, fed by discrete state-change events
//! plus per-tick time deltas (milliseconds).
use vstd::prelude::*;

verus! {

/// Tracks whether a button is held, how many frames and how much time it has
/// spent in that state, and the counters of the previous state.
#[derive(Clone, Copy, Debug, PartialEq, Eq, Structural)]
pub struct BinaryAxis {
    pub currently_held: bool,
    pub frames_in_state: u64,
    pub time_in_state: u64,
    pub frames_in_previous: u64,
    pub time_in_previous: u64,
}

/// The axis after a state-change event: a no-op unless the logical state
/// actually flips; on a flip the current counters are archived and reset.
pub open spec fn spec_state_change(a: BinaryAxis, new_state: bool) -> BinaryAxis {
    if a.currently_held == new_state {
        a
    } else {
        BinaryAxis {
            currently_held: new_state,
            frames_in_state: 0,
            time_in_state: 0,
            frames_in_previous: a.frames_in_state,
            time_in_previous: a.time_in_state,
        }
    }
}

/// The axis after one tick: the frame counter advances by one and the time
/// counter by `dt`, each saturating at the top of `u64`.
pub open spec fn spec_update(a: BinaryAxis, dt: u32) -> BinaryAxis {
    BinaryAxis {
        frames_in_state: if a.frames_in_state < u64::MAX {
            (a.frames_in_state + 1) as u64
        } else {
            u64::MAX
        },
        time_in_state: if a.time_in_state + dt <= u64::MAX {
            (a.time_in_state + dt) as u64
        } else {
            u64::MAX
        },
        ..a
    }
}

/// True on the tick of a press transition and the one immediately after it.
pub open spec fn spec_pressed_this_frame(a: BinaryAxis) -> bool {
    a.currently_held && a.frames_in_state < 2
}

impl BinaryAxis {
    /// A fresh axis: released, with zeroed counters.
    pub open spec fn spec_released() -> BinaryAxis {
        BinaryAxis {
            currently_held: false,
            frames_in_state: 0,
            time_in_state: 0,
            frames_in_previous: 0,
            time_in_previous: 0,
        }
    }

    /// A fresh axis: released, with zeroed counters.
    pub fn new() -> (r: Self)
        ensures
            r == BinaryAxis::spec_released(),
    {
        Self {
            currently_held: false,
            frames_in_state: 0,
            time_in_state: 0,
            frames_in_previous: 0,
            time_in_previous: 0,
        }
    }

    /// Feed a discrete press (`true`) or release (`false`) event. Repeating
    /// the current logical state is a no-op; a transition archives the current
    /// counters into the previous slots and resets them.
    pub fn state_change(&mut self, new_state: bool)
        ensures
            *final(self) == spec_state_change(*old(self), new_state),
            new_state == old(self).currently_held ==> *final(self) == *old(self),
    {
        if self.currently_held != new_state {
            self.currently_held = new_state;
            self.frames_in_previous = self.frames_in_state;
            self.time_in_previous = self.time_in_state;
            self.frames_in_state = 0;
            self.time_in_state = 0;
        }
    }

    /// Advance the in-state counters by one frame and `dt` milliseconds,
    /// regardless of transitions.
    pub fn update(&mut self, dt: u32)
        ensures
            *final(self) == spec_update(*old(self), dt),
    {
        if self.frames_in_state < u64::MAX {
            self.frames_in_state = self.frames_in_state + 1;
        }
        if self.time_in_state <= u64::MAX - dt as u64 {
            self.time_in_state = self.time_in_state + dt as u64;
        } else {
            self.time_in_state = u64::MAX;
        }
    }

    pub fn pressed(&self) -> (r: bool)
        ensures
            r == self.currently_held,
    {
        self.currently_held
    }

    /// True only on the tick of the press transition and the tick immediately
    /// following, so an edge fires exactly once for a driver that updates once
    /// per tick.
    pub fn pressed_this_frame(&self) -> (r: bool)
        ensures
            r == spec_pressed_this_frame(*self),
    {
        self.pressed() && self.frames_in_state < 2
    }
}

/// The axis after a sequence of per-tick updates, one per elapsed-time entry.
pub open spec fn spec_updates(a: BinaryAxis, dts: Seq<u32>) -> BinaryAxis
    decreases dts.len(),
{
    if dts.len() == 0 {
        a
    } else {
        spec_update(spec_updates(a, dts.drop_last()), dts.last())
    }
}

/// After a press transition on a released axis, `pressed_this_frame` holds for
/// the tick of the press and the tick after it, and for no later tick until
/// another transition: after `n >= 1` updates it holds exactly when `n < 2`.
pub proof fn lemma_pressed_this_frame_window(a: BinaryAxis, dts: Seq<u32>)
    requires
        !a.currently_held,
        dts.len() >= 1,
    ensures
        spec_pressed_this_frame(spec_updates(spec_state_change(a, true), dts)) <==> dts.len() < 2,
{
    lemma_updates_frame_count(spec_state_change(a, true), dts);
}

/// Iterated updates advance the frame counter by the number of ticks, up to
/// saturation.
proof fn lemma_updates_frame_count(a: BinaryAxis, dts: Seq<u32>)
    ensures
        spec_updates(a, dts).currently_held == a.currently_held,
        spec_updates(a, dts).frames_in_state
            == if a.frames_in_state + dts.len() <= u64::MAX {
                (a.frames_in_state + dts.len()) as u64
            } else {
                u64::MAX
            },
    decreases dts.len(),
{
    if dts.len() > 0 {
        lemma_updates_frame_count(a, dts.drop_last());
    }
}

} // verus!
