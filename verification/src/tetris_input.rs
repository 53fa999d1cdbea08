//! The game's tracked input axes: one debounced axis per logical button, fed
//! each tick with the buffered button events and the elapsed time.
use vstd::prelude::*;

use crate::binary_axis::BinaryAxis;
use crate::binary_axis::spec_state_change;
use crate::binary_axis::spec_update;

verus! {

/// The logical buttons the game reacts to.
#[derive(Clone, Copy, Debug, PartialEq, Eq, Structural)]
pub enum GameButton {
    ArrowLeft,
    ArrowRight,
    ArrowUp,
    ArrowDown,
    KeyA,
    KeyS,
    KeyD,
}

/// A discrete button state change: the logical button and whether it is now
/// pressed.
#[derive(Clone, Copy, Debug, PartialEq, Eq, Structural)]
pub struct ButtonEvent {
    pub button: GameButton,
    pub pressed: bool,
}

/// An axis after the events of one tick: each event for `button` is applied as
/// a state change, in order; events for other buttons are ignored.
pub open spec fn spec_axis_after_events(
    a: BinaryAxis,
    events: Seq<ButtonEvent>,
    button: GameButton,
) -> BinaryAxis
    decreases events.len(),
{
    if events.len() == 0 {
        a
    } else {
        let prev = spec_axis_after_events(a, events.drop_last(), button);
        if events.last().button == button {
            spec_state_change(prev, events.last().pressed)
        } else {
            prev
        }
    }
}

/// An axis after one whole tick: the tick's events, then the time update.
pub open spec fn spec_axis_tick(
    a: BinaryAxis,
    events: Seq<ButtonEvent>,
    button: GameButton,
    dt: u32,
) -> BinaryAxis {
    spec_update(spec_axis_after_events(a, events, button), dt)
}

/// All input axes the game tracks.
#[derive(Clone, Copy, Debug, PartialEq, Eq, Structural)]
pub struct TetrisInput {
    pub arrow_left: BinaryAxis,
    pub arrow_right: BinaryAxis,
    pub arrow_up: BinaryAxis,
    pub arrow_down: BinaryAxis,
    pub key_a: BinaryAxis,
    pub key_s: BinaryAxis,
    pub key_d: BinaryAxis,
}

/// The whole input state after one tick.
pub open spec fn spec_input_tick(inp: TetrisInput, events: Seq<ButtonEvent>, dt: u32) -> TetrisInput {
    TetrisInput {
        arrow_left: spec_axis_tick(inp.arrow_left, events, GameButton::ArrowLeft, dt),
        arrow_right: spec_axis_tick(inp.arrow_right, events, GameButton::ArrowRight, dt),
        arrow_up: spec_axis_tick(inp.arrow_up, events, GameButton::ArrowUp, dt),
        arrow_down: spec_axis_tick(inp.arrow_down, events, GameButton::ArrowDown, dt),
        key_a: spec_axis_tick(inp.key_a, events, GameButton::KeyA, dt),
        key_s: spec_axis_tick(inp.key_s, events, GameButton::KeyS, dt),
        key_d: spec_axis_tick(inp.key_d, events, GameButton::KeyD, dt),
    }
}

/// All axes fresh: released, with zeroed counters.
pub open spec fn spec_fresh_input() -> TetrisInput {
    TetrisInput {
        arrow_left: BinaryAxis::spec_released(),
        arrow_right: BinaryAxis::spec_released(),
        arrow_up: BinaryAxis::spec_released(),
        arrow_down: BinaryAxis::spec_released(),
        key_a: BinaryAxis::spec_released(),
        key_s: BinaryAxis::spec_released(),
        key_d: BinaryAxis::spec_released(),
    }
}

impl TetrisInput {
    /// All axes fresh: released, with zeroed counters.
    pub fn new() -> (r: Self)
        ensures
            r == spec_fresh_input(),
    {
        Self {
            arrow_left: BinaryAxis::new(),
            arrow_right: BinaryAxis::new(),
            arrow_up: BinaryAxis::new(),
            arrow_down: BinaryAxis::new(),
            key_a: BinaryAxis::new(),
            key_s: BinaryAxis::new(),
            key_d: BinaryAxis::new(),
        }
    }

    /// Feed one tick: dispatch each buffered event to the axis of its button,
    /// in order, then advance every axis by the tick's elapsed time.
    pub fn update(&mut self, dt: u32, input_events: &Vec<ButtonEvent>)
        ensures
            *final(self) == spec_input_tick(*old(self), input_events@, dt),
    {
        // Loop through all of the input events that happened this frame.
        let n = input_events.len();
        for i in 0..n
            invariant
                n == input_events@.len(),
                self.arrow_left == spec_axis_after_events(
                    old(self).arrow_left,
                    input_events@.take(i as int),
                    GameButton::ArrowLeft,
                ),
                self.arrow_right == spec_axis_after_events(
                    old(self).arrow_right,
                    input_events@.take(i as int),
                    GameButton::ArrowRight,
                ),
                self.arrow_up == spec_axis_after_events(
                    old(self).arrow_up,
                    input_events@.take(i as int),
                    GameButton::ArrowUp,
                ),
                self.arrow_down == spec_axis_after_events(
                    old(self).arrow_down,
                    input_events@.take(i as int),
                    GameButton::ArrowDown,
                ),
                self.key_a == spec_axis_after_events(
                    old(self).key_a,
                    input_events@.take(i as int),
                    GameButton::KeyA,
                ),
                self.key_s == spec_axis_after_events(
                    old(self).key_s,
                    input_events@.take(i as int),
                    GameButton::KeyS,
                ),
                self.key_d == spec_axis_after_events(
                    old(self).key_d,
                    input_events@.take(i as int),
                    GameButton::KeyD,
                ),
        {
            let entry = input_events[i];
            match entry.button {
                GameButton::ArrowLeft => self.arrow_left.state_change(entry.pressed),
                GameButton::ArrowRight => self.arrow_right.state_change(entry.pressed),
                GameButton::ArrowUp => self.arrow_up.state_change(entry.pressed),
                GameButton::ArrowDown => self.arrow_down.state_change(entry.pressed),
                GameButton::KeyA => self.key_a.state_change(entry.pressed),
                GameButton::KeyS => self.key_s.state_change(entry.pressed),
                GameButton::KeyD => self.key_d.state_change(entry.pressed),
            }
            proof {
                assert(input_events@.take(i + 1).drop_last() =~= input_events@.take(i as int));
                assert(input_events@.take(i + 1).last() == input_events@[i as int]);
            }
        }
        proof {
            assert(input_events@.take(n as int) =~= input_events@);
        }
        // Now advance every axis by the elapsed time of the frame.
        self.arrow_left.update(dt);
        self.arrow_right.update(dt);
        self.arrow_up.update(dt);
        self.arrow_down.update(dt);
        self.key_a.update(dt);
        self.key_s.update(dt);
        self.key_d.update(dt);
    }
}

} // verus!
