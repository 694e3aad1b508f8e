//! Per-frame input snapshot and the game clock.
//!
//! The simulation never reads hardware events; the outer loop tracks the key
//! state and hands the core one `KeyEvents` snapshot per frame, together with
//! a `GameTime` in milliseconds.
use vstd::prelude::*;

verus! {

/// The game clock, in milliseconds: time since the previous frame and time
/// since the simulation started.
#[derive(Clone, Copy, Debug, PartialEq, Eq, Structural)]
pub struct GameTime {
    pub elapsed: u32,
    pub total: u32,
}

impl GameTime {
    /// A frame's elapsed slice never exceeds the total clock.
    pub open spec fn wf(self) -> bool {
        self.elapsed <= self.total
    }
}

/// One boolean per logical action the player can request.
#[derive(Clone, Copy, Debug, PartialEq, Eq, Structural)]
pub struct Keys {
    pub up: bool,
    pub down: bool,
    pub left: bool,
    pub right: bool,
    pub fire: bool,
    pub next_weapon: bool,
    pub escape: bool,
    pub quit: bool,
}

impl Keys {
    /// The keys that are down now but were not down in `last`.
    pub open spec fn pressed_since_spec(self, last: Keys) -> Keys {
        Keys {
            up: !last.up && self.up,
            down: !last.down && self.down,
            left: !last.left && self.left,
            right: !last.right && self.right,
            fire: !last.fire && self.fire,
            next_weapon: !last.next_weapon && self.next_weapon,
            escape: !last.escape && self.escape,
            quit: !last.quit && self.quit,
        }
    }

    pub fn pressed_since(&self, last: &Keys) -> (r: Keys)
        ensures
            r == self.pressed_since_spec(*last),
    {
        Keys {
            up: !last.up && self.up,
            down: !last.down && self.down,
            left: !last.left && self.left,
            right: !last.right && self.right,
            fire: !last.fire && self.fire,
            next_weapon: !last.next_weapon && self.next_weapon,
            escape: !last.escape && self.escape,
            quit: !last.quit && self.quit,
        }
    }

    /// The keys that were down in `other` but are no longer down now.
    pub fn released_since(&self, other: &Keys) -> (r: Keys)
        ensures
            r == other.pressed_since_spec(*self),
    {
        other.pressed_since(self)
    }
}

impl Default for Keys {
    /// No key is down.
    fn default() -> (r: Keys)
        ensures
            r == (Keys {
                up: false,
                down: false,
                left: false,
                right: false,
                fire: false,
                next_weapon: false,
                escape: false,
                quit: false,
            }),
    {
        Keys {
            up: false,
            down: false,
            left: false,
            right: false,
            fire: false,
            next_weapon: false,
            escape: false,
            quit: false,
        }
    }
}

/// The per-frame key snapshot: what is held down, what was newly pressed
/// this frame, and what was released this frame.
#[derive(Clone, Copy, Debug, PartialEq, Eq, Structural)]
pub struct KeyEvents {
    pub down: Keys,
    pub pressed: Keys,
    pub released: Keys,
}

impl KeyEvents {
    /// Derive the edge information from the previous and current key state.
    pub fn new(last: Keys, now: Keys) -> (r: KeyEvents)
        ensures
            r.down == now,
            r.pressed == now.pressed_since_spec(last),
            r.released == last.pressed_since_spec(now),
    {
        let pressed = now.pressed_since(&last);
        let released = now.released_since(&last);
        KeyEvents { down: now, pressed, released }
    }
}

} // verus!
