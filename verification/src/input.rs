//! Input state: per-action flags and the auto-repeat timers that decide
//! when a held action fires again. Times are in microseconds.

use vstd::prelude::*;

verus! {

/// How long an action must stay held before it starts to auto-repeat, in
/// microseconds.
pub const INITIAL_DELAY_TIME: u64 = 150_000;

/// The pause between two auto-repeated firings of a held action, in
/// microseconds.
pub const SECONDARY_DELAY_TIME: u64 = 50_000;

/// The longest frame time a session step accepts, in microseconds (one
/// day); it keeps every timer far away from overflow.
pub const MAX_FRAME_TIME: u64 = 86_400_000_000;

/// The actions a player can request of the play session.
#[derive(Debug, Copy, Clone, PartialEq, Eq, Structural)]
pub enum Command {
    MoveLeft,
    MoveRight,
    SoftDrop,
    HardDrop,
    RotateClockwise,
    RotateCounterclockwise,
    Hold,
}

/// Represents an input field. An input can be active or inactive. When
/// active, two timers dictate when the action tied to that input fires:
/// it fires once when first pressed, once more when the initial delay has
/// passed, and then again each time the secondary delay runs out.
#[derive(Debug, Copy, Clone, PartialEq, Eq, Structural)]
pub struct InputStateField {
    pub is_active: bool,
    pub initial_delay_timer: u64,
    pub secondary_delay_timer: u64,
}

/// What one frame of `dt` microseconds does to a held input field: the
/// field's new timers, and whether its action fires this frame.
pub open spec fn spec_repeat_step(o: InputStateField, dt: u64) -> (InputStateField, bool) {
    if o.initial_delay_timer == 0 {
        (
            InputStateField { initial_delay_timer: dt, ..o },
            true,
        )
    } else if o.initial_delay_timer <= INITIAL_DELAY_TIME {
        (
            InputStateField {
                initial_delay_timer: (o.initial_delay_timer + dt) as u64,
                ..o
            },
            false,
        )
    } else if o.secondary_delay_timer == 0 {
        (
            InputStateField { secondary_delay_timer: dt, ..o },
            true,
        )
    } else {
        let bumped = o.secondary_delay_timer + dt;
        (
            InputStateField {
                secondary_delay_timer: (
                    if bumped >= SECONDARY_DELAY_TIME {
                        0
                    } else {
                        bumped
                    }
                ) as u64,
                ..o
            },
            false,
        )
    }
}

impl InputStateField {
    /// The timers never run past one initial delay plus two frames, so
    /// adding a frame time cannot overflow.
    pub open spec fn wf(self) -> bool {
        &&& self.initial_delay_timer <= INITIAL_DELAY_TIME + MAX_FRAME_TIME
        &&& self.secondary_delay_timer <= 2 * MAX_FRAME_TIME
    }

    /// Release the input: clear the flag and both timers.
    pub fn reset(&mut self)
        ensures
            *final(self) == (InputStateField {
                is_active: false,
                initial_delay_timer: 0,
                secondary_delay_timer: 0,
            }),
    {
        self.is_active = false;
        self.initial_delay_timer = 0;
        self.secondary_delay_timer = 0;
    }

    /// Advance the auto-repeat timers by one frame of `dt` microseconds
    /// and report whether the bound action fires this frame.
    pub fn advance_repeat(&mut self, dt: u64) -> (fire: bool)
        requires
            old(self).wf(),
            dt <= MAX_FRAME_TIME,
        ensures
            final(self).wf(),
            (*final(self), fire) == spec_repeat_step(*old(self), dt),
    {
        if self.initial_delay_timer == 0 {
            self.initial_delay_timer = dt;
            true
        } else if self.initial_delay_timer <= INITIAL_DELAY_TIME {
            self.initial_delay_timer = self.initial_delay_timer + dt;
            false
        } else if self.secondary_delay_timer == 0 {
            self.secondary_delay_timer = dt;
            true
        } else {
            let bumped = self.secondary_delay_timer + dt;
            self.secondary_delay_timer = if bumped >= SECONDARY_DELAY_TIME {
                0
            } else {
                bumped
            };
            false
        }
    }
}

impl Default for InputStateField {
    /// An inactive input with both timers cleared.
    fn default() -> (d: InputStateField)
        ensures
            d == (InputStateField {
                is_active: false,
                initial_delay_timer: 0,
                secondary_delay_timer: 0,
            }),
    {
        InputStateField { is_active: false, initial_delay_timer: 0, secondary_delay_timer: 0 }
    }
}

/// Represents the commands of the play session mapped to input.
#[derive(Debug, Copy, Clone, PartialEq, Eq, Structural)]
pub struct InputState {
    pub left: InputStateField,
    pub right: InputStateField,
    pub soft_drop: InputStateField,
    pub hard_drop: InputStateField,
    pub rotate_clockwise: InputStateField,
    pub rotate_counterclockwise: InputStateField,
    pub drop: InputStateField,
    pub hold: InputStateField,
}

impl InputState {
    /// Every field's timers are in their working range.
    pub open spec fn wf(self) -> bool {
        &&& self.left.wf()
        &&& self.right.wf()
        &&& self.soft_drop.wf()
        &&& self.hard_drop.wf()
        &&& self.rotate_clockwise.wf()
        &&& self.rotate_counterclockwise.wf()
        &&& self.drop.wf()
        &&& self.hold.wf()
    }

    /// The field that carries `cmd`.
    pub open spec fn spec_field(self, cmd: Command) -> InputStateField {
        match cmd {
            Command::MoveLeft => self.left,
            Command::MoveRight => self.right,
            Command::SoftDrop => self.soft_drop,
            Command::HardDrop => self.hard_drop,
            Command::RotateClockwise => self.rotate_clockwise,
            Command::RotateCounterclockwise => self.rotate_counterclockwise,
            Command::Hold => self.hold,
        }
    }

    /// `self` with the field that carries `cmd` replaced by `f`.
    pub open spec fn spec_with_field(self, cmd: Command, f: InputStateField) -> InputState {
        match cmd {
            Command::MoveLeft => InputState { left: f, ..self },
            Command::MoveRight => InputState { right: f, ..self },
            Command::SoftDrop => InputState { soft_drop: f, ..self },
            Command::HardDrop => InputState { hard_drop: f, ..self },
            Command::RotateClockwise => InputState { rotate_clockwise: f, ..self },
            Command::RotateCounterclockwise => InputState { rotate_counterclockwise: f, ..self },
            Command::Hold => InputState { hold: f, ..self },
        }
    }

    /// Mark the input that carries `cmd` as held down.
    pub fn press(&mut self, cmd: Command)
        ensures
            *final(self) == old(self).spec_with_field(
                cmd,
                (InputStateField { is_active: true, ..old(self).spec_field(cmd) }),
            ),
    {
        match cmd {
            Command::MoveLeft => self.left.is_active = true,
            Command::MoveRight => self.right.is_active = true,
            Command::SoftDrop => self.soft_drop.is_active = true,
            Command::HardDrop => self.hard_drop.is_active = true,
            Command::RotateClockwise => self.rotate_clockwise.is_active = true,
            Command::RotateCounterclockwise => self.rotate_counterclockwise.is_active = true,
            Command::Hold => self.hold.is_active = true,
        }
    }

    /// Release the input that carries `cmd`, clearing its timers.
    pub fn release(&mut self, cmd: Command)
        ensures
            *final(self) == old(self).spec_with_field(
                cmd,
                (InputStateField { is_active: false, initial_delay_timer: 0, secondary_delay_timer: 0 }),
            ),
    {
        match cmd {
            Command::MoveLeft => self.left.reset(),
            Command::MoveRight => self.right.reset(),
            Command::SoftDrop => self.soft_drop.reset(),
            Command::HardDrop => self.hard_drop.reset(),
            Command::RotateClockwise => self.rotate_clockwise.reset(),
            Command::RotateCounterclockwise => self.rotate_counterclockwise.reset(),
            Command::Hold => self.hold.reset(),
        }
    }
}

impl InputState {
    /// The value `InputState::default` returns: every input released.
    pub open spec fn default_spec() -> InputState {
        InputState {
            left: InputStateField::default_spec(),
            right: InputStateField::default_spec(),
            soft_drop: InputStateField::default_spec(),
            hard_drop: InputStateField::default_spec(),
            rotate_clockwise: InputStateField::default_spec(),
            rotate_counterclockwise: InputStateField::default_spec(),
            drop: InputStateField::default_spec(),
            hold: InputStateField::default_spec(),
        }
    }
}

impl Default for InputState {
    /// All inputs inactive with cleared timers.
    fn default() -> (d: InputState)
        ensures
            d == InputState::default_spec(),
    {
        InputState {
            left: InputStateField::default(),
            right: InputStateField::default(),
            soft_drop: InputStateField::default(),
            hard_drop: InputStateField::default(),
            rotate_clockwise: InputStateField::default(),
            rotate_counterclockwise: InputStateField::default(),
            drop: InputStateField::default(),
            hold: InputStateField::default(),
        }
    }
}

impl InputStateField {
    /// The value `InputStateField::default` returns.
    pub open spec fn default_spec() -> InputStateField {
        InputStateField { is_active: false, initial_delay_timer: 0, secondary_delay_timer: 0 }
    }
}

} // verus!
