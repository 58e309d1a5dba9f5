//! The input snapshot of a frame, derived from what the platform captured
//! and from the snapshot of the frame before.

use crate::math::Pos2;
use crate::math::Vec2;
use vstd::prelude::*;

verus! {

/// Two releases of the button less than this many milliseconds apart make a
/// double click.
pub const DOUBLE_CLICK_INTERVAL: u64 = 300;

/// The scale factor of a screen with one device pixel per point, in
/// thousandths.
pub const DEFAULT_PIXELS_PER_POINT: u32 = 1000;

/// What the platform captured for one frame.
#[derive(Clone, Copy, Debug)]
pub struct RawInput {
    /// Whether the button is held down.
    pub mouse_down: bool,
    /// Where the pointer is, if it is over the screen.
    pub mouse_pos: Option<Pos2>,
    /// The size of the screen.
    pub screen_size: Vec2,
    /// Device pixels per point, in thousandths, if the platform knows it.
    pub pixels_per_point: Option<u32>,
    /// The time of capture, in milliseconds.
    pub time: u64,
}

/// The pointer during one frame.
#[derive(Clone, Copy, Debug)]
pub struct MouseInput {
    /// Whether the button is held down.
    pub down: bool,
    /// Whether the button went down this frame.
    pub pressed: bool,
    /// Whether the button went up this frame.
    pub released: bool,
    /// Whether this frame's release completes a double click.
    pub double_click: bool,
    /// Where the pointer is, if it is over the screen.
    pub pos: Option<Pos2>,
    /// How far the pointer moved since the frame before.
    pub delta: Vec2,
    /// When the button last went up, in milliseconds.
    pub last_release: Option<u64>,
}

/// The immutable input snapshot of one frame.
#[derive(Clone, Copy, Debug)]
pub struct InputState {
    pub mouse: MouseInput,
    /// The size of the screen.
    pub screen_size: Vec2,
    /// Device pixels per point, in thousandths. Never zero in a snapshot
    /// that was derived from the default one.
    pub pixels_per_point: u32,
    /// The time of capture, in milliseconds.
    pub time: u64,
}

impl MouseInput {
    /// The pointer before the first frame: up, and nowhere.
    pub open spec fn spec_default() -> MouseInput {
        MouseInput {
            down: false,
            pressed: false,
            released: false,
            double_click: false,
            pos: None,
            delta: Vec2 { x: 0, y: 0 },
            last_release: None,
        }
    }

    /// Whether a release at `time` follows the last release closely enough
    /// to make a double click.
    pub open spec fn follows_release(self, time: u64) -> bool {
        match self.last_release {
            Some(before) => before <= time && time - before < DOUBLE_CLICK_INTERVAL,
            None => false,
        }
    }

    /// The pointer of the next frame: the edges and the movement come from
    /// comparing the new capture with `self`.
    pub open spec fn spec_begin_frame(self, new: RawInput) -> MouseInput {
        let released = self.down && !new.mouse_down;
        MouseInput {
            down: new.mouse_down,
            pressed: !self.down && new.mouse_down,
            released,
            double_click: released && self.follows_release(new.time),
            pos: new.mouse_pos,
            delta: match (new.mouse_pos, self.pos) {
                (Some(now), Some(before)) => now.spec_offset_from(before),
                _ => Vec2 { x: 0, y: 0 },
            },
            last_release: if released {
                Some(new.time)
            } else {
                self.last_release
            },
        }
    }

    #[verifier::when_used_as_spec(spec_begin_frame)]
    pub fn begin_frame(self, new: RawInput) -> (next: MouseInput)
        ensures
            next == self.spec_begin_frame(new),
    {
        let released = self.down && !new.mouse_down;
        let follows = match self.last_release {
            Some(before) => before <= new.time && new.time - before < DOUBLE_CLICK_INTERVAL,
            None => false,
        };
        let delta = match (new.mouse_pos, self.pos) {
            (Some(now), Some(before)) => now.offset_from(before),
            _ => Vec2 { x: 0, y: 0 },
        };
        MouseInput {
            down: new.mouse_down,
            pressed: !self.down && new.mouse_down,
            released,
            double_click: released && follows,
            pos: new.mouse_pos,
            delta,
            last_release: if released {
                Some(new.time)
            } else {
                self.last_release
            },
        }
    }
}

impl Default for MouseInput {
    fn default() -> (mouse: MouseInput)
        ensures
            mouse == MouseInput::spec_default(),
    {
        MouseInput {
            down: false,
            pressed: false,
            released: false,
            double_click: false,
            pos: None,
            delta: Vec2 { x: 0, y: 0 },
            last_release: None,
        }
    }
}

impl Default for RawInput {
    fn default() -> (raw: RawInput)
        ensures
            raw == (RawInput {
                mouse_down: false,
                mouse_pos: None,
                screen_size: Vec2 { x: 0, y: 0 },
                pixels_per_point: None,
                time: 0,
            }),
    {
        RawInput {
            mouse_down: false,
            mouse_pos: None,
            screen_size: Vec2 { x: 0, y: 0 },
            pixels_per_point: None,
            time: 0,
        }
    }
}

impl InputState {
    /// The snapshot before the first frame.
    pub open spec fn spec_default() -> InputState {
        InputState {
            mouse: MouseInput::spec_default(),
            screen_size: Vec2 { x: 0, y: 0 },
            pixels_per_point: DEFAULT_PIXELS_PER_POINT,
            time: 0,
        }
    }

    /// The snapshot of the next frame. A scale factor that the platform
    /// does not give, or gives as zero, leaves the one of `self` in place.
    pub open spec fn spec_begin_frame(self, new: RawInput) -> InputState {
        InputState {
            mouse: self.mouse.spec_begin_frame(new),
            screen_size: new.screen_size,
            pixels_per_point: match new.pixels_per_point {
                Some(scale) => if scale > 0 {
                    scale
                } else {
                    self.pixels_per_point
                },
                None => self.pixels_per_point,
            },
            time: new.time,
        }
    }

    #[verifier::when_used_as_spec(spec_begin_frame)]
    pub fn begin_frame(self, new: RawInput) -> (next: InputState)
        ensures
            next == self.spec_begin_frame(new),
    {
        InputState {
            mouse: self.mouse.begin_frame(new),
            screen_size: new.screen_size,
            pixels_per_point: match new.pixels_per_point {
                Some(scale) => if scale > 0 {
                    scale
                } else {
                    self.pixels_per_point
                },
                None => self.pixels_per_point,
            },
            time: new.time,
        }
    }
}

impl Default for InputState {
    fn default() -> (input: InputState)
        ensures
            input == InputState::spec_default(),
    {
        InputState {
            mouse: MouseInput::default(),
            screen_size: Vec2 { x: 0, y: 0 },
            pixels_per_point: DEFAULT_PIXELS_PER_POINT,
            time: 0,
        }
    }
}

} // verus!
