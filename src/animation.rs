use vstd::prelude::*;

verus! {

/// Number of micro-units in one unit (microseconds per second, microdegrees
/// per degree, microradians per radian).
pub const MICROS_PER_UNIT: u64 = 1_000_000;

/// Angular speed of the square: two radians per second, which is two
/// microradians per microsecond.
pub const ROTATION_RATE: u64 = 2;

/// Speed of the hue round the colour wheel: thirty degrees per second, which
/// is thirty microdegrees per microsecond.
pub const HUE_RATE: u64 = 30;

/// One full turn of the colour wheel (360 degrees), in microdegrees.
pub const FULL_TURN: u64 = 360_000_000;

/// Half a turn of the colour wheel (180 degrees), in microdegrees.
pub const HALF_TURN: u64 = 180_000_000;

/// The rotation after `dt` microseconds, starting from `rotation`.
pub open spec fn rotation_after(rotation: int, dt: int) -> int {
    rotation + ROTATION_RATE * dt
}

/// The hue after `dt` microseconds, starting from `hue`: the increment is
/// reduced to less than a full turn, the accumulated hue is not.
pub open spec fn hue_after(hue: int, dt: int) -> int {
    hue + (HUE_RATE * dt) % (FULL_TURN as int)
}

/// The point of the colour wheel that a hue stands for, in `[0, FULL_TURN)`.
pub open spec fn wheel_position(hue: int) -> int {
    hue % (FULL_TURN as int)
}

/// The point of the colour wheel opposite to the one `hue` stands for.
pub open spec fn complement_position(hue: int) -> int {
    (hue + HALF_TURN) % (FULL_TURN as int)
}

/// The state of the animation: how far the square has turned and where its
/// colour stands on the colour wheel.
pub struct App {
    /// Rotation of the square, in microradians; never wrapped.
    pub rotation: u64,
    /// Hue of the square, in microdegrees; accumulated without wrapping.
    pub hue: u64,
}

impl App {
    /// Whether advancing by `dt` microseconds keeps every quantity within `u64`.
    pub open spec fn can_advance_by(self, dt: int) -> bool {
        &&& HUE_RATE * dt <= u64::MAX
        &&& rotation_after(self.rotation as int, dt) <= u64::MAX
        &&& hue_after(self.hue as int, dt) <= u64::MAX
    }

    /// The state at start-up: no rotation, hue zero (red).
    pub fn new() -> (app: App)
        ensures
            app.rotation == 0,
            app.hue == 0,
    {
        App { rotation: 0, hue: 0 }
    }

    /// Tells whether `update(dt)` may be called on this state.
    pub fn can_update(&self, dt: u64) -> (r: bool)
        ensures
            r == self.can_advance_by(dt as int),
    {
        if dt > u64::MAX / HUE_RATE {
            return false;
        }
        let turn: u64 = HUE_RATE * dt;
        let rot: u64 = ROTATION_RATE * dt;
        rot <= u64::MAX - self.rotation && turn % FULL_TURN <= u64::MAX - self.hue
    }

    /// Advances the animation by `dt` microseconds: the rotation grows by
    /// `ROTATION_RATE * dt`, the hue by `(HUE_RATE * dt) % FULL_TURN`.
    pub fn update(&mut self, dt: u64)
        requires
            old(self).can_advance_by(dt as int),
        ensures
            final(self).rotation == rotation_after(old(self).rotation as int, dt as int),
            final(self).hue == hue_after(old(self).hue as int, dt as int),
    {
        self.rotation = self.rotation + ROTATION_RATE * dt;
        self.hue = self.hue + (HUE_RATE * dt) % FULL_TURN;
    }

    /// The hue of the square, reduced to one turn of the colour wheel.
    pub fn foreground_hue(&self) -> (h: u64)
        ensures
            h == wheel_position(self.hue as int),
            h < FULL_TURN,
    {
        self.hue % FULL_TURN
    }

    /// The hue of the background: the point of the colour wheel opposite to
    /// the square's.
    pub fn background_hue(&self) -> (h: u64)
        ensures
            h == complement_position(self.hue as int),
            h < FULL_TURN,
    {
        (self.hue % FULL_TURN + HALF_TURN) % FULL_TURN
    }
}

} // verus!

verus! {

/// Advancing by no time leaves both the rotation and the hue as they were.
pub proof fn lemma_update_by_zero(app: App)
    ensures
        rotation_after(app.rotation as int, 0) == app.rotation,
        hue_after(app.hue as int, 0) == app.hue,
{
}

/// The background hue is the point of the colour wheel opposite to the
/// square's: half a turn further on, and never the same point.
pub proof fn lemma_background_opposite(app: App)
    ensures
        complement_position(app.hue as int)
            == (wheel_position(app.hue as int) + HALF_TURN) % (FULL_TURN as int),
        complement_position(app.hue as int) != wheel_position(app.hue as int),
        complement_position(app.hue as int) - wheel_position(app.hue as int) == HALF_TURN
            || wheel_position(app.hue as int) - complement_position(app.hue as int) == HALF_TURN,
{
}

/// The colours chosen depend on the hue only up to whole turns of the colour
/// wheel: two states whose hues differ by whole turns pick the same square
/// and background hues.
pub proof fn lemma_hue_whole_turns(a: App, b: App)
    requires
        a.hue % FULL_TURN == b.hue % FULL_TURN,
    ensures
        wheel_position(a.hue as int) == wheel_position(b.hue as int),
        complement_position(a.hue as int) == complement_position(b.hue as int),
{
}

} // verus!
