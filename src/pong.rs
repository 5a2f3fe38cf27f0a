use vstd::prelude::*;

verus! {

/// Width of the play area, in micro-units.
pub const AREA_WIDTH: i64 = 100_000_000;
/// Height of the play area, in micro-units.
pub const AREA_HEIGHT: i64 = 100_000_000;

pub const PADDLE_HEIGHT: i64 = 16_000_000;
pub const PADDLE_WIDTH: i64 = 4_000_000;

/// Base ball velocity, in micro-units per microsecond (play-area units per second).
pub const BALL_VELOCITY_X: i64 = 75;
pub const BALL_VELOCITY_Y: i64 = 50;
pub const BALL_RADIUS: i64 = 2_000_000;

/// Largest velocity component magnitude a ball may have.
pub const VELOCITY_LIMIT: i64 = 1_000_000_000;
/// Largest delta-time of one tick, in microseconds.
pub const MAX_DELTA: i64 = 1_000_000_000;

/// Cool-down after a paddle bounce, in microseconds.
pub const BOUNCE_COOLDOWN: i64 = 500_000;
/// Speed added to each velocity component on a paddle bounce.
pub const BOUNCE_SPEEDUP: i64 = 5;
/// Delay before a ball (re)appears, in microseconds.
pub const RESPAWN_DELAY: i64 = 1_000_000;
pub const MAX_SCORE: u32 = 999;

/// A full paddle input axis value (the axis runs from -AXIS_SCALE to AXIS_SCALE).
pub const AXIS_SCALE: i64 = 1000;
/// Paddle displacement per axis step: 1.2 units at full deflection.
pub const PADDLE_SPEED: i64 = 1200;

/// Position of an entity, in micro-units.
#[derive(Clone, Copy, PartialEq, Eq, Debug, Structural)]
pub struct Transform {
    pub x: i64,
    pub y: i64,
}

#[derive(Clone, Copy, PartialEq, Eq, Debug, Structural)]
pub struct Velocity {
    pub x: i64,
    pub y: i64,
}

#[derive(Clone, Copy, PartialEq, Eq, Debug, Structural)]
pub enum Side {
    Left,
    Right,
}

/// A paddle together with its position.
#[derive(Clone, Copy, PartialEq, Eq, Debug, Structural)]
pub struct Paddle {
    pub side: Side,
    pub width: i64,
    pub height: i64,
    pub transform: Transform,
}

/// A ball together with its position.
#[derive(Clone, Copy, PartialEq, Eq, Debug, Structural)]
pub struct Ball {
    /// Tag that bounce events carry to name the ball that bounced.
    pub id: u64,
    pub radius: i64,
    pub velocity: Velocity,
    /// Base velocity, whose magnitudes a score restores.
    pub original_velocity: Velocity,
    pub transform: Transform,
}

#[derive(Clone, Copy, PartialEq, Eq, Debug, Structural)]
pub struct ScoreBoard {
    pub score_left: u32,
    pub score_right: u32,
}

/// Game events: a paddle bounce of the ball with the given tag, or a score.
#[derive(Clone, Copy, PartialEq, Eq, Debug, Structural)]
pub enum PongEvent {
    Bounce(u64),
    Score,
}

pub open spec fn abs(v: int) -> int {
    if v < 0 { -v } else { v }
}

/// The value clamped to `[lo, hi]`.
pub open spec fn clamp(v: int, lo: int, hi: int) -> int {
    if v < lo { lo } else if v > hi { hi } else { v }
}

impl Paddle {
    /// The paddle fits vertically in the play area.
    pub open spec fn wf(&self) -> bool {
        &&& 0 < self.height <= AREA_HEIGHT
        &&& 0 <= self.width <= AREA_WIDTH
        &&& 0 <= self.transform.x <= AREA_WIDTH
        &&& self.in_bounds()
    }

    pub open spec fn in_bounds(&self) -> bool {
        &&& 0 <= self.transform.y - self.height / 2
        &&& self.transform.y + self.height / 2 <= AREA_HEIGHT
    }

    /// A paddle of the configured size, centred vertically at its side's edge.
    pub open spec fn spec_new(side: Side) -> Paddle {
        Paddle {
            side,
            width: PADDLE_WIDTH,
            height: PADDLE_HEIGHT,
            transform: Transform {
                x: match side {
                    Side::Left => (PADDLE_WIDTH / 2) as i64,
                    Side::Right => (AREA_WIDTH - PADDLE_WIDTH / 2) as i64,
                },
                y: (AREA_HEIGHT / 2) as i64,
            },
        }
    }

    pub fn new(side: Side) -> (p: Paddle)
        ensures
            p.wf(),
            p == Paddle::spec_new(side),
    {
        let x = match side {
            Side::Left => PADDLE_WIDTH / 2,
            Side::Right => AREA_WIDTH - PADDLE_WIDTH / 2,
        };
        Paddle {
            side,
            width: PADDLE_WIDTH,
            height: PADDLE_HEIGHT,
            transform: Transform { x, y: AREA_HEIGHT / 2 },
        }
    }
}

/// A fresh ball with the given tag at the centre of the area, moving at the
/// base velocity.
pub open spec fn fresh_ball(id: u64) -> Ball {
    Ball {
        id,
        radius: BALL_RADIUS,
        velocity: Velocity { x: BALL_VELOCITY_X, y: BALL_VELOCITY_Y },
        original_velocity: Velocity { x: BALL_VELOCITY_X, y: BALL_VELOCITY_Y },
        transform: Transform { x: (AREA_WIDTH / 2) as i64, y: (AREA_HEIGHT / 2) as i64 },
    }
}

impl Ball {
    /// Velocities are within the limit and the ball sits inside the area.
    pub open spec fn wf(&self) -> bool {
        &&& 0 <= self.radius <= AREA_HEIGHT
        &&& abs(self.velocity.x as int) <= VELOCITY_LIMIT
        &&& abs(self.velocity.y as int) <= VELOCITY_LIMIT
        &&& abs(self.original_velocity.x as int) <= VELOCITY_LIMIT
        &&& abs(self.original_velocity.y as int) <= VELOCITY_LIMIT
    }

    /// A fresh ball at the centre of the area with the base velocity.
    pub fn new(id: u64) -> (b: Ball)
        ensures
            b.wf(),
            b == fresh_ball(id),
            b.id == id,
            b.radius == BALL_RADIUS,
            b.velocity == (Velocity { x: BALL_VELOCITY_X, y: BALL_VELOCITY_Y }),
            b.original_velocity == b.velocity,
            b.transform.x == AREA_WIDTH / 2,
            b.transform.y == AREA_HEIGHT / 2,
    {
        let v = Velocity { x: BALL_VELOCITY_X, y: BALL_VELOCITY_Y };
        Ball {
            id,
            radius: BALL_RADIUS,
            velocity: v,
            original_velocity: v,
            transform: Transform { x: AREA_WIDTH / 2, y: AREA_HEIGHT / 2 },
        }
    }
}

impl ScoreBoard {
    pub open spec fn wf(&self) -> bool {
        self.score_left <= MAX_SCORE && self.score_right <= MAX_SCORE
    }

    pub fn new() -> (s: ScoreBoard)
        ensures
            s.score_left == 0,
            s.score_right == 0,
    {
        ScoreBoard { score_left: 0, score_right: 0 }
    }
}

} // verus!
