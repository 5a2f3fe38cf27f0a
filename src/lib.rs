//! Simulation core of a two-player ball-and-paddle game: entities, per-tick
//! systems and the event bus that connects them.
//!
//! Lengths are in micro-units (a millionth of a play-area unit) and times are
//! in microseconds, so a velocity in micro-units per microsecond equals the
//! same number of play-area units per second.
mod event;
mod pong;
mod audio;
mod ball;
mod bounce;
mod game;
mod input;
mod laws;
mod motion;
mod paddle;
mod velocity;
mod winner;

pub use event::{EventChannel, ReaderId};
pub use pong::{
    abs, clamp, fresh_ball, Ball, Paddle, PongEvent, ScoreBoard, Side, Transform, Velocity, AREA_HEIGHT,
    AREA_WIDTH, AXIS_SCALE, BALL_RADIUS, BALL_VELOCITY_X, BALL_VELOCITY_Y, BOUNCE_COOLDOWN,
    BOUNCE_SPEEDUP, MAX_DELTA, MAX_SCORE, PADDLE_HEIGHT, PADDLE_SPEED, PADDLE_WIDTH,
    RESPAWN_DELAY, VELOCITY_LIMIT,
};
pub use audio::{AudioSystem, AudioSystemDesc, SoundEvent};
pub use bounce::{
    any_overlap, bounce_ball, bounce_events, bounce_prefix, bounce_sounds, decremented, in_rect,
    overlaps, point_in_rect, wall_bounced, BounceSystem,
};
pub use velocity::{
    all_room, all_wf, apply_event, apply_events, direction, escalated, get_ball_directions, reset_speed,
    speed_room, VelocitySystem, VelocitySystemDesc,
};
pub use winner::{
    add_point, score_ball, score_balls, score_events, score_sounds, scores_left, scores_right,
    WinnerSystem,
};
pub use ball::{countdown, BallSystem, BallSystemDesc};
pub use input::InputSystem;
pub use motion::{advanced, can_advance, MoveBallsSystem};
pub use paddle::{axis_for, axis_ok, moved_paddle, PaddleSystem};
pub use laws::{
    lemma_cooldown_outlasts_short_tick, lemma_cooldown_suppresses_bounce, lemma_escalation_grows,
    lemma_left_exit_scores_once, lemma_one_bounce_per_tick, lemma_paddle_stays_in_bounds,
    lemma_scores_monotone,
};
pub use game::Pong;
