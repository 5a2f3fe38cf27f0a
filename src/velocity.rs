use vstd::prelude::*;
use crate::event::{EventChannel, ReaderId};
use crate::pong::{abs, Ball, PongEvent, Velocity, BOUNCE_SPEEDUP, VELOCITY_LIMIT};

verus! {

/// The sign of a velocity component, with zero counted as negative.
pub open spec fn direction(v: int) -> int {
    if v > 0 { 1 } else { -1 }
}

/// The ball sped up by `BOUNCE_SPEEDUP` on each axis, keeping its direction.
pub open spec fn escalated(b: Ball) -> Ball {
    Ball {
        velocity: Velocity {
            x: (b.velocity.x + BOUNCE_SPEEDUP * direction(b.velocity.x as int)) as i64,
            y: (b.velocity.y + BOUNCE_SPEEDUP * direction(b.velocity.y as int)) as i64,
        },
        ..b
    }
}

/// The ball back at its base speed, keeping its current direction.
pub open spec fn reset_speed(b: Ball) -> Ball {
    Ball {
        velocity: Velocity {
            x: (b.original_velocity.x * direction(b.velocity.x as int)) as i64,
            y: (b.original_velocity.y * direction(b.velocity.y as int)) as i64,
        },
        ..b
    }
}

pub open spec fn apply_event(balls: Seq<Ball>, e: PongEvent) -> Seq<Ball> {
    match e {
        PongEvent::Bounce(id) => balls.map_values(
            |b: Ball|
                if b.id == id {
                    escalated(b)
                } else {
                    b
                },
        ),
        PongEvent::Score => balls.map_values(|b: Ball| reset_speed(b)),
    }
}

/// The balls after reacting to each of `evs` in order.
pub open spec fn apply_events(balls: Seq<Ball>, evs: Seq<PongEvent>) -> Seq<Ball>
    decreases evs.len(),
{
    if evs.len() == 0 {
        balls
    } else {
        apply_event(apply_events(balls, evs.drop_last()), evs.last())
    }
}

/// Every velocity component of the ball, current and base, stays within the
/// limit after `n` more speed-ups.
pub open spec fn speed_room(b: Ball, n: int) -> bool {
    &&& abs(b.velocity.x as int) + BOUNCE_SPEEDUP * n <= VELOCITY_LIMIT
    &&& abs(b.velocity.y as int) + BOUNCE_SPEEDUP * n <= VELOCITY_LIMIT
    &&& abs(b.original_velocity.x as int) + BOUNCE_SPEEDUP * n <= VELOCITY_LIMIT
    &&& abs(b.original_velocity.y as int) + BOUNCE_SPEEDUP * n <= VELOCITY_LIMIT
}

pub open spec fn all_room(balls: Seq<Ball>, n: int) -> bool {
    forall|i: int| 0 <= i < balls.len() ==> #[trigger] speed_room(balls[i], n)
}

pub open spec fn all_wf(balls: Seq<Ball>) -> bool {
    forall|i: int| 0 <= i < balls.len() ==> #[trigger] balls[i].wf()
}

/// The direction of each velocity component of `ball`.
pub fn get_ball_directions(ball: &Ball) -> (r: (i64, i64))
    ensures
        r.0 == direction(ball.velocity.x as int),
        r.1 == direction(ball.velocity.y as int),
{
    let x_direction: i64 = if ball.velocity.x > 0 { 1 } else { -1 };
    let y_direction: i64 = if ball.velocity.y > 0 { 1 } else { -1 };
    (x_direction, y_direction)
}

/// Builds a `VelocitySystem` subscribed to a game-event channel.
#[derive(Clone, Copy, Debug, Default)]
pub struct VelocitySystemDesc;

impl VelocitySystemDesc {
    pub fn build(self, channel: &EventChannel<PongEvent>) -> (s: VelocitySystem)
        ensures
            s.reader_id.position() == channel.events().len(),
    {
        VelocitySystem { reader_id: channel.register_reader() }
    }
}

/// Speeds a ball up on its bounces and restores base speed on a score.
pub struct VelocitySystem {
    pub reader_id: ReaderId,
}

proof fn lemma_event_keeps_room(balls: Seq<Ball>, e: PongEvent, n: int)
    requires
        n >= 1,
        all_room(balls, n),
        all_wf(balls),
    ensures
        all_wf(apply_event(balls, e)),
        all_room(balls, 1),
        all_room(apply_event(balls, e), n - 1),
        apply_event(balls, e).len() == balls.len(),
{
    let r = apply_event(balls, e);
    assert forall|i: int| 0 <= i < r.len() implies #[trigger] speed_room(r[i], n - 1) by {
        assert(speed_room(balls[i], n));
    }
    assert forall|i: int| 0 <= i < r.len() implies #[trigger] r[i].wf() by {
        let b = balls[i];
        assert(speed_room(b, n));
        assert(b.wf());
        let ox = b.original_velocity.x as int;
        let oy = b.original_velocity.y as int;
        assert(ox * 1 == ox && ox * -1 == -ox);
        assert(oy * 1 == oy && oy * -1 == -oy);
    }
    assert forall|i: int| 0 <= i < balls.len() implies #[trigger] speed_room(balls[i], 1) by {
        assert(speed_room(balls[i], n));
    }
}

impl VelocitySystem {
    /// Applies one game event to the balls.
    pub fn handle_event(balls: &mut Vec<Ball>, e: PongEvent)
        requires
            all_room(old(balls)@, 1),
        ensures
            final(balls)@ == apply_event(old(balls)@, e),
    {
        let ghost balls0 = balls@;
        let n = balls.len();
        let mut i: usize = 0;
        while i < n
            invariant
                n == balls@.len() == balls0.len(),
                0 <= i <= n,
                all_room(balls0, 1),
                forall|j: int| i <= j < n ==> balls@[j] == balls0[j],
                forall|j: int| 0 <= j < i ==> balls@[j] == #[trigger] apply_event(balls0, e)[j],
            decreases n - i,
        {
            let mut b = balls[i];
            assert(speed_room(balls0[i as int], 1));
            let (x_direction, y_direction) = get_ball_directions(&b);
            match e {
                PongEvent::Bounce(ball_id) => {
                    if b.id == ball_id {
                        b.velocity.x = b.velocity.x + BOUNCE_SPEEDUP * x_direction;
                        b.velocity.y = b.velocity.y + BOUNCE_SPEEDUP * y_direction;
                    }
                },
                PongEvent::Score => {
                    b.velocity.x = b.original_velocity.x * x_direction;
                    b.velocity.y = b.original_velocity.y * y_direction;
                },
            }
            balls.set(i, b);
            i = i + 1;
        }
        assert(balls@ =~= apply_event(balls0, e));
    }

    /// Reacts to every game event published since the last run, in publish
    /// order: a bounce speeds up the ball with that tag, a score restores every
    /// ball's base speed in its current direction.
    pub fn run(&mut self, channel: &EventChannel<PongEvent>, balls: &mut Vec<Ball>)
        requires
            old(self).reader_id.position() <= channel.events().len(),
            all_room(old(balls)@, channel.unread(old(self).reader_id).len() as int),
            all_wf(old(balls)@),
        ensures
            all_wf(final(balls)@),
            final(balls)@ == apply_events(old(balls)@, channel.unread(old(self).reader_id)),
            final(self).reader_id.position() == channel.events().len(),
    {
        let ghost balls0 = balls@;
        let evs = channel.read(&mut self.reader_id);
        let n = evs.len();
        let mut i: usize = 0;
        while i < n
            invariant
                n == evs@.len(),
                0 <= i <= n,
                all_room(balls@, n - i),
                all_wf(balls@),
                balls@ == apply_events(balls0, evs@.take(i as int)),
            decreases n - i,
        {
            let e = evs[i];
            proof {
                lemma_event_keeps_room(balls@, e, n - i);
                assert(evs@.take(i + 1).drop_last() =~= evs@.take(i as int));
            }
            VelocitySystem::handle_event(balls, e);
            i = i + 1;
        }
        assert(evs@.take(n as int) =~= evs@);
    }
}

} // verus!
