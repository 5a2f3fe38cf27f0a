use vstd::prelude::*;
use crate::ball::countdown;
use crate::bounce::{bounce_ball, bounce_prefix, decremented};
use crate::paddle::{axis_ok, moved_paddle};
use crate::pong::{abs, Ball, Paddle, PongEvent, ScoreBoard, BOUNCE_COOLDOWN, BOUNCE_SPEEDUP, MAX_DELTA, RESPAWN_DELAY};
use crate::velocity::{escalated, reset_speed, speed_room};
use crate::winner::{add_point, score_balls, score_events, scores_right};

verus! {

/// A paddle inside the play area stays inside it whatever the input: its
/// top and bottom edges remain within `[0, AREA_HEIGHT]`.
pub proof fn lemma_paddle_stays_in_bounds(p: Paddle, axis: Option<i64>)
    requires
        p.wf(),
        axis_ok(axis),
    ensures
        moved_paddle(p, axis).wf(),
        moved_paddle(p, axis).in_bounds(),
{
}

/// One collision step makes at most one paddle bounce, over all balls.
pub proof fn lemma_one_bounce_per_tick(balls: Seq<Ball>, paddles: Seq<Paddle>, cooldown: int)
    ensures
        bounce_prefix(balls, paddles, cooldown, balls.len()).2.len() <= 1,
{
    lemma_bounces_bounded(balls, paddles, cooldown, balls.len());
}

proof fn lemma_bounces_bounded(balls: Seq<Ball>, paddles: Seq<Paddle>, cooldown: int, n: nat)
    ensures
        ({
            let (bs, c, ids) = bounce_prefix(balls, paddles, cooldown, n);
            &&& ids.len() <= 1
            &&& ids.len() == 1 ==> c == BOUNCE_COOLDOWN
            &&& ids.len() == 0 ==> c == cooldown
        }),
    decreases n,
{
    if n > 0 && n <= balls.len() {
        lemma_bounces_bounded(balls, paddles, cooldown, (n - 1) as nat);
    }
}

/// While the cool-down is running no ball bounces off a paddle: no bounce is
/// reported, every x-velocity is kept and the cool-down is left as it was.
/// Together with the restart of the cool-down on each bounce, the x-velocity
/// flips once per cool-down window however long the ball overlaps a paddle.
pub proof fn lemma_cooldown_suppresses_bounce(balls: Seq<Ball>, paddles: Seq<Paddle>, cooldown: int, n: nat)
    requires
        cooldown > 0,
        n <= balls.len(),
    ensures
        ({
            let (bs, c, ids) = bounce_prefix(balls, paddles, cooldown, n);
            &&& ids.len() == 0
            &&& c == cooldown
            &&& bs.len() == n
            &&& forall|i: int| 0 <= i < n ==> (#[trigger] bs[i]).velocity.x == balls[i].velocity.x
        }),
    decreases n,
{
    if n > 0 {
        lemma_cooldown_suppresses_bounce(balls, paddles, cooldown, (n - 1) as nat);
        let (bs, c, ids) = bounce_prefix(balls, paddles, cooldown, (n - 1) as nat);
        let (b, hit) = bounce_ball(balls[n - 1], paddles, c);
        assert(!hit);
        let (bs2, c2, ids2) = bounce_prefix(balls, paddles, cooldown, n);
        assert(bs2 == bs.push(b));
        assert forall|i: int| 0 <= i < n implies (#[trigger] bs2[i]).velocity.x == balls[i].velocity.x by {
            if i < n - 1 {
                assert(bs2[i] == bs[i]);
            }
        }
    }
}

/// A tick shorter than the cool-down that follows a bounce leaves the
/// cool-down running.
pub proof fn lemma_cooldown_outlasts_short_tick(delta: int)
    requires
        0 <= delta < BOUNCE_COOLDOWN,
    ensures
        decremented(BOUNCE_COOLDOWN as int, delta) > 0,
{
}

/// A bounce grows each velocity component's magnitude by `BOUNCE_SPEEDUP`,
/// keeping its direction; a score brings the magnitudes back to the base
/// velocity's.
pub proof fn lemma_escalation_grows(b: Ball)
    requires
        speed_room(b, 1),
    ensures
        abs(escalated(b).velocity.x as int) == abs(b.velocity.x as int) + BOUNCE_SPEEDUP,
        abs(escalated(b).velocity.y as int) == abs(b.velocity.y as int) + BOUNCE_SPEEDUP,
        abs(escalated(b).velocity.x as int) > abs(b.velocity.x as int),
        abs(escalated(b).velocity.y as int) > abs(b.velocity.y as int),
        abs(reset_speed(b).velocity.x as int) == abs(b.original_velocity.x as int),
        abs(reset_speed(b).velocity.y as int) == abs(b.original_velocity.y as int),
{
    let ox = b.original_velocity.x as int;
    let oy = b.original_velocity.y as int;
    if b.velocity.x > 0 {
        assert(ox * 1 == ox);
    } else {
        assert(ox * -1 == -ox);
    }
    if b.velocity.y > 0 {
        assert(oy * 1 == oy);
    } else {
        assert(oy * -1 == -oy);
    }
}

/// Scoring never lowers a counter and never takes one past `MAX_SCORE`.
pub proof fn lemma_scores_monotone(s: ScoreBoard, balls: Seq<Ball>)
    requires
        s.wf(),
    ensures
        score_balls(s, balls).0.wf(),
        score_balls(s, balls).0.score_left >= s.score_left,
        score_balls(s, balls).0.score_right >= s.score_right,
    decreases balls.len(),
{
    if balls.len() > 0 {
        lemma_scores_monotone(s, balls.drop_last());
    }
}

/// A lone ball past the left edge gives the right player exactly one point
/// and publishes exactly one score event; that event makes the ball
/// lifecycle remove the ball and start one respawn countdown, which a tick
/// shorter than the delay leaves running.
pub proof fn lemma_left_exit_scores_once(s: ScoreBoard, b: Ball, delta: int)
    requires
        s.wf(),
        b.wf(),
        b.transform.x <= 0,
        0 <= delta < RESPAWN_DELAY,
    ensures
        scores_right(b),
        score_balls(s, seq![b]) == (ScoreBoard { score_right: add_point(s.score_right), ..s }, 1nat),
        score_events(1) == seq![PongEvent::Score],
        score_events(1).contains(PongEvent::Score),
        countdown(Some(RESPAWN_DELAY), delta) == (Some((RESPAWN_DELAY - delta) as i64), false),
{
    assert(seq![b].drop_last() =~= Seq::<Ball>::empty());
    assert(score_balls(s, Seq::<Ball>::empty()) == (s, 0nat));
    assert(seq![b].last() == b);
    assert(score_events(1) =~= seq![PongEvent::Score]);
    assert(score_events(1)[0] == PongEvent::Score);
}

} // verus!
