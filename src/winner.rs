use vstd::prelude::*;
use crate::audio::SoundEvent;
use crate::event::EventChannel;
use crate::pong::{Ball, PongEvent, ScoreBoard, AREA_WIDTH, MAX_SCORE};

verus! {

/// The ball has reached the left edge: the right player scores.
pub open spec fn scores_right(b: Ball) -> bool {
    b.transform.x <= b.radius
}

/// The ball has reached the right edge: the left player scores.
pub open spec fn scores_left(b: Ball) -> bool {
    !scores_right(b) && b.transform.x >= AREA_WIDTH - b.radius
}

/// A score counter after one point, capped at `MAX_SCORE`.
pub open spec fn add_point(s: u32) -> u32 {
    if s + 1 > MAX_SCORE { MAX_SCORE } else { (s + 1) as u32 }
}

/// The scoreboard after one ball is checked.
pub open spec fn score_ball(s: ScoreBoard, b: Ball) -> ScoreBoard {
    if scores_right(b) {
        ScoreBoard { score_right: add_point(s.score_right), ..s }
    } else if scores_left(b) {
        ScoreBoard { score_left: add_point(s.score_left), ..s }
    } else {
        s
    }
}

/// The scoreboard after the balls are checked in turn, and how many of them scored.
pub open spec fn score_balls(s: ScoreBoard, balls: Seq<Ball>) -> (ScoreBoard, nat)
    decreases balls.len(),
{
    if balls.len() == 0 {
        (s, 0)
    } else {
        let (s1, n) = score_balls(s, balls.drop_last());
        let b = balls.last();
        (score_ball(s1, b), if scores_right(b) || scores_left(b) { n + 1 } else { n })
    }
}

pub open spec fn score_sounds(n: nat) -> Seq<SoundEvent> {
    Seq::new(n, |_i: int| SoundEvent::Score)
}

pub open spec fn score_events(n: nat) -> Seq<PongEvent> {
    Seq::new(n, |_i: int| PongEvent::Score)
}

/// Awards a point for each ball that has left the area sideways.
#[derive(Clone, Copy, Debug, Default)]
pub struct WinnerSystem;

impl WinnerSystem {
    /// Checks each ball in turn: one at or past the left edge (`x <= radius`)
    /// gives the right player a point, one at or past the right edge gives the
    /// left player a point, counters capped at `MAX_SCORE`; each point
    /// publishes a sound and a game score event. Removing the ball is left to
    /// the ball lifecycle.
    pub fn run(
        &self,
        balls: &Vec<Ball>,
        scores: &mut ScoreBoard,
        sounds: &mut EventChannel<SoundEvent>,
        events: &mut EventChannel<PongEvent>,
    )
        requires
            old(scores).wf(),
            forall|i: int| 0 <= i < balls.len() ==> #[trigger] balls[i].wf(),
        ensures
            ({
                let (s, n) = score_balls(*old(scores), balls@);
                &&& *final(scores) == s
                &&& final(sounds).events() == old(sounds).events() + score_sounds(n)
                &&& final(events).events() == old(events).events() + score_events(n)
            }),
            final(scores).wf(),
    {
        let ghost s0 = *scores;
        let ghost sounds0 = sounds.events();
        let ghost events0 = events.events();
        let mut i: usize = 0;
        while i < balls.len()
            invariant
                0 <= i <= balls.len(),
                scores.wf(),
                forall|j: int| 0 <= j < balls.len() ==> #[trigger] balls[j].wf(),
                ({
                    let (s, n) = score_balls(s0, balls@.take(i as int));
                    &&& *scores == s
                    &&& sounds.events() == sounds0 + score_sounds(n)
                    &&& events.events() == events0 + score_events(n)
                }),
            decreases balls.len() - i,
        {
            let b = &balls[i];
            assert(b.wf());
            let ghost prev = score_balls(s0, balls@.take(i as int));
            assert(balls@.take(i + 1).drop_last() =~= balls@.take(i as int));
            let hit = if b.transform.x <= b.radius {
                scores.score_right = if scores.score_right + 1 > MAX_SCORE {
                    MAX_SCORE
                } else {
                    scores.score_right + 1
                };
                true
            } else if b.transform.x >= AREA_WIDTH - b.radius {
                scores.score_left = if scores.score_left + 1 > MAX_SCORE {
                    MAX_SCORE
                } else {
                    scores.score_left + 1
                };
                true
            } else {
                false
            };
            if hit {
                sounds.single_write(SoundEvent::Score);
                events.single_write(PongEvent::Score);
            }
            proof {
                let next = score_balls(s0, balls@.take(i + 1));
                assert(score_sounds(next.1) =~= if hit {
                    score_sounds(prev.1).push(SoundEvent::Score)
                } else {
                    score_sounds(prev.1)
                });
                assert(score_events(next.1) =~= if hit {
                    score_events(prev.1).push(PongEvent::Score)
                } else {
                    score_events(prev.1)
                });
            }
            i = i + 1;
        }
        assert(balls@.take(balls.len() as int) =~= balls@);
    }
}

} // verus!
