use vstd::prelude::*;
use crate::event::{EventChannel, ReaderId};
use crate::pong::{fresh_ball, Ball, PongEvent, MAX_DELTA, RESPAWN_DELAY};

verus! {

/// The timer after `delta` microseconds: spawn when it has run out.
pub open spec fn countdown(timer: Option<i64>, delta: int) -> (Option<i64>, bool) {
    match timer {
        None => (None, false),
        Some(t) => if t - delta <= 0 {
            (None, true)
        } else {
            (Some((t - delta) as i64), false)
        },
    }
}

/// Builds a `BallSystem` subscribed to a game-event channel.
#[derive(Clone, Copy, Debug, Default)]
pub struct BallSystemDesc;

impl BallSystemDesc {
    /// The first ball follows the same delayed spawn as every later one.
    pub fn build(self, channel: &EventChannel<PongEvent>) -> (s: BallSystem)
        ensures
            s.wf(),
            s.reader_id.position() == channel.events().len(),
            s.ball_spawn_timer == Some(RESPAWN_DELAY),
            s.next_id == 0,
    {
        BallSystem {
            reader_id: channel.register_reader(),
            ball_spawn_timer: Some(RESPAWN_DELAY),
            next_id: 0,
        }
    }
}

/// Removes the ball after a score and spawns a fresh one after a delay.
pub struct BallSystem {
    pub reader_id: ReaderId,
    /// Time left before the next ball appears, in microseconds, if one is due.
    pub ball_spawn_timer: Option<i64>,
    /// Tag of the next ball to spawn.
    pub next_id: u64,
}

impl BallSystem {
    pub open spec fn wf(&self) -> bool {
        match self.ball_spawn_timer {
            None => true,
            Some(t) => 0 < t <= RESPAWN_DELAY,
        }
    }

    /// Runs one tick of `delta` microseconds. If a score was published since
    /// the last run, every ball is removed and the countdown restarts at
    /// `RESPAWN_DELAY`. Then a running countdown is decremented; once it
    /// reaches zero a fresh ball is spawned and the countdown stops.
    pub fn run(&mut self, channel: &EventChannel<PongEvent>, balls: &mut Vec<Ball>, delta: i64)
        requires
            old(self).wf(),
            old(self).reader_id.position() <= channel.events().len(),
            old(self).next_id < u64::MAX,
            0 <= delta <= MAX_DELTA,
        ensures
            ({
                let scored = channel.unread(old(self).reader_id).contains(PongEvent::Score);
                let kept = if scored { Seq::<Ball>::empty() } else { old(balls)@ };
                let timer = if scored { Some(RESPAWN_DELAY) } else { old(self).ball_spawn_timer };
                let (t, spawn) = countdown(timer, delta as int);
                &&& final(self).ball_spawn_timer == t
                &&& final(balls)@ == if spawn { kept.push(fresh_ball(old(self).next_id)) } else { kept }
                &&& final(self).next_id == if spawn { old(self).next_id + 1 } else { old(self).next_id as int }
            }),
            final(self).wf(),
            final(self).reader_id.position() == channel.events().len(),
    {
        let ghost unread = channel.unread(self.reader_id);
        let evs = channel.read(&mut self.reader_id);
        let mut scored = false;
        let mut i: usize = 0;
        while i < evs.len()
            invariant
                0 <= i <= evs@.len(),
                evs@ == unread,
                scored == (exists|j: int| 0 <= j < i && evs@[j] == PongEvent::Score),
            decreases evs@.len() - i,
        {
            if let PongEvent::Score = evs[i] {
                scored = true;
            }
            i = i + 1;
        }
        proof {
            if unread.contains(PongEvent::Score) {
                let j = choose|j: int| 0 <= j < unread.len() && unread[j] == PongEvent::Score;
                assert(evs@[j] == PongEvent::Score);
            }
        }
        if scored {
            balls.clear();
            self.ball_spawn_timer = Some(RESPAWN_DELAY);
        }
        if let Some(timer) = self.ball_spawn_timer {
            let left = timer - delta;
            if left <= 0 {
                balls.push(Ball::new(self.next_id));
                self.next_id = self.next_id + 1;
                self.ball_spawn_timer = None;
            } else {
                self.ball_spawn_timer = Some(left);
            }
        }
    }
}

} // verus!
