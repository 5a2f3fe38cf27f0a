use vstd::prelude::*;
use crate::audio::{AudioSystem, SoundEvent};
use crate::ball::{countdown, BallSystem};
use crate::bounce::{bounce_ball, bounce_events, bounce_prefix, bounce_sounds, decremented, BounceSystem};
use crate::event::EventChannel;
use crate::laws::lemma_scores_monotone;
use crate::motion::{advanced, can_advance, MoveBallsSystem};
use crate::paddle::{axis_for, axis_ok, moved_paddle, PaddleSystem};
use crate::pong::{
    fresh_ball, Ball, Paddle, PongEvent, ScoreBoard, Side, BOUNCE_SPEEDUP, MAX_DELTA, RESPAWN_DELAY,
    VELOCITY_LIMIT,
};
use crate::velocity::{all_room, all_wf, apply_events, speed_room, VelocitySystem};
use crate::winner::{score_balls, score_events, score_sounds, WinnerSystem};

verus! {

/// A match in progress: the entities, the shared resources and the state of
/// each system.
pub struct Pong {
    pub paddles: Vec<Paddle>,
    pub balls: Vec<Ball>,
    pub scores: ScoreBoard,
    pub sounds: EventChannel<SoundEvent>,
    pub events: EventChannel<PongEvent>,
    pub bounce: BounceSystem,
    pub velocity: VelocitySystem,
    pub ball_system: BallSystem,
    pub audio: AudioSystem,
}

proof fn lemma_bounce_keeps_room(balls: Seq<Ball>, paddles: Seq<Paddle>, cooldown: int, n: nat, k: int)
    requires
        n <= balls.len(),
        all_room(balls, k),
        all_wf(balls),
    ensures
        ({
            let (bs, c, ids) = bounce_prefix(balls, paddles, cooldown, n);
            &&& bs.len() == n
            &&& ids.len() <= n
            &&& forall|i: int| 0 <= i < n ==> #[trigger] speed_room(bs[i], k)
            &&& forall|i: int| 0 <= i < n ==> #[trigger] bs[i].wf()
        }),
    decreases n,
{
    if n > 0 {
        lemma_bounce_keeps_room(balls, paddles, cooldown, (n - 1) as nat, k);
        let (bs, c, ids) = bounce_prefix(balls, paddles, cooldown, (n - 1) as nat);
        let (b, hit) = bounce_ball(balls[n - 1], paddles, c);
        assert(speed_room(balls[n - 1], k));
        assert(balls[n - 1].wf());
        let (bs2, c2, ids2) = bounce_prefix(balls, paddles, cooldown, n);
        assert(bs2 == bs.push(b));
        assert forall|i: int| 0 <= i < n implies #[trigger] speed_room(bs2[i], k) && bs2[i].wf() by {
            if i < n - 1 {
                assert(bs2[i] == bs[i]);
            }
        }
    }
}

proof fn lemma_score_count(s: ScoreBoard, balls: Seq<Ball>)
    ensures
        score_balls(s, balls).1 <= balls.len(),
    decreases balls.len(),
{
    if balls.len() > 0 {
        lemma_score_count(s, balls.drop_last());
    }
}

impl Pong {
    pub open spec fn wf(&self) -> bool {
        &&& forall|k: int| 0 <= k < self.paddles.len() ==> #[trigger] self.paddles[k].wf()
        &&& all_wf(self.balls@)
        &&& self.scores.wf()
        &&& self.bounce.wf()
        &&& self.ball_system.wf()
        &&& self.velocity.reader_id.position() == self.events.events().len()
        &&& self.ball_system.reader_id.position() == self.events.events().len()
        &&& self.audio.reader.position() == self.sounds.events().len()
    }

    /// No number overflows in a tick of `delta` microseconds: every ball can
    /// move that far, has room for the speed-ups the tick may bring, and a
    /// fresh ball can still get a tag of its own.
    pub open spec fn ready(&self, delta: int) -> bool {
        &&& forall|i: int| 0 <= i < self.balls.len() ==> #[trigger] can_advance(self.balls[i], delta)
        &&& all_room(self.balls@, 1 + self.balls.len())
        &&& self.ball_system.next_id < u64::MAX
    }

    /// Whether a tick of `delta` microseconds can run without overflow.
    pub fn is_ready(&self, delta: i64) -> (r: bool)
        requires
            self.wf(),
            0 <= delta <= MAX_DELTA,
        ensures
            r == self.ready(delta as int),
    {
        if self.ball_system.next_id == u64::MAX {
            return false;
        }
        let n = self.balls.len();
        if n >= 200_000_000 {
            assert(!all_room(self.balls@, 1 + self.balls.len())) by {
                if all_room(self.balls@, 1 + self.balls.len()) {
                    assert(speed_room(self.balls@[0], 1 + self.balls.len()));
                }
            }
            return false;
        }
        let room: i64 = VELOCITY_LIMIT - BOUNCE_SPEEDUP * (1 + n as i64);
        let mut i: usize = 0;
        while i < n
            invariant
                n == self.balls.len() < 200_000_000,
                0 <= i <= n,
                0 <= delta <= MAX_DELTA,
                room == VELOCITY_LIMIT - BOUNCE_SPEEDUP * (1 + n),
                all_wf(self.balls@),
                forall|j: int| 0 <= j < i ==> #[trigger] can_advance(self.balls[j], delta as int),
                forall|j: int| 0 <= j < i ==> #[trigger] speed_room(self.balls[j], 1 + n),
            decreases n - i,
        {
            let b = &self.balls[i];
            assert(self.balls@[i as int].wf());
            let vx = b.velocity.x as i128;
            let vy = b.velocity.y as i128;
            let d = delta as i128;
            assert(-1_000_000_000_000_000_000 <= vx * d <= 1_000_000_000_000_000_000) by (nonlinear_arith)
                requires
                    -VELOCITY_LIMIT <= vx <= VELOCITY_LIMIT,
                    0 <= d <= MAX_DELTA,
            ;
            assert(-1_000_000_000_000_000_000 <= vy * d <= 1_000_000_000_000_000_000) by (nonlinear_arith)
                requires
                    -VELOCITY_LIMIT <= vy <= VELOCITY_LIMIT,
                    0 <= d <= MAX_DELTA,
            ;
            let nx = b.transform.x as i128 + vx * d;
            let ny = b.transform.y as i128 + vy * d;
            if nx < i64::MIN as i128 || nx > i64::MAX as i128 || ny < i64::MIN as i128 || ny
                > i64::MAX as i128 {
                assert(!can_advance(self.balls[i as int], delta as int));
                return false;
            }
            let ax = if b.velocity.x < 0 { -b.velocity.x } else { b.velocity.x };
            let ay = if b.velocity.y < 0 { -b.velocity.y } else { b.velocity.y };
            let ox = if b.original_velocity.x < 0 { -b.original_velocity.x } else { b.original_velocity.x };
            let oy = if b.original_velocity.y < 0 { -b.original_velocity.y } else { b.original_velocity.y };
            if ax > room || ay > room || ox > room || oy > room {
                assert(!speed_room(self.balls@[i as int], 1 + n));
                return false;
            }
            i = i + 1;
        }
        true
    }

    /// A match at its start: one paddle on each side, no ball until the first
    /// spawn delay has passed, both scores at zero.
    pub fn on_start() -> (g: Pong)
        ensures
            g.wf(),
            g.paddles@ == seq![Paddle::spec_new(Side::Left), Paddle::spec_new(Side::Right)],
            g.balls@.len() == 0,
            g.scores == (ScoreBoard { score_left: 0, score_right: 0 }),
            g.ball_system.ball_spawn_timer == Some(RESPAWN_DELAY),
    {
        let mut paddles: Vec<Paddle> = Vec::new();
        paddles.push(Paddle::new(Side::Left));
        paddles.push(Paddle::new(Side::Right));
        let sounds: EventChannel<SoundEvent> = EventChannel::new();
        let events: EventChannel<PongEvent> = EventChannel::new();
        let velocity = crate::velocity::VelocitySystemDesc.build(&events);
        let ball_system = crate::ball::BallSystemDesc.build(&events);
        let audio = crate::audio::AudioSystemDesc.build(&sounds);
        Pong {
            paddles,
            balls: Vec::new(),
            scores: ScoreBoard::new(),
            sounds,
            events,
            bounce: BounceSystem::new(),
            velocity,
            ball_system,
            audio,
        }
    }

    /// Runs every system once, in order: paddle control, ball motion,
    /// collisions, scoring, velocity escalation, ball lifecycle, and last the
    /// audio, whose sounds to play are returned.
    pub fn update(&mut self, delta: i64, left_axis: Option<i64>, right_axis: Option<i64>) -> (r: Vec<SoundEvent>)
        requires
            old(self).wf(),
            old(self).ready(delta as int),
            0 <= delta <= MAX_DELTA,
            axis_ok(left_axis),
            axis_ok(right_axis),
        ensures
            final(self).wf(),
            ({
                let paddles = old(self).paddles@.map_values(
                    |p: Paddle| moved_paddle(p, axis_for(p.side, left_axis, right_axis)),
                );
                let moved = old(self).balls@.map_values(|b: Ball| advanced(b, delta as int));
                let cooldown = decremented(old(self).bounce.last_bounce as int, delta as int);
                let (bounced, c, ids) = bounce_prefix(moved, paddles, cooldown, moved.len());
                let (scores, n) = score_balls(old(self).scores, bounced);
                let game_events = bounce_events(ids) + score_events(n);
                let sped = apply_events(bounced, game_events);
                let scored = game_events.contains(PongEvent::Score);
                let kept = if scored { Seq::<Ball>::empty() } else { sped };
                let timer = if scored { Some(RESPAWN_DELAY) } else { old(self).ball_system.ball_spawn_timer };
                let (t, spawn) = countdown(timer, delta as int);
                &&& final(self).paddles@ == paddles
                &&& final(self).bounce.last_bounce == c
                &&& final(self).scores == scores
                &&& final(self).events.events() == old(self).events.events() + game_events
                &&& r@ == bounce_sounds(ids.len()) + score_sounds(n)
                &&& final(self).ball_system.ball_spawn_timer == t
                &&& final(self).balls@ == if spawn {
                    kept.push(fresh_ball(old(self).ball_system.next_id))
                } else {
                    kept
                }
            }),
            final(self).scores.score_left >= old(self).scores.score_left,
            final(self).scores.score_right >= old(self).scores.score_right,
            final(self).sounds.events().len() >= old(self).sounds.events().len(),
            r@ == final(self).sounds.events().subrange(
                old(self).sounds.events().len() as int,
                final(self).sounds.events().len() as int,
            ),
    {
        let ghost k = 1 + self.balls.len();
        PaddleSystem.run(&mut self.paddles, left_axis, right_axis);
        let ghost before_move = self.balls@;
        MoveBallsSystem.run(&mut self.balls, delta);
        assert forall|i: int| 0 <= i < self.balls.len() implies #[trigger] speed_room(self.balls@[i], k) by {
            assert(speed_room(before_move[i], k));
        }
        let ghost before_bounce = self.balls@;
        let ghost c0 = decremented(self.bounce.last_bounce as int, delta as int);
        let ghost events0 = self.events.events();
        self.bounce.run(&mut self.balls, &self.paddles, delta, &mut self.sounds, &mut self.events);
        proof {
            lemma_bounce_keeps_room(before_bounce, self.paddles@, c0, before_bounce.len(), k);
            crate::laws::lemma_one_bounce_per_tick(before_bounce, self.paddles@, c0);
        }
        let ghost ids = bounce_prefix(before_bounce, self.paddles@, c0, before_bounce.len()).2;
        let ghost scores0 = self.scores;
        let ghost before_score = self.balls@;
        WinnerSystem.run(&self.balls, &mut self.scores, &mut self.sounds, &mut self.events);
        proof {
            lemma_scores_monotone(scores0, before_score);
            lemma_score_count(scores0, before_score);
            let unread = self.events.unread(self.velocity.reader_id);
            let n = score_balls(scores0, before_score).1;
            assert(unread =~= bounce_events(ids) + score_events(n));
            assert(self.events.events() =~= events0 + (bounce_events(ids) + score_events(n)));
            assert forall|i: int| 0 <= i < self.balls.len() implies #[trigger] speed_room(self.balls@[i], unread.len() as int) by {
                assert(speed_room(self.balls@[i], k));
            }
        }
        self.velocity.run(&self.events, &mut self.balls);
        let ghost before_spawn = self.balls@;
        self.ball_system.run(&self.events, &mut self.balls, delta);
        proof {
            assert(fresh_ball(0).wf());
            assert forall|i: int| 0 <= i < self.balls.len() implies #[trigger] self.balls@[i].wf() by {
                if i < before_spawn.len() && self.balls@[i] == before_spawn[i] {
                    assert(before_spawn[i].wf());
                }
            }
        }
        let r = self.audio.run(&self.sounds);
        proof {
            let n = score_balls(scores0, before_score).1;
            assert(r@ =~= bounce_sounds(ids.len()) + score_sounds(n));
        }
        r
    }
}

} // verus!
