use vstd::prelude::*;
use crate::audio::SoundEvent;
use crate::event::EventChannel;
use crate::pong::{
    abs, Ball, Paddle, PongEvent, Velocity, AREA_HEIGHT, BOUNCE_COOLDOWN, MAX_DELTA,
    VELOCITY_LIMIT,
};

verus! {

pub open spec fn in_rect(x: int, y: int, left: int, bottom: int, right: int, top: int) -> bool {
    x >= left && x <= right && y >= bottom && y <= top
}

/// Whether the point `(x, y)` lies in the closed rectangle.
pub fn point_in_rect(x: i64, y: i64, left: i64, bottom: i64, right: i64, top: i64) -> (r: bool)
    ensures
        r == in_rect(x as int, y as int, left as int, bottom as int, right as int, top as int),
{
    x >= left && x <= right && y >= bottom && y <= top
}

/// The ball's centre lies in the paddle's rectangle grown by the ball's radius
/// on every side.
pub open spec fn overlaps(b: Ball, p: Paddle) -> bool {
    let left = p.transform.x - p.width / 2;
    let bottom = p.transform.y - p.height / 2;
    in_rect(
        b.transform.x as int,
        b.transform.y as int,
        left - b.radius,
        bottom - b.radius,
        left + p.width + b.radius,
        bottom + p.height + b.radius,
    )
}

pub open spec fn any_overlap(b: Ball, paddles: Seq<Paddle>) -> bool {
    exists|k: int| 0 <= k < paddles.len() && #[trigger] overlaps(b, paddles[k])
}

/// The ball with its y-velocity reflected when it touches the top or bottom
/// edge while moving outward.
pub open spec fn wall_bounced(b: Ball) -> Ball {
    let vy = b.velocity.y;
    if (b.transform.y <= b.radius && vy < 0) || (b.transform.y >= AREA_HEIGHT - b.radius && vy > 0) {
        Ball { velocity: Velocity { x: b.velocity.x, y: -vy as i64 }, ..b }
    } else {
        b
    }
}

/// One ball's collision step under the given cool-down: the ball afterwards,
/// and whether it bounced off a paddle.
pub open spec fn bounce_ball(b: Ball, paddles: Seq<Paddle>, cooldown: int) -> (Ball, bool) {
    let w = wall_bounced(b);
    if any_overlap(b, paddles) && cooldown <= 0 {
        (Ball { velocity: Velocity { x: -w.velocity.x as i64, y: w.velocity.y }, ..w }, true)
    } else {
        (w, false)
    }
}

/// The collision step over the first `n` balls: those balls afterwards, the
/// cool-down afterwards, and the tags of the balls that bounced off a paddle.
pub open spec fn bounce_prefix(balls: Seq<Ball>, paddles: Seq<Paddle>, cooldown: int, n: nat) -> (
    Seq<Ball>,
    int,
    Seq<u64>,
)
    decreases n,
{
    if n == 0 || n > balls.len() {
        (Seq::empty(), cooldown, Seq::empty())
    } else {
        let (bs, c, ids) = bounce_prefix(balls, paddles, cooldown, (n - 1) as nat);
        let (b, hit) = bounce_ball(balls[n - 1], paddles, c);
        if hit {
            (bs.push(b), BOUNCE_COOLDOWN as int, ids.push(b.id))
        } else {
            (bs.push(b), c, ids)
        }
    }
}

/// The cool-down after the once-per-tick decrement.
pub open spec fn decremented(last_bounce: int, delta: int) -> int {
    if last_bounce > 0 { last_bounce - delta } else { last_bounce }
}

pub open spec fn bounce_sounds(n: nat) -> Seq<SoundEvent> {
    Seq::new(n, |_i: int| SoundEvent::Bounce)
}

pub open spec fn bounce_events(ids: Seq<u64>) -> Seq<PongEvent> {
    ids.map_values(|id: u64| PongEvent::Bounce(id))
}

/// Reflects balls off the walls and the paddles.
pub struct BounceSystem {
    /// Time left of the paddle-bounce cool-down, in microseconds.
    pub last_bounce: i64,
}

impl BounceSystem {
    pub open spec fn wf(&self) -> bool {
        -MAX_DELTA <= self.last_bounce <= BOUNCE_COOLDOWN
    }

    pub fn new() -> (s: Self)
        ensures
            s.wf(),
            s.last_bounce == BOUNCE_COOLDOWN,
    {
        BounceSystem { last_bounce: BOUNCE_COOLDOWN }
    }

    /// Runs one tick of `delta` microseconds: the cool-down is decremented (while
    /// positive), then each ball in turn is reflected off the walls and, if
    /// the cool-down has run out and its centre lies in some paddle's grown
    /// rectangle, off that paddle. Each paddle bounce publishes a sound and a
    /// game bounce event and restarts the cool-down.
    pub fn run(
        &mut self,
        balls: &mut Vec<Ball>,
        paddles: &Vec<Paddle>,
        delta: i64,
        sounds: &mut EventChannel<SoundEvent>,
        events: &mut EventChannel<PongEvent>,
    )
        requires
            old(self).wf(),
            0 <= delta <= MAX_DELTA,
            forall|i: int| 0 <= i < old(balls).len() ==> #[trigger] old(balls)[i].wf(),
            forall|k: int| 0 <= k < paddles.len() ==> #[trigger] paddles[k].wf(),
        ensures
            ({
                let (bs, c, ids) = bounce_prefix(
                    old(balls)@,
                    paddles@,
                    decremented(old(self).last_bounce as int, delta as int),
                    old(balls)@.len(),
                );
                &&& final(balls)@ == bs
                &&& final(self).last_bounce == c
                &&& final(sounds).events() == old(sounds).events() + bounce_sounds(ids.len())
                &&& final(events).events() == old(events).events() + bounce_events(ids)
            }),
            final(self).wf(),
            forall|i: int| 0 <= i < final(balls).len() ==> #[trigger] final(balls)[i].wf(),
    {
        if self.last_bounce > 0 {
            self.last_bounce = self.last_bounce - delta;
        }
        let ghost balls0 = balls@;
        let ghost c0 = self.last_bounce as int;
        let ghost sounds0 = sounds.events();
        let ghost events0 = events.events();
        let n = balls.len();
        let mut i: usize = 0;
        while i < n
            invariant
                n == balls@.len() == balls0.len(),
                0 <= i <= n,
                self.wf(),
                forall|k: int| 0 <= k < paddles.len() ==> #[trigger] paddles[k].wf(),
                forall|j: int| 0 <= j < n ==> #[trigger] balls0[j].wf(),
                forall|j: int| i <= j < n ==> balls@[j] == balls0[j],
                ({
                    let (bs, c, ids) = bounce_prefix(balls0, paddles@, c0, i as nat);
                    &&& balls@.subrange(0, i as int) == bs
                    &&& self.last_bounce == c
                    &&& sounds.events() == sounds0 + bounce_sounds(ids.len())
                    &&& events.events() == events0 + bounce_events(ids)
                }),
                forall|j: int| 0 <= j < i ==> #[trigger] balls@[j].wf(),
            decreases n - i,
        {
            let ghost prev = bounce_prefix(balls0, paddles@, c0, i as nat);
            let mut b = balls[i];
            assert(balls@[i as int] == balls0[i as int]);
            assert(balls0[i as int].wf());
            let vy = b.velocity.y;
            if (b.transform.y <= b.radius && vy < 0) || (b.transform.y >= AREA_HEIGHT - b.radius
                && vy > 0) {
                b.velocity.y = -vy;
            }
            let mut found = false;
            let mut k: usize = 0;
            while k < paddles.len() && !found
                invariant
                    0 <= k <= paddles.len(),
                    i < balls0.len(),
                    forall|q: int| 0 <= q < paddles.len() ==> #[trigger] paddles[q].wf(),
                    b.transform == balls0[i as int].transform,
                    b.radius == balls0[i as int].radius,
                    0 <= b.radius <= AREA_HEIGHT,
                    found == (exists|q: int| 0 <= q < k && #[trigger] overlaps(b, paddles@[q])),
                decreases paddles.len() - k,
            {
                let p = &paddles[k];
                assert(p.wf());
                let left = p.transform.x - p.width / 2;
                let bottom = p.transform.y - p.height / 2;
                if point_in_rect(
                    b.transform.x,
                    b.transform.y,
                    left - b.radius,
                    bottom - b.radius,
                    left + p.width + b.radius,
                    bottom + p.height + b.radius,
                ) {
                    found = true;
                    assert(overlaps(b, paddles@[k as int]));
                }
                k = k + 1;
            }
            assert(found == any_overlap(balls0[i as int], paddles@)) by {
                if any_overlap(balls0[i as int], paddles@) {
                    let q = choose|q: int| 0 <= q < paddles.len() && #[trigger] overlaps(balls0[i as int], paddles@[q]);
                    assert(overlaps(b, paddles@[q]));
                }
                if found {
                    let q = choose|q: int| 0 <= q < k && #[trigger] overlaps(b, paddles@[q]);
                    assert(overlaps(balls0[i as int], paddles@[q]));
                }
            }
            if found && self.last_bounce <= 0 {
                b.velocity.x = -b.velocity.x;
                sounds.single_write(SoundEvent::Bounce);
                events.single_write(PongEvent::Bounce(b.id));
                self.last_bounce = BOUNCE_COOLDOWN;
            }
            balls.set(i, b);
            proof {
                let (bs, c, ids) = prev;
                let next = bounce_prefix(balls0, paddles@, c0, (i + 1) as nat);
                assert(balls@.subrange(0, i + 1) =~= next.0);
                assert(bounce_sounds(next.2.len()) =~= if next.2.len() == ids.len() {
                    bounce_sounds(ids.len())
                } else {
                    bounce_sounds(ids.len()).push(SoundEvent::Bounce)
                });
                assert(bounce_events(next.2) =~= if next.2.len() == ids.len() {
                    bounce_events(ids)
                } else {
                    bounce_events(ids).push(PongEvent::Bounce(b.id))
                });
            }
            i = i + 1;
        }
        assert(balls@ =~= balls@.subrange(0, n as int));
    }
}

} // verus!
