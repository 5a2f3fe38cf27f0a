use vstd::prelude::*;
use crate::pong::{Ball, Transform, MAX_DELTA, VELOCITY_LIMIT};

verus! {

/// The ball's new position fits the integer range after `delta` microseconds.
pub open spec fn can_advance(b: Ball, delta: int) -> bool {
    &&& i64::MIN <= b.transform.x + b.velocity.x * delta <= i64::MAX
    &&& i64::MIN <= b.transform.y + b.velocity.y * delta <= i64::MAX
}

/// The ball moved by its velocity over `delta` microseconds.
pub open spec fn advanced(b: Ball, delta: int) -> Ball {
    Ball {
        transform: Transform {
            x: (b.transform.x + b.velocity.x * delta) as i64,
            y: (b.transform.y + b.velocity.y * delta) as i64,
        },
        ..b
    }
}

/// Moves each ball by its velocity.
#[derive(Clone, Copy, Debug, Default)]
pub struct MoveBallsSystem;

impl MoveBallsSystem {
    /// Advances every ball's position by `velocity * delta`.
    pub fn run(&self, balls: &mut Vec<Ball>, delta: i64)
        requires
            0 <= delta <= MAX_DELTA,
            forall|i: int| 0 <= i < old(balls).len() ==> #[trigger] old(balls)[i].wf(),
            forall|i: int| 0 <= i < old(balls).len() ==> #[trigger] can_advance(old(balls)[i], delta as int),
        ensures
            final(balls)@ == old(balls)@.map_values(|b: Ball| advanced(b, delta as int)),
            forall|i: int| 0 <= i < final(balls).len() ==> #[trigger] final(balls)[i].wf(),
    {
        let ghost balls0 = balls@;
        let n = balls.len();
        let mut i: usize = 0;
        while i < n
            invariant
                n == balls@.len() == balls0.len(),
                0 <= i <= n,
                0 <= delta <= MAX_DELTA,
                forall|j: int| 0 <= j < n ==> #[trigger] balls0[j].wf(),
                forall|j: int| 0 <= j < n ==> #[trigger] can_advance(balls0[j], delta as int),
                forall|j: int| i <= j < n ==> balls@[j] == balls0[j],
                forall|j: int| 0 <= j < i ==> balls@[j] == advanced(balls0[j], delta as int),
            decreases n - i,
        {
            let mut b = balls[i];
            assert(balls0[i as int].wf());
            assert(can_advance(balls0[i as int], delta as int));
            let vx = b.velocity.x;
            let vy = b.velocity.y;
            assert(-1_000_000_000_000_000_000 <= vx * delta <= 1_000_000_000_000_000_000) by (nonlinear_arith)
                requires
                    -VELOCITY_LIMIT <= vx <= VELOCITY_LIMIT,
                    0 <= delta <= MAX_DELTA,
            ;
            assert(-1_000_000_000_000_000_000 <= vy * delta <= 1_000_000_000_000_000_000) by (nonlinear_arith)
                requires
                    -VELOCITY_LIMIT <= vy <= VELOCITY_LIMIT,
                    0 <= delta <= MAX_DELTA,
            ;
            b.transform.x = b.transform.x + vx * delta;
            b.transform.y = b.transform.y + vy * delta;
            balls.set(i, b);
            i = i + 1;
        }
        assert(balls@ =~= balls0.map_values(|b: Ball| advanced(b, delta as int)));
        assert forall|i: int| 0 <= i < balls.len() implies #[trigger] balls@[i].wf() by {
            assert(balls0[i].wf());
        }
    }
}

} // verus!
