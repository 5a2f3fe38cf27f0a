use vstd::prelude::*;
use crate::pong::{clamp, Paddle, Side, Transform, AREA_HEIGHT, AXIS_SCALE, PADDLE_SPEED};

verus! {

/// The paddle after one tick with input `axis`: a non-zero axis value moves it
/// by `PADDLE_SPEED * axis`, clamped so that it stays in the play area.
pub open spec fn moved_paddle(p: Paddle, axis: Option<i64>) -> Paddle {
    match axis {
        Some(a) => if a != 0 {
            Paddle {
                transform: Transform {
                    x: p.transform.x,
                    y: clamp(
                        p.transform.y + PADDLE_SPEED * a,
                        p.height / 2,
                        AREA_HEIGHT - p.height / 2,
                    ) as i64,
                },
                ..p
            }
        } else {
            p
        },
        None => p,
    }
}

pub open spec fn axis_for(side: Side, left_axis: Option<i64>, right_axis: Option<i64>) -> Option<i64> {
    match side {
        Side::Left => left_axis,
        Side::Right => right_axis,
    }
}

pub open spec fn axis_ok(axis: Option<i64>) -> bool {
    match axis {
        Some(a) => -AXIS_SCALE <= a <= AXIS_SCALE,
        None => true,
    }
}

/// Moves each paddle by its side's input axis.
#[derive(Clone, Copy, Debug, Default)]
pub struct PaddleSystem;

impl PaddleSystem {
    /// Moves each paddle by the axis value of its side (`None` when no binding
    /// is active); every paddle stays inside the play area.
    pub fn run(&self, paddles: &mut Vec<Paddle>, left_axis: Option<i64>, right_axis: Option<i64>)
        requires
            axis_ok(left_axis),
            axis_ok(right_axis),
            forall|i: int| 0 <= i < old(paddles).len() ==> #[trigger] old(paddles)[i].wf(),
        ensures
            final(paddles)@ == old(paddles)@.map_values(
                |p: Paddle| moved_paddle(p, axis_for(p.side, left_axis, right_axis)),
            ),
            forall|i: int| 0 <= i < final(paddles).len() ==> #[trigger] final(paddles)[i].wf(),
    {
        let ghost paddles0 = paddles@;
        let n = paddles.len();
        let mut i: usize = 0;
        while i < n
            invariant
                n == paddles@.len() == paddles0.len(),
                0 <= i <= n,
                axis_ok(left_axis),
                axis_ok(right_axis),
                forall|j: int| 0 <= j < n ==> #[trigger] paddles0[j].wf(),
                forall|j: int| i <= j < n ==> paddles@[j] == paddles0[j],
                forall|j: int|
                    0 <= j < i ==> paddles@[j] == moved_paddle(
                        paddles0[j],
                        axis_for(paddles0[j].side, left_axis, right_axis),
                    ),
                forall|j: int| 0 <= j < i ==> #[trigger] paddles@[j].wf(),
            decreases n - i,
        {
            let mut p = paddles[i];
            assert(paddles0[i as int].wf());
            let movement = match p.side {
                Side::Right => right_axis,
                Side::Left => left_axis,
            };
            if let Some(mv_amount) = movement {
                if mv_amount != 0 {
                    let target = p.transform.y + PADDLE_SPEED * mv_amount;
                    let lo = p.height / 2;
                    let hi = AREA_HEIGHT - p.height / 2;
                    p.transform.y = if target < lo {
                        lo
                    } else if target > hi {
                        hi
                    } else {
                        target
                    };
                }
            }
            paddles.set(i, p);
            i = i + 1;
        }
        assert(paddles@ =~= paddles0.map_values(
            |p: Paddle| moved_paddle(p, axis_for(p.side, left_axis, right_axis)),
        ));
    }
}

} // verus!
