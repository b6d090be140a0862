//! The simulation's general laws, stated and proved over the spec functions
//! that the executable contracts use.

use vstd::prelude::*;

use crate::model::{
    abs_val, bounced, contact, defending, field_ok, moved, score_ok, step_vy, step_y, stepped,
    Ball, Controls, Field, Paddle, BUMP_DEN, BUMP_NUM, SERVE_MAX, SERVE_MIN,
};

verus! {

/// On a tick with no paddle contact and no wall hit, the ball translates by
/// exactly its velocity and the velocity is unchanged.
pub proof fn lemma_free_flight(b: Ball, lp: Paddle, rp: Paddle, f: Field)
    requires
        field_ok(f),
        b.ok(f),
        !contact(b, defending(b, lp, rp)),
        0 < b.y + b.vy < f.y,
    ensures
        bounced(b, lp, rp, f) == b,
        moved(b, f).x == b.x + b.vx,
        moved(b, f).y == b.y + b.vy,
        moved(b, f).vx == b.vx,
        moved(b, f).vy == b.vy,
        moved(b, f).radius == b.radius,
{
}

/// The vertical mirror is exact: an undershoot past the bottom wall comes
/// back as its own magnitude, an overshoot past the top wall as the same
/// distance below it, and in both cases the vertical velocity is negated.
pub proof fn lemma_vertical_reflection(y: int, vy: int, h: int)
    requires
        h > 0,
    ensures
        y + vy <= 0 ==> step_y(y, vy, h) == -(y + vy) && step_vy(y, vy, h) == -vy,
        y + vy >= h ==> step_y(y, vy, h) == 2 * h - (y + vy) && step_vy(y, vy, h) == -vy,
        0 < y + vy < h ==> step_y(y, vy, h) == y + vy && step_vy(y, vy, h) == vy,
{
}

/// After an advance under any intent and from any prior centre, the paddle
/// lies fully inside the field: its centre stays between half its extent
/// above the bottom wall and half its extent below the top one.
pub proof fn lemma_paddle_stays_inside(p: Paddle, f: Field, c: Controls)
    requires
        0 <= p.len <= f.y,
    ensures
        p.len / 2 <= stepped(p, f, c).y <= f.y - p.len / 2,
{
}

/// Paddle contact strictly speeds the ball up on both axes by the exact
/// contact factor and flips the sign of its horizontal velocity. Needs both
/// speeds of at least `BUMP_DEN / (BUMP_NUM - BUMP_DEN)` units, so that the
/// truncated growth is strict, and room below the speed cap.
pub proof fn lemma_contact_speed_up(b: Ball, lp: Paddle, rp: Paddle, f: Field)
    requires
        field_ok(f),
        contact(b, defending(b, lp, rp)),
        20 <= abs_val(b.vx as int),
        abs_val(b.vx as int) * BUMP_NUM / (BUMP_DEN as int) <= f.x,
        20 <= abs_val(b.vy as int),
        abs_val(b.vy as int) * BUMP_NUM / (BUMP_DEN as int) <= f.y,
    ensures
        abs_val(bounced(b, lp, rp, f).vx as int) == abs_val(b.vx as int) * BUMP_NUM / (BUMP_DEN as int),
        abs_val(bounced(b, lp, rp, f).vy as int) == abs_val(b.vy as int) * BUMP_NUM / (BUMP_DEN as int),
        abs_val(bounced(b, lp, rp, f).vx as int) > abs_val(b.vx as int),
        abs_val(bounced(b, lp, rp, f).vy as int) > abs_val(b.vy as int),
        b.vx > 0 ==> bounced(b, lp, rp, f).vx < 0,
        b.vx < 0 ==> bounced(b, lp, rp, f).vx > 0,
{
    lemma_grow_strict(abs_val(b.vx as int));
    lemma_grow_strict(abs_val(b.vy as int));
}

/// Growing a speed of at least 20 units by `BUMP_NUM / BUMP_DEN` is strict
/// even under truncation.
pub proof fn lemma_grow_strict(a: int)
    requires
        20 <= a,
    ensures
        a * BUMP_NUM / (BUMP_DEN as int) > a,
{
    assert(a * 105 == 100 * (a + 1) + (5 * a - 100)) by (nonlinear_arith);
    assert(a * 105 / 100 >= a + 1) by (nonlinear_arith)
        requires
            a * 105 >= 100 * (a + 1),
    ;
}

/// A goal against the left side: the right score alone goes up by one, and
/// the ball is re-served from the centre with both speeds in the serve band,
/// moving toward the scoring side.
pub proof fn lemma_left_goal_scores(b2: Ball, f: Field, l0: u64, r0: u64, b3: Ball, l1: u64, r1: u64)
    requires
        field_ok(f),
        score_ok(b2, f, l0, r0, b3, l1, r1),
        b2.x < 0,
        r0 < u64::MAX,
    ensures
        r1 == r0 + 1,
        l1 == l0,
        b3.x == f.x / 2 && b3.y == f.y / 2,
        SERVE_MIN <= b3.vx < SERVE_MAX,
        SERVE_MIN <= b3.vy < SERVE_MAX,
{
}

/// A goal against the right side: the left score alone goes up by one, and
/// the ball is re-served from the centre with serve-band speeds, flipped
/// toward the conceding side.
pub proof fn lemma_right_goal_scores(b2: Ball, f: Field, l0: u64, r0: u64, b3: Ball, l1: u64, r1: u64)
    requires
        field_ok(f),
        score_ok(b2, f, l0, r0, b3, l1, r1),
        b2.x > f.x,
        l0 < u64::MAX,
    ensures
        l1 == l0 + 1,
        r1 == r0,
        b3.x == f.x / 2 && b3.y == f.y / 2,
        -SERVE_MAX < b3.vx <= -SERVE_MIN,
        SERVE_MIN <= b3.vy < SERVE_MAX,
{
}

} // verus!
