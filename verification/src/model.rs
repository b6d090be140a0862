//! Core simulation of a two-paddle ball game on a rectangular field.
//!
//! All geometry lives in a fixed-point coordinate space: one terminal cell is
//! `SCALE` units wide and high, and every position, extent and per-tick
//! velocity is an `i64` number of such units. Contracts state the arithmetic
//! exactly over mathematical integers; divisions always have a nonnegative
//! dividend and a positive divisor, so quotients are ordinary floor division.
//!
//! Speeds are capped at one field extent per tick (`|vx| <= field.x`,
//! `|vy| <= field.y`). The cap keeps the vertical mirror reflection inside the
//! field and every tick free of overflow; the paddle-contact speed-up and a
//! shrinking resize saturate at it, and both contracts say so exactly.

use vstd::prelude::*;

use crate::rng::ServeRng;

verus! {

/// Fixed-point units per terminal cell.
pub const SCALE: i64 = 100;

/// Smallest accepted field extent: one cell.
pub const DIM_MIN: i64 = 100;

/// Largest accepted field extent, far beyond any real terminal.
pub const DIM_MAX: i64 = 100_000_000;

/// Per-tick paddle speed: two cells.
pub const PADDLE_SPEED: i64 = 200;

/// Ball radius: half a cell.
pub const BALL_RADIUS: i64 = 50;

/// Initial ball speed on both axes: half a cell per tick.
pub const INIT_SPEED: i64 = 50;

/// Smallest serve speed drawn after a goal (inclusive).
pub const SERVE_MIN: i64 = 40;

/// Largest serve speed drawn after a goal (exclusive).
pub const SERVE_MAX: i64 = 60;

/// Paddle contact multiplies both speeds by `BUMP_NUM / BUMP_DEN`.
pub const BUMP_NUM: i64 = 105;

/// Denominator of the contact speed-up factor.
pub const BUMP_DEN: i64 = 100;

/// A directional command for one paddle, valid for exactly one tick.
#[derive(Clone, Copy, PartialEq, Eq, Structural, Debug)]
pub enum Controls {
    Stop,
    Up,
    Down,
}

/// The logical playing surface: its width `x` and height `y`.
#[derive(Clone, Copy, PartialEq, Eq, Structural, Debug)]
pub struct Field {
    pub x: i64,
    pub y: i64,
}

/// The ball: centre position, radius and per-tick velocity.
#[derive(Clone, Copy, PartialEq, Eq, Structural, Debug)]
pub struct Ball {
    pub x: i64,
    pub y: i64,
    pub radius: i64,
    pub vx: i64,
    pub vy: i64,
}

/// One paddle: a vertical segment of extent `len` centred at `(x, y)`.
#[derive(Clone, Copy, PartialEq, Eq, Structural, Debug)]
pub struct Paddle {
    pub len: i64,
    pub x: i64,
    pub y: i64,
    pub vy: i64,
}

/// Magnitude of an integer.
pub open spec fn abs_val(v: int) -> int {
    if v < 0 {
        -v
    } else {
        v
    }
}

/// `v` forced into `[lo, hi]`, for `lo <= hi`.
pub open spec fn clamped(v: int, lo: int, hi: int) -> int {
    if v < lo {
        lo
    } else if v > hi {
        hi
    } else {
        v
    }
}

/// Field extents accepted by the simulation.
pub open spec fn field_ok(f: Field) -> bool {
    &&& DIM_MIN <= f.x <= DIM_MAX
    &&& DIM_MIN <= f.y <= DIM_MAX
}

impl Ball {
    /// The ball sits inside the field and respects the speed cap.
    pub open spec fn ok(self, f: Field) -> bool {
        &&& 0 <= self.x <= f.x
        &&& 0 <= self.y <= f.y
        &&& -f.x <= self.vx <= f.x
        &&& -f.y <= self.vy <= f.y
    }
}

impl Paddle {
    /// The paddle sits inside the field; its extent fits the field height.
    pub open spec fn ok(self, f: Field) -> bool {
        &&& 0 <= self.x <= f.x
        &&& 0 <= self.y <= f.y
        &&& 0 <= self.len <= f.y
        &&& -PADDLE_SPEED <= self.vy <= PADDLE_SPEED
    }
}

/// The vertical speed a control intent asks for.
pub open spec fn intent_vy(c: Controls) -> int {
    match c {
        Controls::Stop => 0,
        Controls::Down => -PADDLE_SPEED as int,
        Controls::Up => PADDLE_SPEED as int,
    }
}

/// A paddle after one advance under intent `c`: the commanded speed is
/// applied and the centre is clamped so the whole paddle stays in the field.
pub open spec fn stepped(p: Paddle, f: Field, c: Controls) -> Paddle {
    Paddle {
        len: p.len,
        x: p.x,
        vy: intent_vy(c) as i64,
        y: clamped(p.y + intent_vy(c), p.len / 2, f.y - p.len / 2) as i64,
    }
}

/// Vertical position after integration and at most one mirror reflection.
pub open spec fn step_y(y: int, vy: int, h: int) -> int {
    let ym = y + vy;
    if ym <= 0 {
        -ym
    } else if ym >= h {
        2 * h - ym
    } else {
        ym
    }
}

/// Vertical velocity after integration: negated exactly when a wall was hit.
pub open spec fn step_vy(y: int, vy: int, h: int) -> int {
    let ym = y + vy;
    if ym <= 0 || ym >= h {
        -vy
    } else {
        vy
    }
}

/// The ball after one advance: a straight move, then the vertical mirror.
pub open spec fn moved(b: Ball, f: Field) -> Ball {
    Ball {
        x: (b.x + b.vx) as i64,
        y: step_y(b.y as int, b.vy as int, f.y as int) as i64,
        radius: b.radius,
        vx: b.vx,
        vy: step_vy(b.y as int, b.vy as int, f.y as int) as i64,
    }
}

/// A speed grown by the contact factor, saturated at `cap`, sign kept.
pub open spec fn bump(v: int, cap: int) -> int {
    let m = abs_val(v) * BUMP_NUM / (BUMP_DEN as int);
    let mc = if m > cap {
        cap
    } else {
        m
    };
    if v < 0 {
        -mc
    } else {
        mc
    }
}

/// The paddle the ball is currently moving toward.
pub open spec fn defending(b: Ball, lp: Paddle, rp: Paddle) -> Paddle {
    if b.vx < 0 {
        lp
    } else {
        rp
    }
}

/// Contact: the ball's horizontal travel this tick reaches the paddle's
/// line, and its centre lies strictly inside the paddle's vertical span.
pub open spec fn contact(b: Ball, p: Paddle) -> bool {
    &&& abs_val(b.x - p.x) <= abs_val(b.vx as int)
    &&& b.y < p.y + p.len / 2
    &&& b.y > p.y - p.len / 2
}

/// The ball after the contact test: on contact the horizontal direction
/// flips and both speeds grow by the contact factor (saturated at the cap);
/// otherwise the ball is unchanged.
pub open spec fn bounced(b: Ball, lp: Paddle, rp: Paddle, f: Field) -> Ball {
    if contact(b, defending(b, lp, rp)) {
        Ball {
            x: b.x,
            y: b.y,
            radius: b.radius,
            vx: (-bump(b.vx as int, f.x as int)) as i64,
            vy: bump(b.vy as int, f.y as int) as i64,
        }
    } else {
        b
    }
}

/// A score counter after one goal against it: one more, saturated only at
/// the very top of `u64`.
pub open spec fn next_score(s: u64) -> int {
    if s < u64::MAX {
        s + 1
    } else {
        s as int
    }
}

/// A freshly drawn serve speed lies in `[SERVE_MIN, SERVE_MAX)`.
pub open spec fn serve_speed_ok(v: int) -> bool {
    SERVE_MIN <= v < SERVE_MAX
}

/// The goal test, relating the ball and scores after the ball's advance
/// (`b2`, `l0`, `r0`) to their values after scoring (`b3`, `l1`, `r1`).
/// A ball past the left edge scores for the right side and is reset to the
/// centre with serve speeds drawn from the serve band, both positive; one
/// past the right edge scores for the left side and is reset the same way,
/// but its horizontal speed is then flipped toward the conceding side.
pub open spec fn score_ok(b2: Ball, f: Field, l0: u64, r0: u64, b3: Ball, l1: u64, r1: u64) -> bool {
    &&& b3.radius == b2.radius
    &&& if b2.x < 0 {
        &&& l1 == l0
        &&& r1 == next_score(r0)
        &&& b3.x == f.x / 2
        &&& b3.y == f.y / 2
        &&& serve_speed_ok(b3.vx as int)
        &&& serve_speed_ok(b3.vy as int)
    } else if b2.x > f.x {
        &&& r1 == r0
        &&& l1 == next_score(l0)
        &&& b3.x == f.x / 2
        &&& b3.y == f.y / 2
        &&& serve_speed_ok(-(b3.vx as int))
        &&& serve_speed_ok(b3.vy as int)
    } else {
        &&& b3 == b2
        &&& l1 == l0
        &&& r1 == r0
    }
}

impl Ball {
    /// Advance the ball one tick: move by the velocity, then mirror the
    /// vertical coordinate at the bottom or top wall, conserving the exact
    /// overshoot distance.
    pub fn tick(&mut self, field: &Field)
        requires
            field_ok(*field),
            old(self).ok(*field),
        ensures
            *final(self) == moved(*old(self), *field),
            0 <= final(self).y <= field.y,
            -field.y <= final(self).vy <= field.y,
    {
        self.x = self.x + self.vx;
        self.y = self.y + self.vy;
        if self.y <= 0 {
            self.vy = -self.vy;
            self.y = -self.y;
        } else if self.y >= field.y {
            self.vy = -self.vy;
            self.y = 2 * field.y - self.y;
        }
    }
}

impl Paddle {
    /// Advance the paddle one tick: take the commanded speed from the
    /// intent, then move with the centre clamped so the paddle stays fully
    /// inside the field.
    pub fn tick(&mut self, field: &Field, input: &Controls)
        requires
            field_ok(*field),
            0 <= old(self).len <= field.y,
            0 <= old(self).y <= field.y,
        ensures
            *final(self) == stepped(*old(self), *field, *input),
            final(self).len / 2 <= final(self).y <= field.y - final(self).len / 2,
    {
        match input {
            Controls::Stop => {
                self.vy = 0;
            }
            Controls::Down => {
                self.vy = -PADDLE_SPEED;
            }
            Controls::Up => {
                self.vy = PADDLE_SPEED;
            }
        }
        let lo: i64 = self.len / 2;
        let hi: i64 = field.y - lo;
        let ny: i64 = self.y + self.vy;
        self.y = if ny < lo {
            lo
        } else if ny > hi {
            hi
        } else {
            ny
        };
    }
}

/// The whole simulation: ball, both paddles, scores, pending intents and
/// the field, advanced one atomic tick at a time.
pub struct Model {
    pub ball: Ball,
    pub l_paddle: Paddle,
    pub r_paddle: Paddle,
    pub l_score: u64,
    pub r_score: u64,
    pub l_input: Controls,
    pub r_input: Controls,
    pub field: Field,
    pub rng: ServeRng,
}

impl Model {
    /// Every entity sits inside an accepted field and respects the speed cap.
    pub open spec fn wf(self) -> bool {
        &&& field_ok(self.field)
        &&& self.ball.ok(self.field)
        &&& self.l_paddle.ok(self.field)
        &&& self.r_paddle.ok(self.field)
    }

    /// A fresh game on a `x` by `y` field: ball at the centre moving up-right
    /// at the initial speed, paddles centred near either edge, scores zero.
    pub fn new(x: i64, y: i64) -> (m: Model)
        requires
            DIM_MIN <= x <= DIM_MAX,
            DIM_MIN <= y <= DIM_MAX,
            x / 25 <= y,
        ensures
            m.wf(),
            m.field.x == x && m.field.y == y,
            m.ball.x == x / 2 && m.ball.y == y / 2,
            m.ball.radius == BALL_RADIUS,
            m.ball.vx == INIT_SPEED && m.ball.vy == INIT_SPEED,
            m.l_paddle.len == x / 25 && m.l_paddle.x == x / 12,
            m.l_paddle.y == y / 2 && m.l_paddle.vy == 0,
            m.r_paddle.len == x / 25 && m.r_paddle.x == x * 11 / 12,
            m.r_paddle.y == y / 2 && m.r_paddle.vy == 0,
            m.l_score == 0 && m.r_score == 0,
            m.l_input is Stop && m.r_input is Stop,
    {
        let len: i64 = x / 25;
        Model {
            ball: Ball { x: x / 2, y: y / 2, radius: BALL_RADIUS, vx: INIT_SPEED, vy: INIT_SPEED },
            l_paddle: Paddle { len, x: x / 12, y: y / 2, vy: 0 },
            r_paddle: Paddle { len, x: x * 11 / 12, y: y / 2, vy: 0 },
            l_score: 0,
            r_score: 0,
            l_input: Controls::Stop,
            r_input: Controls::Stop,
            field: Field { x, y },
            rng: ServeRng::new(),
        }
    }

    /// One atomic simulation tick, in this fixed order: both paddles advance
    /// on their intents and the intents reset to `Stop`; the paddle-contact
    /// test runs against the advanced paddles; the ball advances with wall
    /// reflection; the goal test runs, possibly scoring and re-serving.
    pub fn tick(&mut self)
        requires
            old(self).wf(),
        ensures
            final(self).wf(),
            final(self).field == old(self).field,
            final(self).l_input is Stop,
            final(self).r_input is Stop,
            final(self).l_paddle == stepped(old(self).l_paddle, old(self).field, old(self).l_input),
            final(self).r_paddle == stepped(old(self).r_paddle, old(self).field, old(self).r_input),
            final(self).l_score >= old(self).l_score,
            final(self).r_score >= old(self).r_score,
            score_ok(
                moved(
                    bounced(old(self).ball, final(self).l_paddle, final(self).r_paddle, old(self).field),
                    old(self).field,
                ),
                old(self).field,
                old(self).l_score,
                old(self).r_score,
                final(self).ball,
                final(self).l_score,
                final(self).r_score,
            ),
    {
        let f: Field = self.field;
        let li: Controls = self.l_input;
        self.l_paddle.tick(&f, &li);
        self.l_input = Controls::Stop;
        let ri: Controls = self.r_input;
        self.r_paddle.tick(&f, &ri);
        self.r_input = Controls::Stop;

        self.paddle_collision_check();
        self.ball.tick(&f);
        self.score_check();
    }

    /// The paddle-contact test of one tick, run against the paddle the ball
    /// is moving toward; on contact the ball's direction flips and its
    /// speeds grow, saturated at the speed cap.
    fn paddle_collision_check(&mut self)
        requires
            field_ok(old(self).field),
            old(self).ball.ok(old(self).field),
            old(self).l_paddle.ok(old(self).field),
            old(self).r_paddle.ok(old(self).field),
        ensures
            final(self).ball == bounced(
                old(self).ball,
                old(self).l_paddle,
                old(self).r_paddle,
                old(self).field,
            ),
            final(self).ball.ok(old(self).field),
            final(self).l_paddle == old(self).l_paddle,
            final(self).r_paddle == old(self).r_paddle,
            final(self).field == old(self).field,
            final(self).l_score == old(self).l_score,
            final(self).r_score == old(self).r_score,
            final(self).l_input == old(self).l_input,
            final(self).r_input == old(self).r_input,
    {
        let px: i64;
        let py: i64;
        let plen: i64;
        if self.ball.vx < 0 {
            px = self.l_paddle.x;
            py = self.l_paddle.y;
            plen = self.l_paddle.len;
        } else {
            px = self.r_paddle.x;
            py = self.r_paddle.y;
            plen = self.r_paddle.len;
        }
        let dist: i64 = if self.ball.x >= px {
            self.ball.x - px
        } else {
            px - self.ball.x
        };
        let speed: i64 = if self.ball.vx >= 0 {
            self.ball.vx
        } else {
            -self.ball.vx
        };
        if dist <= speed && self.ball.y < py + plen / 2 && self.ball.y > py - plen / 2 {
            // Bounce back, five percent faster on both axes.
            let gx: i64 = speed * BUMP_NUM / BUMP_DEN;
            let mx: i64 = if gx > self.field.x {
                self.field.x
            } else {
                gx
            };
            self.ball.vx = if self.ball.vx < 0 {
                mx
            } else {
                -mx
            };
            let sy: i64 = if self.ball.vy >= 0 {
                self.ball.vy
            } else {
                -self.ball.vy
            };
            let gy: i64 = sy * BUMP_NUM / BUMP_DEN;
            let my: i64 = if gy > self.field.y {
                self.field.y
            } else {
                gy
            };
            self.ball.vy = if self.ball.vy < 0 {
                -my
            } else {
                my
            };
        }
    }

    /// The goal test of one tick: a ball past the left edge scores for the
    /// right side, one past the right edge for the left side; either goal
    /// re-serves the ball from the centre, and after a left-side goal the
    /// serve is flipped toward the conceding side.
    fn score_check(&mut self)
        requires
            field_ok(old(self).field),
            0 <= old(self).ball.y <= old(self).field.y,
            -old(self).field.x <= old(self).ball.vx <= old(self).field.x,
            -old(self).field.y <= old(self).ball.vy <= old(self).field.y,
        ensures
            score_ok(
                old(self).ball,
                old(self).field,
                old(self).l_score,
                old(self).r_score,
                final(self).ball,
                final(self).l_score,
                final(self).r_score,
            ),
            final(self).ball.ok(old(self).field),
            final(self).l_score >= old(self).l_score,
            final(self).r_score >= old(self).r_score,
            final(self).l_paddle == old(self).l_paddle,
            final(self).r_paddle == old(self).r_paddle,
            final(self).field == old(self).field,
            final(self).l_input == old(self).l_input,
            final(self).r_input == old(self).r_input,
    {
        if self.ball.x < 0 {
            self.r_score = if self.r_score < u64::MAX {
                self.r_score + 1
            } else {
                self.r_score
            };
            self.reset_ball();
        } else if self.ball.x > self.field.x {
            self.l_score = if self.l_score < u64::MAX {
                self.l_score + 1
            } else {
                self.l_score
            };
            self.reset_ball();
            self.ball.vx = -self.ball.vx;
        }
    }

    /// Re-serve after a goal: fresh speeds drawn from the serve band, ball
    /// back at the field centre.
    fn reset_ball(&mut self)
        requires
            field_ok(old(self).field),
        ensures
            final(self).ball.x == old(self).field.x / 2,
            final(self).ball.y == old(self).field.y / 2,
            final(self).ball.radius == old(self).ball.radius,
            serve_speed_ok(final(self).ball.vx as int),
            serve_speed_ok(final(self).ball.vy as int),
            final(self).l_paddle == old(self).l_paddle,
            final(self).r_paddle == old(self).r_paddle,
            final(self).field == old(self).field,
            final(self).l_score == old(self).l_score,
            final(self).r_score == old(self).r_score,
            final(self).l_input == old(self).l_input,
            final(self).r_input == old(self).r_input,
    {
        let svx: i64 = self.rng.serve_component();
        let svy: i64 = self.rng.serve_component();
        self.serve(svx, svy);
    }

    /// Place the ball at the field centre with the given serve velocity.
    pub fn serve(&mut self, svx: i64, svy: i64)
        requires
            field_ok(old(self).field),
            -old(self).field.x <= svx <= old(self).field.x,
            -old(self).field.y <= svy <= old(self).field.y,
        ensures
            final(self).ball.x == old(self).field.x / 2,
            final(self).ball.y == old(self).field.y / 2,
            final(self).ball.radius == old(self).ball.radius,
            final(self).ball.vx == svx,
            final(self).ball.vy == svy,
            final(self).ball.ok(old(self).field),
            final(self).l_paddle == old(self).l_paddle,
            final(self).r_paddle == old(self).r_paddle,
            final(self).field == old(self).field,
            final(self).l_score == old(self).l_score,
            final(self).r_score == old(self).r_score,
            final(self).l_input == old(self).l_input,
            final(self).r_input == old(self).r_input,
    {
        self.ball.x = self.field.x / 2;
        self.ball.y = self.field.y / 2;
        self.ball.vx = svx;
        self.ball.vy = svy;
    }

    /// Rescale the whole scene to a new field size: every position and the
    /// paddle extents scale by the exact integer ratio of new to old extent,
    /// so relative layout is preserved; the speed cap of the new field is
    /// re-applied to the ball's velocity.
    pub fn resize(&mut self, x: i64, y: i64)
        requires
            old(self).wf(),
            DIM_MIN <= x <= DIM_MAX,
            DIM_MIN <= y <= DIM_MAX,
        ensures
            final(self).wf(),
            final(self).field.x == x && final(self).field.y == y,
            final(self).ball.x == old(self).ball.x * x / (old(self).field.x as int),
            final(self).ball.y == old(self).ball.y * y / (old(self).field.y as int),
            final(self).ball.radius == old(self).ball.radius,
            final(self).ball.vx == clamped(old(self).ball.vx as int, -x as int, x as int),
            final(self).ball.vy == clamped(old(self).ball.vy as int, -y as int, y as int),
            final(self).l_paddle.x == old(self).l_paddle.x * x / (old(self).field.x as int),
            final(self).l_paddle.y == old(self).l_paddle.y * y / (old(self).field.y as int),
            final(self).l_paddle.len == old(self).l_paddle.len * y / (old(self).field.y as int),
            final(self).l_paddle.vy == old(self).l_paddle.vy,
            final(self).r_paddle.x == old(self).r_paddle.x * x / (old(self).field.x as int),
            final(self).r_paddle.y == old(self).r_paddle.y * y / (old(self).field.y as int),
            final(self).r_paddle.len == old(self).r_paddle.len * y / (old(self).field.y as int),
            final(self).r_paddle.vy == old(self).r_paddle.vy,
            final(self).l_score == old(self).l_score,
            final(self).r_score == old(self).r_score,
            final(self).l_input == old(self).l_input,
            final(self).r_input == old(self).r_input,
    {
        let ox: i64 = self.field.x;
        let oy: i64 = self.field.y;
        self.ball.x = scale_coord(self.ball.x, x, ox);
        self.ball.y = scale_coord(self.ball.y, y, oy);
        self.ball.vx = if self.ball.vx > x {
            x
        } else if self.ball.vx < -x {
            -x
        } else {
            self.ball.vx
        };
        self.ball.vy = if self.ball.vy > y {
            y
        } else if self.ball.vy < -y {
            -y
        } else {
            self.ball.vy
        };
        self.l_paddle.x = scale_coord(self.l_paddle.x, x, ox);
        self.l_paddle.y = scale_coord(self.l_paddle.y, y, oy);
        self.l_paddle.len = scale_coord(self.l_paddle.len, y, oy);
        self.r_paddle.x = scale_coord(self.r_paddle.x, x, ox);
        self.r_paddle.y = scale_coord(self.r_paddle.y, y, oy);
        self.r_paddle.len = scale_coord(self.r_paddle.len, y, oy);
        self.field.x = x;
        self.field.y = y;
    }
}

/// One coordinate rescaled by the exact ratio of the new extent `n` to the
/// old extent `d`; a coordinate inside the old extent lands inside the new.
fn scale_coord(c: i64, n: i64, d: i64) -> (r: i64)
    requires
        0 <= c <= d,
        DIM_MIN <= n <= DIM_MAX,
        DIM_MIN <= d <= DIM_MAX,
    ensures
        r == c * n / (d as int),
        0 <= r <= n,
{
    proof {
        vstd::arithmetic::mul::lemma_mul_upper_bound(c as int, DIM_MAX as int, n as int, DIM_MAX as int);
        vstd::arithmetic::mul::lemma_mul_nonnegative(c as int, n as int);
        vstd::arithmetic::mul::lemma_mul_inequality(c as int, d as int, n as int);
        vstd::arithmetic::div_mod::lemma_div_is_ordered(c as int * n as int, d as int * n as int, d as int);
        vstd::arithmetic::div_mod::lemma_div_multiples_vanish(n as int, d as int);
        assert(d as int * n as int == (d as int) * (n as int));
    }
    c * n / d
}

/// The reactive policy's decision from the ball's and paddle's geometry:
/// chase the ball when it is more than a third of the paddle's extent away
/// from the paddle's centre, otherwise hold still.
pub open spec fn ai_policy(by: int, py: int, len: int) -> Controls {
    if by - py > len / 3 {
        Controls::Up
    } else if py - by > len / 3 {
        Controls::Down
    } else {
        Controls::Stop
    }
}

/// The computer player's intent for one tick: a pure function of the ball's
/// and the paddle's geometry, with a deadband of a third of the paddle's
/// extent around alignment. The caller consults it only for the side the
/// ball is moving toward; `ai_side_intent` packages that rule.
pub fn ai_input(ball: &Ball, paddle: &Paddle) -> (c: Controls)
    requires
        0 <= ball.y <= DIM_MAX,
        0 <= paddle.y <= DIM_MAX,
        0 <= paddle.len <= DIM_MAX,
    ensures
        c == ai_policy(ball.y as int, paddle.y as int, paddle.len as int),
{
    let band: i64 = paddle.len / 3;
    if ball.y - paddle.y > band {
        return Controls::Up;
    } else if paddle.y - ball.y > band {
        return Controls::Down;
    }
    Controls::Stop
}

/// The intent a computer-controlled side feeds into the next tick: the
/// policy's answer while the ball moves toward that side, `Stop` otherwise.
pub fn ai_side_intent(ball: &Ball, paddle: &Paddle, left_side: bool) -> (c: Controls)
    requires
        0 <= ball.y <= DIM_MAX,
        0 <= paddle.y <= DIM_MAX,
        0 <= paddle.len <= DIM_MAX,
    ensures
        c == (if (left_side && ball.vx < 0) || (!left_side && ball.vx > 0) {
            ai_policy(ball.y as int, paddle.y as int, paddle.len as int)
        } else {
            Controls::Stop
        }),
{
    let toward = if left_side {
        ball.vx < 0
    } else {
        ball.vx > 0
    };
    if toward {
        ai_input(ball, paddle)
    } else {
        Controls::Stop
    }
}

} // verus!
