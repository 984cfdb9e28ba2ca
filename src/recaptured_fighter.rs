use vstd::prelude::*;
use crate::consts::{POS_BOUND, WIDTH};
use crate::math::{clamp, clamp_spec, ONE};
use crate::render::{draw_sprites, Renderer, Sprite, SpriteName};
use crate::types::{Vector2D, Vec2I};

verus! {

/// Row of the player's ship, in display units.
pub const Y_POSITION: i32 = 264;

/// Moves `v` toward `t` by at most `d`.
pub open spec fn approach(v: int, t: int, d: int) -> int {
    v + clamp_spec(t - v, -d, d)
}

/// `v` after `n` steps toward `t` of at most `d` each.
pub open spec fn approach_iter(v: int, t: int, d: int, n: nat) -> int
    decreases n,
{
    if n == 0 {
        v
    } else {
        approach_iter(approach(v, t, d), t, d, (n - 1) as nat)
    }
}

/// Moving at most `d` a frame toward a fixed point arrives within a bounded
/// number of frames: once `n * d` covers the distance, the point is reached.
/// This bounds a ship's pull-in by a beam, and a rescued fighter's flight.
pub proof fn lemma_approach_arrives(v: int, t: int, d: int, n: nat)
    requires
        d > 0,
        n * d >= (if t >= v { t - v } else { v - t }),
    ensures
        approach_iter(v, t, d, n) == t,
    decreases n,
{
    if n == 0 {
        assert(n * d == 0) by (nonlinear_arith)
            requires n == 0;
    } else {
        let v1 = approach(v, t, d);
        assert((n - 1) * d == n * d - d) by (nonlinear_arith);
        lemma_approach_arrives(v1, t, d, (n - 1) as nat);
    }
}

/// Before `n * d` covers the distance, `n` steps have not arrived.
pub proof fn lemma_approach_not_yet(v: int, t: int, d: int, n: nat)
    requires
        d > 0,
        n * d < (if t >= v { t - v } else { v - t }),
    ensures
        approach_iter(v, t, d, n) != t,
    decreases n,
{
    if n == 0 {
        assert(n * d == 0) by (nonlinear_arith)
            requires n == 0;
    } else {
        assert((n - 1) * d == n * d - d) by (nonlinear_arith);
        assert(n * d >= d) by (nonlinear_arith)
            requires n >= 1, d > 0;
        lemma_approach_not_yet(approach(v, t, d), t, d, (n - 1) as nat);
    }
}

/// Where a ship being pulled in from `p` toward `c` is after `n` frames.
pub open spec fn pull_pos(p: Vec2I, c: Vec2I, n: nat) -> (int, int) {
    (approach_iter(p.x as int, c.x as int, ONE as int, n), approach_iter(p.y as int, c.y as int, ONE as int, n))
}

pub open spec fn abs_int(v: int) -> int {
    if v >= 0 { v } else { -v }
}

/// The pull-in takes a bounded, exact number of frames: the ship is at the
/// capture point after `n` frames exactly when `n` steps of one unit cover the
/// distance on both axes. The frame after it arrives, it is captured.
pub proof fn lemma_pull_in_frames(p: Vec2I, c: Vec2I, n: nat)
    ensures
        pull_pos(p, c, n) == (c.x as int, c.y as int) <==>
            (n * ONE >= abs_int(c.x - p.x) && n * ONE >= abs_int(c.y - p.y)),
{
    if n * ONE >= abs_int(c.x - p.x) {
        lemma_approach_arrives(p.x as int, c.x as int, ONE as int, n);
    } else {
        lemma_approach_not_yet(p.x as int, c.x as int, ONE as int, n);
    }
    if n * ONE >= abs_int(c.y - p.y) {
        lemma_approach_arrives(p.y as int, c.y as int, ONE as int, n);
    } else {
        lemma_approach_not_yet(p.y as int, c.y as int, ONE as int, n);
    }
}

pub open spec fn in_bounds(v: Vec2I) -> bool {
    -POS_BOUND <= v.x <= POS_BOUND && -POS_BOUND <= v.y <= POS_BOUND
}

/// Tells whether a position lies within the coordinates the simulation keeps.
pub fn is_in_bounds(v: &Vec2I) -> (r: bool)
    ensures
        r == in_bounds(*v),
{
    -POS_BOUND <= v.x && v.x <= POS_BOUND && -POS_BOUND <= v.y && v.y <= POS_BOUND
}

/// Where a rescued fighter flies to: beside the player when the player is
/// alive, else to the centre of the player's row.
pub open spec fn fighter_target(player_living: bool) -> Vec2I {
    if player_living {
        Vector2D { x: ((WIDTH / 2 + 8) * ONE) as i32, y: (Y_POSITION * ONE) as i32 }
    } else {
        Vector2D { x: (WIDTH / 2 * ONE) as i32, y: (Y_POSITION * ONE) as i32 }
    }
}

pub open spec fn approach_vec(p: Vec2I, t: Vec2I, d: int) -> Vec2I {
    Vector2D { x: approach(p.x as int, t.x as int, d) as i32, y: approach(p.y as int, t.y as int, d) as i32 }
}

/// The fighter after one frame.
pub open spec fn fighter_next(f: RecapturedFighter, player_living: bool) -> RecapturedFighter {
    let p = approach_vec(f.pos, fighter_target(player_living), ONE as int);
    RecapturedFighter { pos: p, done: p == fighter_target(player_living) }
}

pub open spec fn fighter_sprite(f: RecapturedFighter) -> Sprite {
    let p = crate::math::round_up_vec(f.pos);
    Sprite { name: SpriteName::Rustacean, pos: Vector2D { x: (p.x - 8) as i32, y: (p.y - 8) as i32 }, angle: None }
}

/// A fighter released from capture, flying down to join the player.
#[derive(Clone, Copy, Debug, PartialEq, Eq, Structural)]
pub struct RecapturedFighter {
    pub pos: Vec2I,
    pub done: bool,
}

impl RecapturedFighter {
    pub open spec fn wf(&self) -> bool {
        in_bounds(self.pos)
    }

    pub fn new(pos: &Vec2I) -> (r: Self)
        requires
            in_bounds(*pos),
        ensures
            r.pos == *pos,
            !r.done,
            r.wf(),
    {
        RecapturedFighter { pos: *pos, done: false }
    }

    /// One frame: move one unit per axis toward the target; done on arrival.
    pub fn update(&mut self, player_living: bool)
        requires
            old(self).wf(),
        ensures
            final(self).wf(),
            *final(self) == fighter_next(*old(self), player_living),
            final(self).pos == approach_vec(old(self).pos, fighter_target(player_living), ONE as int),
            final(self).done == (final(self).pos == fighter_target(player_living)),
    {
        let t = if player_living {
            Vector2D { x: (WIDTH / 2 + 8) * ONE, y: Y_POSITION * ONE }
        } else {
            Vector2D { x: WIDTH / 2 * ONE, y: Y_POSITION * ONE }
        };
        self.pos.x = self.pos.x + clamp(t.x - self.pos.x, -ONE, ONE);
        self.pos.y = self.pos.y + clamp(t.y - self.pos.y, -ONE, ONE);
        self.done = self.pos.x == t.x && self.pos.y == t.y;
    }

    /// Appends the fighter's sprite to `out`.
    pub fn push_sprites(&self, out: &mut Vec<Sprite>)
        requires
            self.wf(),
        ensures
            final(out)@ == old(out)@.push(fighter_sprite(*self)),
    {
        let p = crate::math::round_up(&self.pos);
        out.push(Sprite { name: SpriteName::Rustacean, pos: Vector2D { x: p.x - 8, y: p.y - 8 }, angle: None });
    }

    pub fn draw<R: Renderer>(&self, renderer: &mut R)
        requires
            self.wf(),
    {
        let mut v: Vec<Sprite> = Vec::new();
        self.push_sprites(&mut v);
        draw_sprites(renderer, &v);
    }
}

} // verus!
