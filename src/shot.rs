use vstd::prelude::*;
use crate::collision::CollBox;
use crate::consts::{HEIGHT, POS_BOUND, WIDTH};
use crate::fighter::{calc_display_angle, display_angle};
use crate::math::{wrap_turn, calc_velocity, round_up, round_up_vec, velocity_spec, FULL_TURN, ONE};
use crate::recaptured_fighter::in_bounds;
use crate::render::{draw_sprites, Renderer, Sprite, SpriteName};
use crate::types::{Vector2D, Vec2I};

verus! {

/// Distance a shot travels per frame, in fixed point.
pub const SHOT_SPEED: i32 = 2048;

/// A shot fired by the player. A straight shot of a dual ship stands for two
/// shots side by side; a shot fired while spinning flies at its angle.
pub struct MyShot {
    pub pos: Vec2I,
    pub dual: bool,
    pub angle: i32,
}

/// The shot is still inside the playfield, with a margin of four units.
pub open spec fn shot_alive(s: MyShot) -> bool {
    if s.angle == 0 {
        s.pos.y > -4 * ONE
    } else {
        s.pos.y > -4 * ONE && s.pos.x > -4 * ONE && s.pos.x < (WIDTH + 4) * ONE && s.pos.y < (HEIGHT + 4) * ONE
    }
}

pub open spec fn shot_sprites(s: MyShot) -> Seq<Sprite> {
    let d = round_up_vec(s.pos);
    let at = Vector2D { x: (d.x - 2) as i32, y: (d.y - 4) as i32 };
    if s.angle == 0 {
        let one = seq![Sprite { name: SpriteName::MyShot, pos: at, angle: None }];
        if s.dual {
            one.push(Sprite { name: SpriteName::MyShot, pos: Vector2D { x: (d.x + 14) as i32, y: (d.y - 4) as i32 }, angle: None })
        } else {
            one
        }
    } else {
        seq![Sprite { name: SpriteName::MyShot, pos: at, angle: Some(display_angle(s.angle as int) as i32) }]
    }
}

impl MyShot {
    pub open spec fn wf(&self) -> bool {
        in_bounds(self.pos) && self.angle <= i32::MAX - FULL_TURN / 32
    }

    pub fn new(pos: &Vec2I, dual: bool, angle: i32) -> (r: Self)
        ensures
            r.pos == *pos,
            r.dual == dual,
            r.angle == angle,
    {
        MyShot { pos: *pos, dual, angle }
    }

    /// Moves one frame; false once the shot has left the playfield.
    pub fn update(&mut self) -> (r: bool)
        requires
            old(self).wf(),
        ensures
            final(self).dual == old(self).dual,
            final(self).angle == old(self).angle,
            old(self).angle == 0 ==> final(self).pos == (Vector2D { x: old(self).pos.x, y: (old(self).pos.y - SHOT_SPEED) as i32 }),
            old(self).angle != 0 ==> final(self).pos == (Vector2D {
                x: (old(self).pos.x + velocity_spec((old(self).angle as int) % (FULL_TURN as int), SHOT_SPEED as int).x) as i32,
                y: (old(self).pos.y + velocity_spec((old(self).angle as int) % (FULL_TURN as int), SHOT_SPEED as int).y) as i32,
            }),
            r == shot_alive(*final(self)),
            r ==> final(self).wf(),
    {
        let top: i32 = -4 * ONE;
        if self.angle == 0 {
            self.pos.y = self.pos.y - SHOT_SPEED;
            self.pos.y > top
        } else {
            let left: i32 = -4 * ONE;
            let right: i32 = (WIDTH + 4) * ONE;
            let bottom: i32 = (HEIGHT + 4) * ONE;
            let v = calc_velocity(wrap_turn(self.angle), SHOT_SPEED);
            self.pos.add_assign(v);
            self.pos.y > top && self.pos.x > left && self.pos.x < right && self.pos.y < bottom
        }
    }

    /// A straight shot: one sprite, two for a dual ship; a shot at an angle:
    /// one sprite rotated to the nearest facing.
    pub fn sprites(&self) -> (r: Vec<Sprite>)
        requires
            self.wf(),
        ensures
            r@ == shot_sprites(*self),
    {
        let pos = self.pos();
        let mut v: Vec<Sprite> = Vec::new();
        if self.angle == 0 {
            v.push(Sprite { name: SpriteName::MyShot, pos: Vector2D { x: pos.x - 2, y: pos.y - 4 }, angle: None });
            if self.dual {
                v.push(Sprite { name: SpriteName::MyShot, pos: Vector2D { x: pos.x - 2 + 16, y: pos.y - 4 }, angle: None });
            }
        } else {
            v.push(Sprite {
                name: SpriteName::MyShot,
                pos: Vector2D { x: pos.x - 2, y: pos.y - 4 },
                angle: Some(calc_display_angle(self.angle)),
            });
        }
        assert(v@ =~= shot_sprites(*self));
        v
    }

    /// Draws exactly `self.sprites()`.
    pub fn draw<R: Renderer>(&self, renderer: &mut R)
        requires
            self.wf(),
    {
        let v = self.sprites();
        draw_sprites(renderer, &v);
    }

    pub fn get_collbox(&self) -> (r: CollBox)
        requires
            self.wf(),
        ensures
            r == (CollBox {
                top_left: Vector2D { x: (round_up_vec(self.pos).x - 1) as i32, y: (round_up_vec(self.pos).y - 4) as i32 },
                size: Vector2D { x: 1, y: 8 },
            }),
    {
        let p = self.pos();
        CollBox { top_left: Vector2D { x: p.x - 1, y: p.y - 4 }, size: Vector2D { x: 1, y: 8 } }
    }

    /// The box of the right-hand shot of a dual ship.
    pub fn get_collbox_for_dual(&self) -> (r: Option<CollBox>)
        requires
            self.wf(),
        ensures
            r == if self.dual {
                Some(CollBox {
                    top_left: Vector2D { x: (round_up_vec(self.pos).x - 1 + 16) as i32, y: (round_up_vec(self.pos).y - 4) as i32 },
                    size: Vector2D { x: 1, y: 8 },
                })
            } else {
                None::<CollBox>
            },
    {
        if self.dual {
            let p = self.pos();
            Some(CollBox { top_left: Vector2D { x: p.x - 1 + 16, y: p.y - 4 }, size: Vector2D { x: 1, y: 8 } })
        } else {
            None
        }
    }

    /// Position in display units.
    pub fn pos(&self) -> (r: Vec2I)
        ensures
            r == round_up_vec(self.pos),
    {
        round_up(&self.pos)
    }
}

} // verus!
