use vstd::prelude::*;
use crate::collision::CollBox;
use crate::pad::{Pad, PadBit};
use crate::render::{draw_sprites, Renderer, Sprite, SpriteName};
use crate::types::Vector2D;

verus! {

/// Width of the playfield of the plain-pixel ship.
pub const FIELD_WIDTH: i32 = 240;

/// A ship kept in whole pixels, with a single shot in flight at a time
/// (`my < 0` when no shot is in flight).
pub struct Player {
    pub x: i32,
    pub y: i32,
    pub mx: i32,
    pub my: i32,
}

pub open spec fn steer_pixels(x: int, pad: Pad) -> int {
    let x1 = if pad.held(PadBit::L) { if x - 2 < 8 { 8 } else { x - 2 } } else { x };
    if pad.held(PadBit::R) { if x1 + 2 > FIELD_WIDTH - 8 { FIELD_WIDTH - 8 } else { x1 + 2 } } else { x1 }
}

pub open spec fn classic_sprites(p: Player) -> Seq<Sprite> {
    let ship = seq![Sprite { name: SpriteName::Rustacean, pos: Vector2D { x: (p.x - 8) as i32, y: (p.y - 8) as i32 }, angle: None }];
    if p.my >= 0 {
        ship.push(Sprite { name: SpriteName::MyShot, pos: Vector2D { x: (p.mx - 1) as i32, y: (p.my - 3) as i32 }, angle: None })
    } else {
        ship
    }
}

impl Player {
    pub open spec fn wf(&self) -> bool {
        8 <= self.x <= FIELD_WIDTH - 8 && 0 <= self.y <= 4096 && -8 <= self.my <= 4096
            && 0 <= self.mx <= FIELD_WIDTH
    }

    pub fn new() -> (r: Player)
        ensures
            r.wf(),
            r.x == FIELD_WIDTH / 2,
            r.y == 280,
            r.mx == 0,
            r.my == -1,
    {
        Player { x: FIELD_WIDTH / 2, y: 280, mx: 0, my: -1 }
    }

    /// Steers; fires when the button is held and no shot is in flight; the
    /// shot in flight climbs eight pixels.
    pub fn update(&mut self, pad: &Pad)
        requires
            old(self).wf(),
        ensures
            final(self).wf(),
            final(self).x == steer_pixels(old(self).x as int, *pad),
            final(self).y == old(self).y,
            ({
                let fire = pad.held(PadBit::A) && old(self).my < 0;
                let mx = if fire { final(self).x } else { old(self).mx };
                let my = if fire { old(self).y as int } else { old(self).my as int };
                final(self).mx == mx && final(self).my == if my >= 0 { my - 8 } else { my }
            }),
    {
        if pad.is_pressed(PadBit::L) {
            self.x = self.x - 2;
            if self.x < 8 {
                self.x = 8;
            }
        }
        if pad.is_pressed(PadBit::R) {
            self.x = self.x + 2;
            if self.x > FIELD_WIDTH - 8 {
                self.x = FIELD_WIDTH - 8;
            }
        }
        if pad.is_pressed(PadBit::A) && self.my < 0 {
            self.mx = self.x;
            self.my = self.y;
        }
        if self.my >= 0 {
            self.my = self.my - 8;
        }
    }

    pub fn draw<R: Renderer>(&self, renderer: &mut R)
        requires
            self.wf(),
    {
        let v = self.sprites();
        draw_sprites(renderer, &v);
    }

    /// The ship, and its shot while one is in flight.
    pub fn sprites(&self) -> (r: Vec<Sprite>)
        requires
            self.wf(),
        ensures
            r@ == classic_sprites(*self),
    {
        let mut v: Vec<Sprite> = Vec::new();
        v.push(Sprite { name: SpriteName::Rustacean, pos: Vector2D { x: self.x - 8, y: self.y - 8 }, angle: None });
        if self.my >= 0 {
            v.push(Sprite { name: SpriteName::MyShot, pos: Vector2D { x: self.mx - 1, y: self.my - 3 }, angle: None });
        }
        assert(v@ =~= classic_sprites(*self));
        v
    }
}

/// A shot kept in whole pixels, climbing eight pixels a frame.
pub struct MyShot {
    pub x: i32,
    pub y: i32,
}

impl MyShot {
    pub fn new(x: i32, y: i32) -> (r: MyShot)
        ensures
            r.x == x,
            r.y == y,
    {
        MyShot { x, y }
    }

    /// Climbs one frame; false once above the top edge.
    pub fn update(&mut self) -> (r: bool)
        requires
            old(self).y >= i32::MIN + 8,
        ensures
            final(self).x == old(self).x,
            final(self).y == old(self).y - 8,
            r == (final(self).y >= 0),
    {
        self.y = self.y - 8;
        self.y >= 0
    }

    pub fn get_collbox(&self) -> (r: CollBox)
        requires
            self.x > i32::MIN,
            self.y >= i32::MIN + 4,
        ensures
            r == (CollBox { top_left: Vector2D { x: (self.x - 1) as i32, y: (self.y - 4) as i32 }, size: Vector2D { x: 1, y: 8 } }),
    {
        CollBox { top_left: Vector2D { x: self.x - 1, y: self.y - 4 }, size: Vector2D { x: 1, y: 8 } }
    }

    pub fn draw<R: Renderer>(&self, renderer: &mut R)
        requires
            self.x > i32::MIN + 4,
            self.y > i32::MIN + 4,
    {
        let mut v: Vec<Sprite> = Vec::new();
        v.push(self.sprite());
        draw_sprites(renderer, &v);
    }

    pub fn sprite(&self) -> (r: Sprite)
        requires
            self.x > i32::MIN + 4,
            self.y > i32::MIN + 4,
        ensures
            r == (Sprite { name: SpriteName::MyShot, pos: Vector2D { x: (self.x - 4) as i32, y: (self.y - 4) as i32 }, angle: None }),
    {
        Sprite { name: SpriteName::MyShot, pos: Vector2D { x: self.x - 4, y: self.y - 4 }, angle: None }
    }
}

} // verus!
