use vstd::prelude::*;
use crate::collision::CollBox;
use crate::consts::{POS_BOUND, WIDTH, HEIGHT};
use crate::event_queue::{EventQueue, EventType};
use crate::math::{clamp, clamp_spec, round_up, round_up_vec, FULL_TURN, ONE};
use crate::pad::{Pad, PadBit};
use crate::player::{home_pos, steer_x, PlayerState};
use crate::recaptured_fighter::{approach, fighter_next, fighter_sprite, in_bounds, RecapturedFighter};
use crate::render::{draw_sprites, Renderer, Sprite, SpriteName};
use crate::types::{Vector2D, Vec2I};

verus! {

/// Ships a game starts with, and the most a player can hold.
pub const DEFAULT_LEFT_SHIP: u32 = 3;
pub const MAX_LEFT_SHIP: u32 = 99;
/// Angle the ship turns by per frame while being pulled in.
pub const SPIN_STEP: i32 = 2048;
/// Largest angle from which the spin can take another step without leaving
/// `i32` (`i32::MAX - SPIN_STEP`).
pub const MAX_SPIN_ANGLE: i32 = 2147481599;

/// The player's ship in the variant of the game that counts remaining ships
/// and has no escape from a beam.
pub struct Player {
    pub pos: Vec2I,
    pub state: PlayerState,
    pub dual: bool,
    pub angle: i32,
    pub capture_pos: Vec2I,
    pub recaptured_fighter: Option<RecapturedFighter>,
    pub left_ship: u32,
}

pub open spec fn shot_spec(p: Player, pad: Pad) -> Seq<EventType> {
    if pad.triggered(PadBit::A) {
        seq![EventType::MyShot(Vector2D { x: p.pos.x, y: (p.pos.y + 2 * ONE) as i32 }, p.dual, p.angle)]
    } else {
        seq![]
    }
}

/// Fixed-point angle quantized to the nearest of sixteen facings, within one
/// turn.
pub open spec fn display_angle(angle: int) -> int {
    ((angle + FULL_TURN / 32) % (FULL_TURN as int)) / 4096 * 4096
}

/// The angle a rotated sprite is drawn at: the nearest of sixteen facings.
pub fn calc_display_angle(angle: i32) -> (r: i32)
    requires
        angle <= i32::MAX - FULL_TURN / 32,
    ensures
        r == display_angle(angle as int),
        0 <= r < FULL_TURN,
{
    let w = crate::math::wrap_turn(angle + FULL_TURN / 32);
    w / 4096 * 4096
}

/// Icon of the `k`-th spare ship.
pub open spec fn icon(k: int) -> Sprite {
    Sprite { name: SpriteName::Rustacean, pos: Vector2D { x: (k * 16) as i32, y: 272 }, angle: None }
}

pub open spec fn ship_sprites(p: Player) -> Seq<Sprite> {
    let d = round_up_vec(p.pos);
    let base = Vector2D { x: (d.x - 8) as i32, y: (d.y - 8) as i32 };
    let ship = match p.state {
        PlayerState::Normal | PlayerState::EscapeCapturing | PlayerState::MoveHomePos => {
            let one = seq![Sprite { name: SpriteName::Rustacean, pos: base, angle: None }];
            if p.dual {
                one.push(Sprite { name: SpriteName::Rustacean, pos: Vector2D { x: (d.x + 8) as i32, y: (d.y - 8) as i32 }, angle: None })
            } else {
                one
            }
        },
        PlayerState::Capturing => seq![Sprite {
            name: SpriteName::Rustacean,
            pos: base,
            angle: Some(display_angle((p.angle as int) % (FULL_TURN as int)) as i32),
        }],
        PlayerState::Captured => seq![Sprite { name: SpriteName::RustaceanCaptured, pos: base, angle: None }],
        _ => seq![],
    };
    match p.recaptured_fighter {
        Some(f) => ship.push(fighter_sprite(f)),
        None => ship,
    }
}

/// What the ship draws: as the core ship does, then the spare-ship icons.
pub open spec fn fighter_player_sprites(p: Player) -> Seq<Sprite> {
    let n: nat = if p.left_ship > 0 { (p.left_ship - 1) as nat } else { 0 };
    ship_sprites(p) + Seq::new(n, |k: int| icon(k))
}

impl Player {
    pub open spec fn wf(&self) -> bool {
        &&& in_bounds(self.pos)
        &&& in_bounds(self.capture_pos)
        &&& 0 <= self.angle
        &&& (self.dual ==> self.pos.x <= POS_BOUND - 16 * ONE)
        &&& self.capture_pos.x <= POS_BOUND - 16 * ONE
        &&& (self.recaptured_fighter matches Some(f) ==> f.wf())
        &&& self.left_ship <= MAX_LEFT_SHIP
    }

    pub fn new() -> (r: Self)
        ensures
            r.wf(),
            r.pos == home_pos(),
            r.state == PlayerState::Normal,
            !r.dual,
            r.angle == 0,
            r.recaptured_fighter is None,
            r.left_ship == DEFAULT_LEFT_SHIP,
    {
        Player {
            pos: Vector2D { x: WIDTH / 2 * ONE, y: (HEIGHT - 16 - 8) * ONE },
            state: PlayerState::Normal,
            dual: false,
            angle: 0,
            capture_pos: Vector2D { x: 0, y: 0 },
            recaptured_fighter: None,
            left_ship: DEFAULT_LEFT_SHIP,
        }
    }

    pub fn restart(&mut self)
        requires
            old(self).wf(),
        ensures
            final(self).wf(),
            *final(self) == (Player { state: PlayerState::Normal, pos: home_pos(), ..*old(self) }),
    {
        self.state = PlayerState::Normal;
        self.pos = Vector2D { x: WIDTH / 2 * ONE, y: (HEIGHT - 16 - 8) * ONE };
    }

    /// One frame of the ship; see the core player for the states. The ship
    /// moves home at one unit per frame.
    pub fn update(&mut self, pad: &Pad, event_queue: &mut EventQueue)
        requires
            old(self).wf(),
            old(self).state == PlayerState::Capturing ==> old(self).angle <= MAX_SPIN_ANGLE,
        ensures
            final(event_queue)@.len() >= old(event_queue)@.len(),
            final(event_queue)@.subrange(0, old(event_queue)@.len() as int) == old(event_queue)@,
            final(self).wf(),
            final(self).left_ship == old(self).left_ship,
            final(self).dual == (old(self).dual || (old(self).state == PlayerState::MoveHomePos
                && final(self).state == PlayerState::Normal)),
            old(self).state == PlayerState::Normal ==> {
                &&& final(self).pos == (Vector2D { x: steer_x(old(self).pos.x as int, old(self).dual, *pad) as i32, ..old(self).pos })
                &&& final(event_queue)@ == old(event_queue)@ + shot_spec(Player { pos: final(self).pos, ..*old(self) }, *pad)
                &&& final(self).state == PlayerState::Normal
            },
            old(self).state == PlayerState::Capturing ==> {
                &&& final(self).angle == if old(self).pos == old(self).capture_pos { 0 } else { old(self).angle + SPIN_STEP }
                &&& final(event_queue)@ == old(event_queue)@ + shot_spec(Player {
                    pos: final(self).pos,
                    angle: (old(self).angle + SPIN_STEP) as i32,
                    ..*old(self)
                }, *pad)
                &&& final(self).pos.x == approach(old(self).pos.x as int, old(self).capture_pos.x as int, ONE as int)
                &&& final(self).pos.y == approach(old(self).pos.y as int, old(self).capture_pos.y as int, ONE as int)
                &&& final(self).state == if old(self).pos == old(self).capture_pos { PlayerState::Captured } else { PlayerState::Capturing }
            },
            old(self).state == PlayerState::Dead && old(self).recaptured_fighter is None ==> {
                &&& *final(self) == *old(self)
                &&& final(event_queue)@ == old(event_queue)@
            },
            (old(self).state == PlayerState::Captured || old(self).state == PlayerState::CaptureCompleted) ==> {
                &&& final(self).pos == old(self).pos
                &&& final(self).state == old(self).state
                &&& final(event_queue)@ == old(event_queue)@
            },
            old(self).state != PlayerState::MoveHomePos && old(self).state != PlayerState::Dead ==> {
                final(self).recaptured_fighter == match old(self).recaptured_fighter {
                    Some(f) => Some(fighter_next(f, true)),
                    None => None::<RecapturedFighter>,
                }
            },
            old(self).state == PlayerState::MoveHomePos ==> ({
                let hx: int = (WIDTH / 2 - 8) * ONE;
                let x1 = approach(old(self).pos.x as int, hx, ONE as int);
                let landed = match old(self).recaptured_fighter { Some(f) => f.done, None => true };
                if x1 == hx && landed {
                    &&& final(self).dual
                    &&& final(self).state == PlayerState::Normal
                    &&& final(self).recaptured_fighter is None
                    &&& final(self).pos == (Vector2D { x: x1 as i32, ..old(self).pos })
                    &&& final(event_queue)@ == old(event_queue)@.push(EventType::RecaptureEnded)
                } else {
                    &&& final(self).state == PlayerState::MoveHomePos
                    &&& final(self).dual == old(self).dual
                    &&& final(self).pos == (Vector2D { x: x1 as i32, ..old(self).pos })
                    &&& final(self).recaptured_fighter == match old(self).recaptured_fighter {
                        Some(f) => Some(fighter_next(f, true)),
                        None => None::<RecapturedFighter>,
                    }
                    &&& final(event_queue)@ == old(event_queue)@
                }
            }),
            old(self).state == PlayerState::Dead && old(self).recaptured_fighter is Some ==> ({
                let f1 = fighter_next(old(self).recaptured_fighter.unwrap(), false);
                if f1.done {
                    &&& final(self).pos == (Vector2D { x: (WIDTH / 2 * ONE) as i32, ..old(self).pos })
                    &&& final(self).state == PlayerState::Normal
                    &&& final(self).recaptured_fighter is None
                    &&& final(event_queue)@ == old(event_queue)@.push(EventType::RecaptureEnded)
                } else {
                    &&& final(self).pos == old(self).pos
                    &&& final(self).state == PlayerState::Dead
                    &&& final(self).recaptured_fighter == Some(f1)
                    &&& final(event_queue)@ == old(event_queue)@
                }
            }),
    {
        match self.state {
            PlayerState::Normal => {
                self.update_normal(pad, event_queue);
            },
            PlayerState::Capturing => {
                self.update_capture(pad, event_queue);
            },
            PlayerState::MoveHomePos => {
                let x: i32 = (WIDTH / 2 - 8) * ONE;
                let speed: i32 = ONE;
                self.pos.x = self.pos.x + clamp(x - self.pos.x, -speed, speed);
                if self.pos.x == x {
                    let landed = match &self.recaptured_fighter {
                        Some(f) => f.done,
                        None => true,
                    };
                    if landed {
                        self.dual = true;
                        self.state = PlayerState::Normal;
                        self.recaptured_fighter = None;
                        event_queue.push(EventType::RecaptureEnded);
                    }
                }
            },
            _ => {},
        }
        let living = self.state != PlayerState::Dead;
        let mut landed_dead = false;
        match &mut self.recaptured_fighter {
            Some(f) => {
                f.update(living);
                landed_dead = !living && f.done;
            },
            None => {},
        }
        if landed_dead {
            self.pos.x = WIDTH / 2 * ONE;
            self.state = PlayerState::Normal;
            self.recaptured_fighter = None;
            event_queue.push(EventType::RecaptureEnded);
        }
    }

    pub fn update_normal(&mut self, pad: &Pad, event_queue: &mut EventQueue)
        requires
            old(self).wf(),
        ensures
            final(self).wf(),
            *final(self) == (Player {
                pos: Vector2D { x: steer_x(old(self).pos.x as int, old(self).dual, *pad) as i32, ..old(self).pos },
                ..*old(self)
            }),
            final(event_queue)@ == old(event_queue)@ + shot_spec(*final(self), *pad),
    {
        if pad.is_pressed(PadBit::L) {
            self.pos.x = self.pos.x - 2 * ONE;
            if self.pos.x < 8 * ONE {
                self.pos.x = 8 * ONE;
            }
        }
        if pad.is_pressed(PadBit::R) {
            self.pos.x = self.pos.x + 2 * ONE;
            let right: i32 = if self.dual { (WIDTH - 8 - 16) * ONE } else { (WIDTH - 8) * ONE };
            if self.pos.x > right {
                self.pos.x = right;
            }
        }
        self.fire_bullet(pad, event_queue);
    }

    pub fn update_capture(&mut self, pad: &Pad, event_queue: &mut EventQueue)
        requires
            old(self).wf(),
            old(self).angle <= MAX_SPIN_ANGLE,
        ensures
            final(self).wf(),
            final(self).pos.x == approach(old(self).pos.x as int, old(self).capture_pos.x as int, ONE as int),
            final(self).pos.y == approach(old(self).pos.y as int, old(self).capture_pos.y as int, ONE as int),
            old(self).pos == old(self).capture_pos ==> final(self).state == PlayerState::Captured && final(self).angle == 0,
            old(self).pos != old(self).capture_pos ==> final(self).state == old(self).state
                && final(self).angle == old(self).angle + SPIN_STEP,
            final(self).dual == old(self).dual,
            final(self).capture_pos == old(self).capture_pos,
            final(self).recaptured_fighter == old(self).recaptured_fighter,
            final(self).left_ship == old(self).left_ship,
            final(event_queue)@ == old(event_queue)@ + shot_spec(Player { pos: final(self).pos, angle: (old(self).angle + SPIN_STEP) as i32, ..*old(self) }, *pad),
    {
        let dx: i32 = self.capture_pos.x - self.pos.x;
        let dy: i32 = self.capture_pos.y - self.pos.y;
        self.pos.x = self.pos.x + clamp(dx, -ONE, ONE);
        self.pos.y = self.pos.y + clamp(dy, -ONE, ONE);
        self.angle = self.angle + SPIN_STEP;

        self.fire_bullet(pad, event_queue);

        if dx == 0 && dy == 0 {
            self.state = PlayerState::Captured;
            self.angle = 0;
        }
    }

    fn fire_bullet(&mut self, pad: &Pad, event_queue: &mut EventQueue)
        requires
            old(self).wf(),
        ensures
            *final(self) == *old(self),
            final(event_queue)@ == old(event_queue)@ + shot_spec(*old(self), *pad),
    {
        if pad.is_trigger(PadBit::A) {
            let pos = Vector2D { x: self.pos.x, y: self.pos.y + 2 * ONE };
            event_queue.push(EventType::MyShot(pos, self.dual, self.angle));
        }
        assert(event_queue@ =~= old(event_queue)@ + shot_spec(*old(self), *pad));
    }

    /// The sprites of the ship in its state, a rescued fighter's, then one
    /// icon per spare ship along the bottom.
    pub fn sprites(&self) -> (r: Vec<Sprite>)
        requires
            self.wf(),
        ensures
            r@ == fighter_player_sprites(*self),
    {
        let pos = self.pos();
        let base = Vector2D { x: pos.x - 8, y: pos.y - 8 };
        let mut v: Vec<Sprite> = Vec::new();
        match self.state {
            PlayerState::Normal | PlayerState::MoveHomePos | PlayerState::EscapeCapturing => {
                v.push(Sprite { name: SpriteName::Rustacean, pos: base, angle: None });
                if self.dual {
                    v.push(Sprite { name: SpriteName::Rustacean, pos: Vector2D { x: pos.x - 8 + 16, y: pos.y - 8 }, angle: None });
                }
            },
            PlayerState::Capturing => {
                let angle = calc_display_angle(crate::math::wrap_turn(self.angle));
                v.push(Sprite { name: SpriteName::Rustacean, pos: base, angle: Some(angle) });
            },
            PlayerState::Captured => {
                v.push(Sprite { name: SpriteName::RustaceanCaptured, pos: base, angle: None });
            },
            PlayerState::CaptureCompleted | PlayerState::Dead => {},
        }
        match &self.recaptured_fighter {
            Some(f) => f.push_sprites(&mut v),
            None => {},
        }
        let ghost head = v@;
        assert(head =~= ship_sprites(*self));
        if self.left_ship > 0 {
            let mut i: u32 = 0;
            while i < self.left_ship - 1
                invariant
                    0 < self.left_ship <= MAX_LEFT_SHIP,
                    i <= self.left_ship - 1,
                    v@ == head + Seq::new(i as nat, |k: int| icon(k)),
                decreases self.left_ship - i,
            {
                v.push(Sprite { name: SpriteName::Rustacean, pos: Vector2D { x: (i as i32) * 16, y: HEIGHT - 16 }, angle: None });
                i = i + 1;
                assert(v@ =~= head + Seq::new(i as nat, |k: int| icon(k)));
            }
        } else {
            assert(v@ =~= head + Seq::<Sprite>::empty());
        }
        v
    }

    /// Draws exactly `self.sprites()`.
    pub fn draw<R: Renderer>(&self, renderer: &mut R)
        requires
            self.wf(),
    {
        let v = self.sprites();
        draw_sprites(renderer, &v);
    }

    pub fn active(&self) -> (r: bool)
        ensures
            r == (self.state == PlayerState::Normal),
    {
        self.state == PlayerState::Normal
    }

    /// Position in display units.
    pub fn pos(&self) -> (r: Vec2I)
        ensures
            r == round_up_vec(self.pos),
    {
        round_up(&self.pos)
    }

    pub fn get_raw_pos(&self) -> (r: &Vec2I)
        ensures
            *r == self.pos,
    {
        &self.pos
    }

    /// Display position of the second ship.
    pub fn dual_pos(&self) -> (r: Option<Vec2I>)
        requires
            self.wf(),
        ensures
            r == if self.dual { Some(Vector2D { x: (round_up_vec(self.pos).x + 16) as i32, y: round_up_vec(self.pos).y }) } else { None::<Vec2I> },
    {
        if self.dual {
            let p = self.pos();
            Some(Vector2D { x: p.x + 16, y: p.y })
        } else {
            None
        }
    }

    pub fn dual_collbox(&self) -> (r: Option<CollBox>)
        requires
            self.wf(),
        ensures
            r == if self.dual && self.state == PlayerState::Normal {
                Some(CollBox {
                    top_left: Vector2D { x: (round_up_vec(self.pos).x + 8) as i32, y: (round_up_vec(self.pos).y - 8) as i32 },
                    size: Vector2D { x: 16, y: 16 },
                })
            } else {
                None::<CollBox>
            },
    {
        if self.dual && self.state == PlayerState::Normal {
            let p = self.pos();
            Some(CollBox { top_left: Vector2D { x: p.x + 8, y: p.y - 8 }, size: Vector2D { x: 16, y: 16 } })
        } else {
            None
        }
    }

    pub fn get_collbox(&self) -> (r: Option<CollBox>)
        requires
            self.wf(),
        ensures
            r == if self.state == PlayerState::Normal {
                Some(CollBox {
                    top_left: Vector2D { x: (round_up_vec(self.pos).x - 8) as i32, y: (round_up_vec(self.pos).y - 8) as i32 },
                    size: Vector2D { x: 16, y: 16 },
                })
            } else {
                None::<CollBox>
            },
    {
        if self.state == PlayerState::Normal {
            let p = self.pos();
            Some(CollBox { top_left: Vector2D { x: p.x - 8, y: p.y - 8 }, size: Vector2D { x: 16, y: 16 } })
        } else {
            None
        }
    }

    pub fn crash(&mut self, pos: &Vec2I) -> (r: bool)
        requires
            old(self).wf(),
        ensures
            final(self).wf(),
            r == !old(self).dual,
            old(self).dual ==> *final(self) == (Player {
                dual: false,
                pos: Vector2D {
                    x: if pos.x < old(self).pos.x + 8 * ONE {
                        (old(self).pos.x + 16 * ONE) as i32
                    } else {
                        old(self).pos.x
                    },
                    ..old(self).pos
                },
                ..*old(self)
            }),
            !old(self).dual ==> *final(self) == (Player { state: PlayerState::Dead, ..*old(self) }),
    {
        if self.dual {
            if pos.x < self.pos.x + 8 * ONE {
                // The left ship is lost: the right one takes its place.
                self.pos.x = self.pos.x + 16 * ONE;
            }
            self.dual = false;
            false
        } else {
            self.state = PlayerState::Dead;
            true
        }
    }

    /// Uses up a ship: false when none is left, else the next one starts.
    pub fn decrement_and_restart(&mut self) -> (r: bool)
        requires
            old(self).wf(),
            old(self).left_ship > 0,
        ensures
            final(self).wf(),
            r == (old(self).left_ship > 1),
            final(self).left_ship == old(self).left_ship - 1,
            r ==> *final(self) == (Player { state: PlayerState::Normal, pos: home_pos(), left_ship: (old(self).left_ship - 1) as u32, ..*old(self) }),
            !r ==> *final(self) == (Player { left_ship: 0, ..*old(self) }),
    {
        self.left_ship = self.left_ship - 1;
        if self.left_ship == 0 {
            false
        } else {
            self.restart();
            true
        }
    }

    pub fn start_capture(&mut self, capture_pos: &Vec2I)
        requires
            old(self).wf(),
            in_bounds(*capture_pos),
            capture_pos.x <= POS_BOUND - 16 * ONE,
        ensures
            final(self).wf(),
            *final(self) == (Player { state: PlayerState::Capturing, capture_pos: *capture_pos, angle: 0, ..*old(self) }),
    {
        self.state = PlayerState::Capturing;
        self.capture_pos = *capture_pos;
        self.angle = 0;
    }

    pub fn complete_capture(&mut self)
        ensures
            *final(self) == (Player { state: PlayerState::CaptureCompleted, ..*old(self) }),
    {
        self.state = PlayerState::CaptureCompleted;
    }

    pub fn start_recapture_effect(&mut self, pos: &Vec2I)
        requires
            old(self).wf(),
            in_bounds(*pos),
        ensures
            final(self).wf(),
            *final(self) == (Player { recaptured_fighter: Some(RecapturedFighter { pos: *pos, done: false }), ..*old(self) }),
    {
        self.recaptured_fighter = Some(RecapturedFighter::new(pos));
    }

    pub fn start_move_home_pos(&mut self)
        ensures
            old(self).state != PlayerState::Dead ==> *final(self) == (Player { state: PlayerState::MoveHomePos, ..*old(self) }),
            old(self).state == PlayerState::Dead ==> *final(self) == *old(self),
    {
        if self.state != PlayerState::Dead {
            self.state = PlayerState::MoveHomePos;
        }
    }
}

} // verus!
