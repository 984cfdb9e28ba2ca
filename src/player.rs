use vstd::prelude::*;
use crate::collision::CollBox;
use crate::consts::{POS_BOUND, WIDTH};
use crate::event_queue::{EventQueue, EventType};
use crate::math::{clamp, clamp_spec, facing_of, quantize_angle, round_up, round_up_vec, wrap_turn, FULL_TURN, ONE};
use crate::pad::{Pad, PadBit};
use crate::recaptured_fighter::{approach, fighter_next, fighter_sprite, fighter_target, in_bounds, RecapturedFighter, Y_POSITION};
use crate::render::{draw_sprites, Renderer, Sprite, SpriteName};
use crate::types::{Vector2D, Vec2I};

verus! {

/// Horizontal speed of the ship, in fixed point per frame.
pub const PLAYER_SPEED: i32 = 512;
/// Number of facings the spinning ship is drawn with while being pulled in.
pub const ANGLE_DIV: i32 = 16;
/// Largest angle from which the spin can take another step without leaving
/// `i32` (`i32::MAX - FULL_TURN / ANGLE_DIV`).
pub const MAX_SPIN_ANGLE: i32 = 2147479551;

#[derive(Clone, Copy, Debug, PartialEq, Eq, Structural)]
pub enum PlayerState {
    Normal,
    Dead,
    Capturing,
    Captured,
    CaptureCompleted,
    EscapeCapturing,
    MoveHomePos,
}

/// The player's ship, and its side of the capture protocol.
pub struct Player {
    pub pos: Vec2I,
    pub state: PlayerState,
    pub dual: bool,
    pub angle: i32,
    pub capture_pos: Vec2I,
    pub recaptured_fighter: Option<RecapturedFighter>,
    pub shot_enable: bool,
}

pub open spec fn home_pos() -> Vec2I {
    Vector2D { x: (WIDTH / 2 * ONE) as i32, y: (Y_POSITION * ONE) as i32 }
}

/// Shot fired this frame, if the trigger went down and shooting is enabled.
pub open spec fn fire_spec(p: Player, pad: Pad) -> Seq<EventType> {
    if p.shot_enable && pad.triggered(PadBit::A) {
        seq![EventType::MyShot(Vector2D { x: p.pos.x, y: (p.pos.y - 4 * ONE) as i32 }, p.dual, p.angle)]
    } else {
        seq![]
    }
}

/// Horizontal position after the left and right buttons were read.
pub open spec fn steer_x(x: int, dual: bool, pad: Pad) -> int {
    let x1 = if pad.held(PadBit::L) {
        if x - PLAYER_SPEED < 8 * ONE { 8 * ONE } else { x - PLAYER_SPEED }
    } else {
        x
    };
    let right: int = if dual { (WIDTH - 8 - 16) * ONE } else { (WIDTH - 8) * ONE };
    if pad.held(PadBit::R) {
        if x1 + PLAYER_SPEED > right { right } else { x1 + PLAYER_SPEED }
    } else {
        x1
    }
}

/// What the ship draws: by state, its sprite (two side by side for a dual
/// ship, the spinning facing while pulled in, the captured look once caught,
/// nothing when dead or taken away), then a rescued fighter's sprite.
pub open spec fn player_sprites(p: Player) -> Seq<Sprite> {
    let d = round_up_vec(p.pos);
    let base = Vector2D { x: (d.x - 8) as i32, y: (d.y - 8) as i32 };
    let ship = match p.state {
        PlayerState::Normal | PlayerState::EscapeCapturing | PlayerState::MoveHomePos => {
            let one = seq![Sprite { name: SpriteName::Rustacean, pos: base, angle: None }];
            if p.dual {
                one.push(Sprite { name: SpriteName::Rustacean, pos: Vector2D { x: (d.x + 8) as i32, y: (d.y - 8) as i32 }, angle: None })
            } else {
                one
            }
        },
        PlayerState::Capturing => seq![Sprite {
            name: SpriteName::Rustacean,
            pos: base,
            angle: Some((facing_of((p.angle as int) % (FULL_TURN as int), ANGLE_DIV as int) * 4096) as i32),
        }],
        PlayerState::Captured => seq![Sprite { name: SpriteName::RustaceanCaptured, pos: base, angle: None }],
        _ => seq![],
    };
    match p.recaptured_fighter {
        Some(f) => ship.push(fighter_sprite(f)),
        None => ship,
    }
}

impl Player {
    pub open spec fn wf(&self) -> bool {
        &&& in_bounds(self.pos)
        &&& in_bounds(self.capture_pos)
        &&& 0 <= self.angle
        &&& (self.dual ==> self.pos.x <= POS_BOUND - 16 * ONE)
        &&& self.capture_pos.x <= POS_BOUND - 16 * ONE
        &&& (self.recaptured_fighter matches Some(f) ==> f.wf())
    }

    pub fn new() -> (r: Self)
        ensures
            r.wf(),
            r.pos == home_pos(),
            r.state == PlayerState::Normal,
            !r.dual,
            r.angle == 0,
            r.recaptured_fighter is None,
            r.shot_enable,
    {
        Player {
            pos: Vector2D { x: WIDTH / 2 * ONE, y: Y_POSITION * ONE },
            state: PlayerState::Normal,
            dual: false,
            angle: 0,
            capture_pos: Vector2D { x: 0, y: 0 },
            recaptured_fighter: None,
            shot_enable: true,
        }
    }

    pub fn restart(&mut self)
        requires
            old(self).wf(),
        ensures
            final(self).wf(),
            *final(self) == (Player { state: PlayerState::Normal, pos: home_pos(), ..*old(self) }),
    {
        self.state = PlayerState::Normal;
        self.pos = Vector2D { x: WIDTH / 2 * ONE, y: Y_POSITION * ONE };
    }

    pub fn set_shot_enable(&mut self, value: bool)
        ensures
            *final(self) == (Player { shot_enable: value, ..*old(self) }),
    {
        self.shot_enable = value;
    }

    /// One frame of the ship. The state decides what moves; a rescued fighter,
    /// if any, then flies on, and once it has landed beside a dead player the
    /// player comes back at the centre of its row.
    pub fn update(&mut self, pad: &Pad, event_queue: &mut EventQueue)
        requires
            old(self).wf(),
            old(self).state == PlayerState::Capturing ==> old(self).angle <= MAX_SPIN_ANGLE,
        ensures
            final(event_queue)@.len() >= old(event_queue)@.len(),
            final(event_queue)@.subrange(0, old(event_queue)@.len() as int) == old(event_queue)@,
            final(self).wf(),
            final(self).dual == (old(self).dual || (old(self).state == PlayerState::MoveHomePos
                && final(self).state == PlayerState::Normal)),
            old(self).state == PlayerState::Normal ==> {
                &&& final(self).pos == (Vector2D { x: steer_x(old(self).pos.x as int, old(self).dual, *pad) as i32, ..old(self).pos })
                &&& final(event_queue)@ == old(event_queue)@ + fire_spec(Player { pos: final(self).pos, ..*old(self) }, *pad)
                &&& final(self).state == PlayerState::Normal
            },
            old(self).state == PlayerState::EscapeCapturing ==> {
                &&& final(self).pos.x == old(self).pos.x
                &&& final(self).pos.y == if old(self).pos.y + ONE >= Y_POSITION * ONE { Y_POSITION * ONE } else { old(self).pos.y + ONE }
                &&& final(self).state == if old(self).pos.y + ONE >= Y_POSITION * ONE { PlayerState::Normal } else { PlayerState::EscapeCapturing }
                &&& final(event_queue)@ == old(event_queue)@ + if old(self).pos.y + ONE >= Y_POSITION * ONE { seq![EventType::EscapeEnded] } else { seq![] }
            },
            old(self).state == PlayerState::Capturing ==> {
                &&& final(self).angle == if old(self).pos == old(self).capture_pos { 0 } else { old(self).angle + FULL_TURN / ANGLE_DIV }
                &&& final(event_queue)@ == old(event_queue)@ + fire_spec(Player {
                    pos: final(self).pos,
                    angle: (old(self).angle + FULL_TURN / ANGLE_DIV) as i32,
                    ..*old(self)
                }, *pad)
                &&& final(self).pos.x == approach(old(self).pos.x as int, old(self).capture_pos.x as int, ONE as int)
                &&& final(self).pos.y == approach(old(self).pos.y as int, old(self).capture_pos.y as int, ONE as int)
                &&& final(self).state == if old(self).pos == old(self).capture_pos { PlayerState::Captured } else { PlayerState::Capturing }
            },
            old(self).state == PlayerState::Dead && old(self).recaptured_fighter is None ==> {
                &&& *final(self) == *old(self)
                &&& final(event_queue)@ == old(event_queue)@
            },
            (old(self).state == PlayerState::Captured || old(self).state == PlayerState::CaptureCompleted) ==> {
                &&& final(self).pos == old(self).pos
                &&& final(self).state == old(self).state
                &&& final(event_queue)@ == old(event_queue)@
            },
            old(self).state != PlayerState::MoveHomePos && old(self).state != PlayerState::Dead ==> {
                final(self).recaptured_fighter == match old(self).recaptured_fighter {
                    Some(f) => Some(fighter_next(f, true)),
                    None => None::<RecapturedFighter>,
                }
            },
            old(self).state == PlayerState::MoveHomePos ==> ({
                let hx: int = (WIDTH / 2 - 8) * ONE;
                let x1 = approach(old(self).pos.x as int, hx, 2 * ONE);
                let landed = match old(self).recaptured_fighter { Some(f) => f.done, None => true };
                if x1 == hx && landed {
                    &&& final(self).dual
                    &&& final(self).state == PlayerState::Normal
                    &&& final(self).recaptured_fighter is None
                    &&& final(self).pos == (Vector2D { x: x1 as i32, ..old(self).pos })
                    &&& final(event_queue)@ == old(event_queue)@.push(EventType::RecaptureEnded)
                } else {
                    &&& final(self).state == PlayerState::MoveHomePos
                    &&& final(self).dual == old(self).dual
                    &&& final(self).pos == (Vector2D { x: x1 as i32, ..old(self).pos })
                    &&& final(self).recaptured_fighter == match old(self).recaptured_fighter {
                        Some(f) => Some(fighter_next(f, true)),
                        None => None::<RecapturedFighter>,
                    }
                    &&& final(event_queue)@ == old(event_queue)@
                }
            }),
            old(self).state == PlayerState::Dead && old(self).recaptured_fighter is Some ==> ({
                let f1 = fighter_next(old(self).recaptured_fighter.unwrap(), false);
                if f1.done {
                    &&& final(self).pos == (Vector2D { x: (WIDTH / 2 * ONE) as i32, ..old(self).pos })
                    &&& final(self).state == PlayerState::Normal
                    &&& final(self).recaptured_fighter is None
                    &&& final(event_queue)@ == old(event_queue)@.push(EventType::RecaptureEnded)
                } else {
                    &&& final(self).pos == old(self).pos
                    &&& final(self).state == PlayerState::Dead
                    &&& final(self).recaptured_fighter == Some(f1)
                    &&& final(event_queue)@ == old(event_queue)@
                }
            }),
            old(self).recaptured_fighter is None ==> final(self).recaptured_fighter is None,
    {
        let ghost q0 = event_queue@;
        match self.state {
            PlayerState::Normal => {
                self.update_normal(pad, event_queue);
            },
            PlayerState::Capturing => {
                self.update_capture(pad, event_queue);
            },
            PlayerState::EscapeCapturing => {
                self.pos.y = self.pos.y + ONE;
                if self.pos.y >= Y_POSITION * ONE {
                    self.pos.y = Y_POSITION * ONE;
                    self.state = PlayerState::Normal;
                    event_queue.push(EventType::EscapeEnded);
                }
                assert(event_queue@ =~= q0 + if old(self).pos.y + ONE >= Y_POSITION * ONE { seq![EventType::EscapeEnded] } else { seq![] });
            },
            PlayerState::MoveHomePos => {
                let x: i32 = (WIDTH / 2 - 8) * ONE;
                let speed: i32 = 2 * ONE;
                self.pos.x = self.pos.x + clamp(x - self.pos.x, -speed, speed);
                if self.pos.x == x {
                    let landed = match &self.recaptured_fighter {
                        Some(f) => f.done,
                        None => true,
                    };
                    if landed {
                        self.dual = true;
                        self.state = PlayerState::Normal;
                        self.recaptured_fighter = None;
                        event_queue.push(EventType::RecaptureEnded);
                    }
                }
            },
            PlayerState::Dead | PlayerState::Captured | PlayerState::CaptureCompleted => {},
        }
        let living = self.state != PlayerState::Dead;
        let mut landed_dead = false;
        match &mut self.recaptured_fighter {
            Some(f) => {
                f.update(living);
                landed_dead = !living && f.done;
            },
            None => {},
        }
        if landed_dead {
            self.pos.x = WIDTH / 2 * ONE;
            self.state = PlayerState::Normal;
            self.recaptured_fighter = None;
            event_queue.push(EventType::RecaptureEnded);
        }
    }

    /// Steers with the left and right buttons, then fires if asked.
    pub fn update_normal(&mut self, pad: &Pad, event_queue: &mut EventQueue)
        requires
            old(self).wf(),
        ensures
            final(self).wf(),
            *final(self) == (Player {
                pos: Vector2D { x: steer_x(old(self).pos.x as int, old(self).dual, *pad) as i32, ..old(self).pos },
                ..*old(self)
            }),
            final(event_queue)@ == old(event_queue)@ + fire_spec(*final(self), *pad),
    {
        if pad.is_pressed(PadBit::L) {
            self.pos.x = self.pos.x - PLAYER_SPEED;
            let left: i32 = 8 * ONE;
            if self.pos.x < left {
                self.pos.x = left;
            }
        }
        if pad.is_pressed(PadBit::R) {
            self.pos.x = self.pos.x + PLAYER_SPEED;
            let right: i32 = if self.dual { (WIDTH - 8 - 16) * ONE } else { (WIDTH - 8) * ONE };
            if self.pos.x > right {
                self.pos.x = right;
            }
        }
        self.fire_bullet(pad, event_queue);
    }

    /// Being pulled in: move one unit per axis toward the capture point while
    /// spinning; on arrival the ship is captured and stops spinning.
    pub fn update_capture(&mut self, pad: &Pad, event_queue: &mut EventQueue)
        requires
            old(self).wf(),
            old(self).angle <= MAX_SPIN_ANGLE,
        ensures
            final(self).wf(),
            final(self).pos.x == approach(old(self).pos.x as int, old(self).capture_pos.x as int, ONE as int),
            final(self).pos.y == approach(old(self).pos.y as int, old(self).capture_pos.y as int, ONE as int),
            old(self).pos == old(self).capture_pos ==> final(self).state == PlayerState::Captured && final(self).angle == 0,
            old(self).pos != old(self).capture_pos ==> final(self).state == old(self).state
                && final(self).angle == old(self).angle + FULL_TURN / ANGLE_DIV,
            final(self).dual == old(self).dual,
            final(self).capture_pos == old(self).capture_pos,
            final(self).recaptured_fighter == old(self).recaptured_fighter,
            final(self).shot_enable == old(self).shot_enable,
            final(event_queue)@ == old(event_queue)@ + fire_spec(Player { pos: final(self).pos, angle: (old(self).angle + FULL_TURN / ANGLE_DIV) as i32, ..*old(self) }, *pad),
    {
        let d: i32 = ONE;
        let dx: i32 = self.capture_pos.x - self.pos.x;
        let dy: i32 = self.capture_pos.y - self.pos.y;
        self.pos.x = self.pos.x + clamp(dx, -d, d);
        self.pos.y = self.pos.y + clamp(dy, -d, d);
        self.angle = self.angle + FULL_TURN / ANGLE_DIV;

        self.fire_bullet(pad, event_queue);

        if dx == 0 && dy == 0 {
            self.state = PlayerState::Captured;
            self.angle = 0;
        }
    }

    fn fire_bullet(&mut self, pad: &Pad, event_queue: &mut EventQueue)
        requires
            old(self).wf(),
        ensures
            *final(self) == *old(self),
            final(event_queue)@ == old(event_queue)@ + fire_spec(*old(self), *pad),
    {
        if self.shot_enable && pad.is_trigger(PadBit::A) {
            let pos = Vector2D { x: self.pos.x, y: self.pos.y - 4 * ONE };
            event_queue.push(EventType::MyShot(pos, self.dual, self.angle));
        }
        assert(event_queue@ =~= old(event_queue)@ + fire_spec(*old(self), *pad));
    }

    /// The sprites of the ship in its state, then of a rescued fighter.
    pub fn sprites(&self) -> (r: Vec<Sprite>)
        requires
            self.wf(),
        ensures
            r@ == player_sprites(*self),
    {
        let pos = self.pos();
        let base = Vector2D { x: pos.x - 8, y: pos.y - 8 };
        let mut v: Vec<Sprite> = Vec::new();
        match self.state {
            PlayerState::Normal | PlayerState::EscapeCapturing | PlayerState::MoveHomePos => {
                v.push(Sprite { name: SpriteName::Rustacean, pos: base, angle: None });
                if self.dual {
                    v.push(Sprite { name: SpriteName::Rustacean, pos: Vector2D { x: pos.x - 8 + 16, y: pos.y - 8 }, angle: None });
                }
            },
            PlayerState::Capturing => {
                let facing = quantize_angle(wrap_turn(self.angle), ANGLE_DIV);
                let step: i32 = FULL_TURN / ANGLE_DIV;
                assert(step == 4096);
                v.push(Sprite { name: SpriteName::Rustacean, pos: base, angle: Some(facing * step) });
            },
            PlayerState::Captured => {
                v.push(Sprite { name: SpriteName::RustaceanCaptured, pos: base, angle: None });
            },
            PlayerState::CaptureCompleted | PlayerState::Dead => {},
        }
        match &self.recaptured_fighter {
            Some(f) => f.push_sprites(&mut v),
            None => {},
        }
        assert(v@ =~= player_sprites(*self));
        v
    }

    /// Draws exactly `self.sprites()`.
    pub fn draw<R: Renderer>(&self, renderer: &mut R)
        requires
            self.wf(),
    {
        let v = self.sprites();
        draw_sprites(renderer, &v);
    }

    pub fn active(&self) -> (r: bool)
        ensures
            r == (self.state == PlayerState::Normal),
    {
        self.state == PlayerState::Normal
    }

    /// Position in display units.
    fn pos(&self) -> (r: Vec2I)
        ensures
            r == round_up_vec(self.pos),
    {
        round_up(&self.pos)
    }

    pub fn raw_pos(&self) -> (r: &Vec2I)
        ensures
            *r == self.pos,
    {
        &self.pos
    }

    /// Fixed-point position of the second ship, which flies on the right.
    pub fn dual_pos(&self) -> (r: Option<Vec2I>)
        requires
            self.wf(),
        ensures
            r == if self.dual { Some(Vector2D { x: (self.pos.x + 16 * ONE) as i32, y: self.pos.y }) } else { None::<Vec2I> },
    {
        if self.dual {
            Some(Vector2D { x: self.pos.x + 16 * ONE, y: self.pos.y })
        } else {
            None
        }
    }

    pub fn is_dual(&self) -> (r: bool)
        ensures
            r == self.dual,
    {
        self.dual
    }

    pub fn dual_collbox(&self) -> (r: Option<CollBox>)
        requires
            self.wf(),
        ensures
            r == if self.dual && self.state == PlayerState::Normal {
                Some(CollBox {
                    top_left: Vector2D { x: (round_up_vec(self.pos).x - 4 + 16) as i32, y: (round_up_vec(self.pos).y - 4) as i32 },
                    size: Vector2D { x: 8, y: 8 },
                })
            } else {
                None::<CollBox>
            },
    {
        if self.dual && self.state == PlayerState::Normal {
            let p = self.pos();
            Some(CollBox { top_left: Vector2D { x: p.x - 4 + 16, y: p.y - 4 }, size: Vector2D { x: 8, y: 8 } })
        } else {
            None
        }
    }

    /// The box enemies and their shots hit, while the ship is in play.
    pub fn get_collbox(&self) -> (r: Option<CollBox>)
        requires
            self.wf(),
        ensures
            r == if self.state == PlayerState::Normal {
                Some(CollBox {
                    top_left: Vector2D { x: (round_up_vec(self.pos).x - 4) as i32, y: (round_up_vec(self.pos).y - 4) as i32 },
                    size: Vector2D { x: 8, y: 8 },
                })
            } else {
                None::<CollBox>
            },
    {
        if self.state == PlayerState::Normal {
            let p = self.pos();
            Some(CollBox { top_left: Vector2D { x: p.x - 4, y: p.y - 4 }, size: Vector2D { x: 8, y: 8 } })
        } else {
            None
        }
    }

    /// A hit at `pos`. A dual ship loses the half that was hit and survives
    /// (false); a single ship dies (true).
    pub fn crash(&mut self, pos: &Vec2I) -> (r: bool)
        requires
            old(self).wf(),
        ensures
            final(self).wf(),
            r == !old(self).dual,
            old(self).dual ==> *final(self) == (Player {
                dual: false,
                pos: Vector2D {
                    x: if pos.x < old(self).pos.x + 8 * ONE {
                        (old(self).pos.x + 16 * ONE) as i32
                    } else {
                        old(self).pos.x
                    },
                    ..old(self).pos
                },
                ..*old(self)
            }),
            !old(self).dual ==> *final(self) == (Player { state: PlayerState::Dead, ..*old(self) }),
    {
        if self.dual {
            if pos.x < self.pos.x + 8 * ONE {
                // The left ship is lost: the right one takes its place.
                self.pos.x = self.pos.x + 16 * ONE;
            }
            self.dual = false;
            false
        } else {
            self.state = PlayerState::Dead;
            true
        }
    }

    pub fn start_capture(&mut self, capture_pos: &Vec2I)
        requires
            old(self).wf(),
            in_bounds(*capture_pos),
            capture_pos.x <= POS_BOUND - 16 * ONE,
        ensures
            final(self).wf(),
            *final(self) == (Player { state: PlayerState::Capturing, capture_pos: *capture_pos, angle: 0, ..*old(self) }),
    {
        self.state = PlayerState::Capturing;
        self.capture_pos = *capture_pos;
        self.angle = 0;
    }

    pub fn is_captured(&self) -> (r: bool)
        ensures
            r == (self.state == PlayerState::Captured),
    {
        self.state == PlayerState::Captured
    }

    pub fn complete_capture(&mut self)
        ensures
            *final(self) == (Player { state: PlayerState::CaptureCompleted, ..*old(self) }),
    {
        self.state = PlayerState::CaptureCompleted;
    }

    pub fn escape_capturing(&mut self)
        ensures
            *final(self) == (Player { state: PlayerState::EscapeCapturing, angle: 0, ..*old(self) }),
    {
        self.state = PlayerState::EscapeCapturing;
        self.angle = 0;
    }

    pub fn start_recapture_effect(&mut self, pos: &Vec2I)
        requires
            old(self).wf(),
            in_bounds(*pos),
        ensures
            final(self).wf(),
            *final(self) == (Player { recaptured_fighter: Some(RecapturedFighter { pos: *pos, done: false }), ..*old(self) }),
    {
        self.recaptured_fighter = Some(RecapturedFighter::new(pos));
    }

    pub fn start_move_home_pos(&mut self)
        ensures
            old(self).state != PlayerState::Dead ==> *final(self) == (Player { state: PlayerState::MoveHomePos, ..*old(self) }),
            old(self).state == PlayerState::Dead ==> *final(self) == *old(self),
    {
        if self.state != PlayerState::Dead {
            self.state = PlayerState::MoveHomePos;
        }
    }
}

} // verus!
