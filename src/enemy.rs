use vstd::prelude::*;
use crate::capture::{BeamPhase, CaptureState};
use crate::collision::CollBox;
use crate::event_queue::{EnemyType, EventQueue, EventType};
use crate::formation::{formation_pos, position_for, FormationIndex};
use crate::math::{round_up, round_up_vec, ONE};
use crate::recaptured_fighter::in_bounds;
use crate::render::{draw_sprites, Renderer, Sprite, SpriteName};
use crate::scripts::{script, script_of, TrajId};
use crate::traj::{step_spec, TrajCursor};
use crate::types::{Vector2D, Vec2I};

verus! {

/// Beam growth per frame, and its full length, in fixed point.
pub const BEAM_SPEED: i32 = 512;
pub const BEAM_MAX: i32 = 12288;
/// Frames the full beam waits for the player.
pub const HOLD_FRAMES: u32 = 120;
/// Horizontal reach of the beam on each side of the enemy, in fixed point.
pub const BEAM_HALF_WIDTH: i32 = 6144;
/// How far below the enemy a captured ship is held, in fixed point.
pub const CAPTURE_DY: i32 = 4096;

/// Life cycle of an enemy, apart from its destruction, which frees its slot.
#[derive(Clone, Copy, Debug, PartialEq, Eq, Structural)]
pub enum EnemyState {
    Appearing,
    InFormation,
    Attacking,
    CaptureAttacking,
    CaptureSequenceActive,
}

/// One enemy: its place in the formation, its kind, how it moves now, and its
/// part in a capture.
#[derive(Clone, Copy, Debug, PartialEq, Eq, Structural)]
pub struct Enemy {
    pub pos: Vec2I,
    pub slot: FormationIndex,
    pub enemy_type: EnemyType,
    pub state: EnemyState,
    pub life: u32,
    pub traj_id: TrajId,
    pub traj: TrajCursor,
    pub capture_state: CaptureState,
    pub beam: BeamPhase,
    pub beam_len: i32,
    pub beam_timer: u32,
}

pub open spec fn life_of(t: EnemyType) -> u32 {
    match t {
        EnemyType::Owl => 2,
        _ => 1,
    }
}

/// A new enemy of kind `t` for `slot`, about to fly in from `pos`.
pub open spec fn new_enemy(t: EnemyType, slot: FormationIndex, pos: Vec2I) -> Enemy {
    Enemy {
        pos,
        slot,
        enemy_type: t,
        state: EnemyState::Appearing,
        life: life_of(t),
        traj_id: TrajId::Entry,
        traj: TrajCursor { pc: 0, delay: 0, in_loop: false, loop_left: 0, pos, speed: 0, angle: 0, vangle: 0, finished: false },
        capture_state: CaptureState::NoCapture,
        beam: BeamPhase::Extending,
        beam_len: 0,
        beam_timer: 0,
    }
}

/// Where a ship caught by the beam of an enemy at `pos` is pulled to.
pub open spec fn capture_pos(pos: Vec2I) -> Vec2I {
    Vector2D { x: pos.x, y: (pos.y + CAPTURE_DY) as i32 }
}

/// The tracked ship is under the beam: in its lane, and below the enemy.
pub open spec fn under_beam(pos: Vec2I, target: Option<Vec2I>) -> bool {
    match target {
        Some(p) => -BEAM_HALF_WIDTH <= p.x - pos.x <= BEAM_HALF_WIDTH && p.y > pos.y,
        None => false,
    }
}

/// The tractor beam's frame: grow, wait for the ship, pull it in, or retract.
pub open spec fn beam_next(e: Enemy, home: Vec2I, target: Option<Vec2I>) -> Enemy {
    match e.beam {
        BeamPhase::Extending => if e.beam_len + BEAM_SPEED >= BEAM_MAX {
            Enemy { beam_len: BEAM_MAX, beam: BeamPhase::Holding, beam_timer: HOLD_FRAMES, ..e }
        } else {
            Enemy { beam_len: (e.beam_len + BEAM_SPEED) as i32, ..e }
        },
        BeamPhase::Holding => if under_beam(e.pos, target) {
            Enemy { beam: BeamPhase::Pulling, ..e }
        } else if e.beam_timer == 0 {
            Enemy { beam: BeamPhase::Retracting, ..e }
        } else {
            Enemy { beam_timer: (e.beam_timer - 1) as u32, ..e }
        },
        BeamPhase::Pulling => match target {
            None => Enemy { beam: BeamPhase::Retracting, ..e },
            Some(p) => if p == capture_pos(e.pos) {
                Enemy { state: EnemyState::InFormation, capture_state: CaptureState::Captured, beam_len: 0, pos: home, ..e }
            } else {
                e
            },
        },
        BeamPhase::Retracting => if e.beam_len <= BEAM_SPEED {
            Enemy { state: EnemyState::InFormation, capture_state: CaptureState::NoCapture, beam_len: 0, pos: home, ..e }
        } else {
            Enemy { beam_len: (e.beam_len - BEAM_SPEED) as i32, ..e }
        },
    }
}

pub open spec fn beam_events(e: Enemy, target: Option<Vec2I>) -> Seq<EventType> {
    match e.beam {
        BeamPhase::Holding => if under_beam(e.pos, target) {
            seq![EventType::CapturePlayer(capture_pos(e.pos))]
        } else {
            seq![]
        },
        BeamPhase::Pulling => match target {
            Some(p) => if p == capture_pos(e.pos) { seq![EventType::CapturePlayerCompleted] } else { seq![] },
            None => seq![],
        },
        BeamPhase::Retracting => if e.beam_len <= BEAM_SPEED { seq![EventType::EndCaptureAttack] } else { seq![] },
        BeamPhase::Extending => seq![],
    }
}

/// The enemy after one frame at formation phase `phase`, with `target` the
/// position of the ship the beam can catch, if any.
pub open spec fn enemy_next(e: Enemy, phase: u32, target: Option<Vec2I>) -> Enemy {
    let home = formation_pos(e.slot, phase as nat);
    let c = step_spec(script_of(e.traj_id), e.traj);
    match e.state {
        EnemyState::InFormation => Enemy { pos: home, ..e },
        EnemyState::Appearing | EnemyState::Attacking => if c.finished {
            Enemy { traj: c, pos: home, state: EnemyState::InFormation, ..e }
        } else {
            Enemy { traj: c, pos: c.pos, ..e }
        },
        EnemyState::CaptureAttacking => if c.finished {
            Enemy {
                traj: c,
                pos: c.pos,
                state: EnemyState::CaptureSequenceActive,
                capture_state: CaptureState::Capturing,
                beam: BeamPhase::Extending,
                beam_len: 0,
                ..e
            }
        } else {
            Enemy { traj: c, pos: c.pos, ..e }
        },
        EnemyState::CaptureSequenceActive => beam_next(e, home, target),
    }
}

/// The events an enemy pushes in one frame.
pub open spec fn enemy_events(e: Enemy, target: Option<Vec2I>) -> Seq<EventType> {
    if e.state == EnemyState::CaptureSequenceActive {
        beam_events(e, target)
    } else {
        seq![]
    }
}

impl Enemy {
    pub open spec fn wf(&self) -> bool {
        &&& in_bounds(self.pos)
        &&& self.slot.valid()
        &&& self.traj.wf(script_of(self.traj_id))
        &&& 0 <= self.beam_len <= BEAM_MAX
    }

    /// A new enemy of kind `enemy_type` for `slot`, flying in from `pos`.
    pub fn new(enemy_type: EnemyType, slot: FormationIndex, pos: Vec2I) -> (r: Self)
        requires
            slot.valid(),
            in_bounds(pos),
        ensures
            r.wf(),
            r == new_enemy(enemy_type, slot, pos),
    {
        let life: u32 = match enemy_type {
            EnemyType::Owl => 2,
            _ => 1,
        };
        Enemy {
            pos,
            slot,
            enemy_type,
            state: EnemyState::Appearing,
            life,
            traj_id: TrajId::Entry,
            traj: TrajCursor::new(pos),
            capture_state: CaptureState::NoCapture,
            beam: BeamPhase::Extending,
            beam_len: 0,
            beam_timer: 0,
        }
    }

    /// Leaves the formation on script `traj_id`; a capture attack when
    /// `capture` holds.
    pub fn start_attack(&mut self, traj_id: TrajId, capture: bool)
        requires
            old(self).wf(),
        ensures
            final(self).wf(),
            *final(self) == (Enemy {
                state: if capture { EnemyState::CaptureAttacking } else { EnemyState::Attacking },
                capture_state: if capture { CaptureState::CaptureAttacking } else { old(self).capture_state },
                traj_id,
                traj: TrajCursor { pc: 0, delay: 0, in_loop: false, loop_left: 0, pos: old(self).pos, speed: 0, angle: 0, vangle: 0, finished: false },
                ..*old(self)
            }),
    {
        self.state = if capture { EnemyState::CaptureAttacking } else { EnemyState::Attacking };
        if capture {
            self.capture_state = CaptureState::CaptureAttacking;
        }
        self.traj_id = traj_id;
        self.traj = TrajCursor::new(self.pos);
    }

    fn update_beam(&mut self, home: Vec2I, target: Option<Vec2I>, event_queue: &mut EventQueue)
        requires
            old(self).wf(),
            old(self).state == EnemyState::CaptureSequenceActive,
            in_bounds(home),
            target matches Some(p) ==> in_bounds(p),
        ensures
            final(self).wf(),
            *final(self) == beam_next(*old(self), home, target),
            final(event_queue)@ == old(event_queue)@ + beam_events(*old(self), target),
    {
        let ghost q0 = event_queue@;
        match self.beam {
            BeamPhase::Extending => {
                if self.beam_len + BEAM_SPEED >= BEAM_MAX {
                    self.beam_len = BEAM_MAX;
                    self.beam = BeamPhase::Holding;
                    self.beam_timer = HOLD_FRAMES;
                } else {
                    self.beam_len = self.beam_len + BEAM_SPEED;
                }
            },
            BeamPhase::Holding => {
                let under = match target {
                    Some(p) => {
                        let dx: i32 = p.x - self.pos.x;
                        -BEAM_HALF_WIDTH <= dx && dx <= BEAM_HALF_WIDTH && p.y > self.pos.y
                    },
                    None => false,
                };
                if under {
                    self.beam = BeamPhase::Pulling;
                    event_queue.push(EventType::CapturePlayer(Vector2D { x: self.pos.x, y: self.pos.y + CAPTURE_DY }));
                } else if self.beam_timer == 0 {
                    self.beam = BeamPhase::Retracting;
                } else {
                    self.beam_timer = self.beam_timer - 1;
                }
            },
            BeamPhase::Pulling => {
                match target {
                    None => {
                        self.beam = BeamPhase::Retracting;
                    },
                    Some(p) => {
                        if p.x == self.pos.x && p.y == self.pos.y + CAPTURE_DY {
                            self.state = EnemyState::InFormation;
                            self.capture_state = CaptureState::Captured;
                            self.beam_len = 0;
                            self.pos = home;
                            event_queue.push(EventType::CapturePlayerCompleted);
                        }
                    },
                }
            },
            BeamPhase::Retracting => {
                if self.beam_len <= BEAM_SPEED {
                    self.state = EnemyState::InFormation;
                    self.capture_state = CaptureState::NoCapture;
                    self.beam_len = 0;
                    self.pos = home;
                    event_queue.push(EventType::EndCaptureAttack);
                } else {
                    self.beam_len = self.beam_len - BEAM_SPEED;
                }
            },
        }
        assert(event_queue@ =~= q0 + beam_events(*old(self), target));
    }

    /// One frame: in formation the enemy sits at its slot's home position;
    /// flying in or attacking it follows its script and joins the formation
    /// when the script ends; a capture dive ends in the beam sequence.
    pub fn update(&mut self, phase: u32, target: Option<Vec2I>, event_queue: &mut EventQueue)
        requires
            old(self).wf(),
            target matches Some(p) ==> in_bounds(p),
        ensures
            final(self).wf(),
            *final(self) == enemy_next(*old(self), phase, target),
            final(event_queue)@ == old(event_queue)@ + enemy_events(*old(self), target),
    {
        let home = position_for(&self.slot, phase);
        match self.state {
            EnemyState::InFormation => {
                self.pos = home;
            },
            EnemyState::Appearing | EnemyState::Attacking => {
                let s = script(self.traj_id);
                let finished = self.traj.step(&s);
                if finished {
                    self.pos = home;
                    self.state = EnemyState::InFormation;
                } else {
                    self.pos = self.traj.pos;
                }
            },
            EnemyState::CaptureAttacking => {
                let s = script(self.traj_id);
                let finished = self.traj.step(&s);
                self.pos = self.traj.pos;
                if finished {
                    self.state = EnemyState::CaptureSequenceActive;
                    self.capture_state = CaptureState::Capturing;
                    self.beam = BeamPhase::Extending;
                    self.beam_len = 0;
                }
            },
            EnemyState::CaptureSequenceActive => {
                self.update_beam(home, target, event_queue);
            },
        }
        assert(old(self).state != EnemyState::CaptureSequenceActive ==> event_queue@ =~= old(event_queue)@ + enemy_events(*old(self), target));
    }

    /// Takes a hit of strength `power`; true when it destroys the enemy.
    pub fn set_damage(&mut self, power: u32) -> (destroyed: bool)
        ensures
            destroyed == (power >= old(self).life),
            *final(self) == (Enemy { life: if destroyed { 0 } else { (old(self).life - power) as u32 }, ..*old(self) }),
    {
        if power >= self.life {
            self.life = 0;
            true
        } else {
            self.life = self.life - power;
            false
        }
    }

    /// Position in display units.
    pub fn pos(&self) -> (r: Vec2I)
        ensures
            r == round_up_vec(self.pos),
    {
        round_up(&self.pos)
    }

    /// A twelve-unit box centred on the enemy.
    pub fn get_collbox(&self) -> (r: Option<CollBox>)
        requires
            self.wf(),
        ensures
            r == Some(enemy_box(*self)),
            enemy_box(*self).wf(),
    {
        let p = self.pos();
        Some(CollBox { top_left: Vector2D { x: p.x - 6, y: p.y - 6 }, size: Vector2D { x: 12, y: 12 } })
    }

    /// Appends this enemy's sprites to `out`.
    pub fn push_sprites(&self, out: &mut Vec<Sprite>)
        requires
            self.wf(),
        ensures
            final(out)@ == old(out)@ + enemy_sprites(*self),
    {
        let p = self.pos();
        let name = match self.enemy_type {
            EnemyType::Bee => SpriteName::Bee,
            EnemyType::Butterfly => SpriteName::Butterfly,
            EnemyType::Owl => SpriteName::Owl,
            EnemyType::CapturedFighter => SpriteName::RustaceanCaptured,
        };
        out.push(Sprite { name, pos: Vector2D { x: p.x - 8, y: p.y - 8 }, angle: None });
        if self.state == EnemyState::CaptureSequenceActive && self.beam_len > 0 {
            out.push(Sprite { name: SpriteName::Beam, pos: Vector2D { x: p.x - 24, y: p.y + 8 }, angle: None });
        }
        assert(out@ =~= old(out)@ + enemy_sprites(*self));
    }

    pub fn draw<R: Renderer>(&self, renderer: &mut R)
        requires
            self.wf(),
    {
        let mut v: Vec<Sprite> = Vec::new();
        self.push_sprites(&mut v);
        draw_sprites(renderer, &v);
    }
}

pub open spec fn sprite_of(t: EnemyType) -> SpriteName {
    match t {
        EnemyType::Bee => SpriteName::Bee,
        EnemyType::Butterfly => SpriteName::Butterfly,
        EnemyType::Owl => SpriteName::Owl,
        EnemyType::CapturedFighter => SpriteName::RustaceanCaptured,
    }
}

/// What an enemy draws: its sprite centred on it, and below it the beam while
/// the beam is out.
pub open spec fn enemy_sprites(e: Enemy) -> Seq<Sprite> {
    let p = round_up_vec(e.pos);
    let body = Sprite { name: sprite_of(e.enemy_type), pos: Vector2D { x: (p.x - 8) as i32, y: (p.y - 8) as i32 }, angle: None };
    if e.state == EnemyState::CaptureSequenceActive && e.beam_len > 0 {
        seq![body, Sprite { name: SpriteName::Beam, pos: Vector2D { x: (p.x - 24) as i32, y: (p.y + 8) as i32 }, angle: None }]
    } else {
        seq![body]
    }
}

pub open spec fn enemy_box(e: Enemy) -> CollBox {
    CollBox {
        top_left: Vector2D { x: (round_up_vec(e.pos).x - 6) as i32, y: (round_up_vec(e.pos).y - 6) as i32 },
        size: Vector2D { x: 12, y: 12 },
    }
}

/// The capture protocol keeps its order: an enemy reports a completed
/// capture only while its beam is pulling a ship in, and its beam starts
/// pulling only on the frame it reports the capture, with the point the ship
/// is pulled to.
pub proof fn lemma_capture_events_in_order(e: Enemy, phase: u32, target: Option<Vec2I>)
    ensures
        enemy_events(e, target).contains(EventType::CapturePlayerCompleted)
            ==> e.state == EnemyState::CaptureSequenceActive && e.beam == BeamPhase::Pulling,
        !(e.state == EnemyState::CaptureSequenceActive && e.beam == BeamPhase::Pulling)
            && enemy_next(e, phase, target).state == EnemyState::CaptureSequenceActive
            && enemy_next(e, phase, target).beam == BeamPhase::Pulling
            ==> enemy_events(e, target) == seq![EventType::CapturePlayer(capture_pos(e.pos))],
{
    let ev = enemy_events(e, target);
    if ev.contains(EventType::CapturePlayerCompleted) {
        let k = choose|k: int| 0 <= k < ev.len() && ev[k] == EventType::CapturePlayerCompleted;
        assert(ev[k] == EventType::CapturePlayerCompleted);
    }
}

} // verus!
