use vstd::prelude::*;
use crate::capture::{BeamPhase, CaptureState};
use crate::collision::{overlaps, CollBox, CollisionResult};
use crate::enemy::{new_enemy, enemy_sprites, enemy_box, enemy_events, enemy_next, life_of, Enemy, EnemyState};
use crate::event_queue::{EnemyType, EventQueue, EventType};
use crate::formation::FormationIndex;
use crate::math::{round_up_spec, round_up_vec};
use crate::recaptured_fighter::in_bounds;
use crate::render::{draw_sprites, Renderer, Sprite};
use crate::scripts::TrajId;
use crate::traj::TrajCursor;
use crate::types::Vec2I;

verus! {

/// Number of pool slots.
pub const MAX_ENEMY_COUNT: usize = 128;
/// Frames between two attack decisions.
pub const ATTACK_INTERVAL: u32 = 60;
/// Most enemies away from the formation on an attack at once.
pub const MAX_ATTACKERS: u32 = 2;

/// The fixed-capacity pool of enemies, with the formation phase and the
/// attack timer. An enemy's identity is its slot index.
pub struct EnemyManager {
    pub enemies: Vec<Option<Enemy>>,
    pub phase: u32,
    pub attack_wait: u32,
}

pub open spec fn live_count(s: Seq<Option<Enemy>>) -> nat
    decreases s.len(),
{
    if s.len() == 0 {
        0
    } else {
        live_count(s.drop_last()) + if s.last() is Some { 1nat } else { 0nat }
    }
}

pub open spec fn is_attacker(o: Option<Enemy>) -> bool {
    match o {
        Some(e) => e.state == EnemyState::Attacking || e.state == EnemyState::CaptureAttacking
            || e.state == EnemyState::CaptureSequenceActive,
        None => false,
    }
}

pub open spec fn attacker_count(s: Seq<Option<Enemy>>) -> nat
    decreases s.len(),
{
    if s.len() == 0 {
        0
    } else {
        attacker_count(s.drop_last()) + if is_attacker(s.last()) { 1nat } else { 0nat }
    }
}

pub open spec fn is_idle(o: Option<Enemy>) -> bool {
    o matches Some(e) && e.state == EnemyState::InFormation
}

/// Lowest index from `i` on of an enemy resting in the formation, or -1.
pub open spec fn first_idle(s: Seq<Option<Enemy>>, i: int) -> int
    decreases s.len() - i,
{
    if i >= s.len() || i < 0 {
        -1
    } else if is_idle(s[i]) {
        i
    } else {
        first_idle(s, i + 1)
    }
}

/// Lowest index from `i` on of a free slot, or -1.
pub open spec fn first_free(s: Seq<Option<Enemy>>, i: int) -> int
    decreases s.len() - i,
{
    if i >= s.len() || i < 0 {
        -1
    } else if s[i] is None {
        i
    } else {
        first_free(s, i + 1)
    }
}

/// Some enemy is in a capture sequence or holds a captured ship.
pub open spec fn capture_active(s: Seq<Option<Enemy>>) -> bool {
    exists|j: int| 0 <= j < s.len() && holds_capture(#[trigger] s[j])
}

pub open spec fn holds_capture(o: Option<Enemy>) -> bool {
    o matches Some(e) && e.capture_state != CaptureState::NoCapture
}

/// The script an enemy of kind `t` attacks on.
pub open spec fn attack_traj(t: EnemyType, capture: bool) -> TrajId {
    if capture {
        TrajId::CaptureDive
    } else if t == EnemyType::Bee {
        TrajId::Dive
    } else {
        TrajId::Swirl
    }
}

/// The attack decision of a frame: the slot that leaves the formation and
/// whether it goes for a capture. One attack per interval, while fewer than
/// `MAX_ATTACKERS` are out; the lowest idle slot goes, and an owl goes for a
/// capture when no capture is under way.
pub open spec fn attack_choice(s: Seq<Option<Enemy>>, wait: u32) -> Option<(int, bool)> {
    let i = first_idle(s, 0);
    if wait > 0 || attacker_count(s) >= MAX_ATTACKERS || i < 0 {
        None
    } else {
        Some((i, s[i].unwrap().enemy_type == EnemyType::Owl && !capture_active(s)))
    }
}

pub open spec fn started(e: Enemy, capture: bool) -> Enemy {
    Enemy {
        state: if capture { EnemyState::CaptureAttacking } else { EnemyState::Attacking },
        capture_state: if capture { CaptureState::CaptureAttacking } else { e.capture_state },
        traj_id: attack_traj(e.enemy_type, capture),
        traj: TrajCursor { pc: 0, delay: 0, in_loop: false, loop_left: 0, pos: e.pos, speed: 0, angle: 0, vangle: 0, finished: false },
        ..e
    }
}

pub open spec fn attack_slots(s: Seq<Option<Enemy>>, wait: u32) -> Seq<Option<Enemy>> {
    match attack_choice(s, wait) {
        Some((i, cap)) => s.update(i, Some(started(s[i].unwrap(), cap))),
        None => s,
    }
}

pub open spec fn attack_wait_next(s: Seq<Option<Enemy>>, wait: u32) -> u32 {
    if wait > 0 {
        (wait - 1) as u32
    } else if attack_choice(s, wait) is Some {
        ATTACK_INTERVAL
    } else {
        0
    }
}

pub open spec fn attack_events(s: Seq<Option<Enemy>>, wait: u32) -> Seq<EventType> {
    match attack_choice(s, wait) {
        Some((i, cap)) => if cap { seq![EventType::StartCaptureAttack(s[i].unwrap().slot)] } else { seq![] },
        None => seq![],
    }
}

/// Outside the playfield by more than sixteen display units.
pub open spec fn out_of_screen_spec(p: Vec2I) -> bool {
    p.x < -16 || p.x > 224 + 16 || p.y < -16 || p.y > 288 + 16
}

/// A slot after one frame: its enemy moves, and is removed if it left the
/// playfield.
pub open spec fn slot_next(o: Option<Enemy>, phase: u32, target: Option<Vec2I>) -> Option<Enemy> {
    match o {
        Some(e) => {
            let n = enemy_next(e, phase, target);
            if out_of_screen_spec(round_up_vec(n.pos)) { None } else { Some(n) }
        },
        None => None,
    }
}

pub open spec fn slot_events(o: Option<Enemy>, target: Option<Vec2I>) -> Seq<EventType> {
    match o {
        Some(e) => enemy_events(e, target),
        None => seq![],
    }
}

/// The events of all slots of a frame, in slot order.
pub open spec fn pool_events(s: Seq<Option<Enemy>>, target: Option<Vec2I>) -> Seq<EventType>
    decreases s.len(),
{
    if s.len() == 0 {
        seq![]
    } else {
        pool_events(s.drop_last(), target) + slot_events(s.last(), target)
    }
}

/// The pool after spawning an enemy of kind `t` for `slot` from `pos`: it
/// takes the first free slot, and a full pool stays as it was.
pub open spec fn spawn_result(s: Seq<Option<Enemy>>, t: EnemyType, slot: FormationIndex, pos: Vec2I) -> Seq<Option<Enemy>> {
    let i = first_free(s, 0);
    if i < 0 {
        s
    } else {
        s.update(i, Some(new_enemy(t, slot, pos)))
    }
}

/// Outside the playfield by more than sixteen display units on some side;
/// the margin lines themselves are still inside.
pub fn out_of_screen(pos: Vec2I) -> (r: bool)
    ensures
        r == out_of_screen_spec(pos),
{
    pos.x < -16 || pos.x > 224 + 16 || pos.y < -16 || pos.y > 288 + 16
}

/// What the pool draws: each live enemy's sprites, in slot order.
pub open spec fn pool_sprites(s: Seq<Option<Enemy>>) -> Seq<Sprite>
    decreases s.len(),
{
    if s.len() == 0 {
        seq![]
    } else {
        pool_sprites(s.drop_last()) + match s.last() {
            Some(e) => enemy_sprites(e),
            None => seq![],
        }
    }
}

/// Points for destroying an enemy.
pub open spec fn score_of(e: Enemy) -> u32 {
    match e.enemy_type {
        EnemyType::Bee => 50,
        EnemyType::Butterfly => 80,
        EnemyType::Owl => 150,
        EnemyType::CapturedFighter => 500,
    }
}

/// Events of destroying enemy `e`: explosion and score, and the end of any
/// capture it took part in.
pub open spec fn destroy_events(e: Enemy) -> Seq<EventType> {
    let base = seq![EventType::EnemyExplosion(round_up_vec(e.pos), 0, e.enemy_type), EventType::AddScore(score_of(e))];
    if e.capture_state == CaptureState::Captured {
        base.push(EventType::CaptureSequenceEnded)
    } else if e.state == EnemyState::CaptureSequenceActive && e.beam == BeamPhase::Pulling {
        base.push(EventType::EscapeCapturing)
    } else {
        base
    }
}

/// Slot `b` is slot `a` as it may be after hits: the same, emptied, or the
/// same enemy with less life.
pub open spec fn hit_or_same(a: Option<Enemy>, b: Option<Enemy>) -> bool {
    b == a || (b is None && a is Some) || (match (a, b) {
        (Some(o), Some(f)) => f == (Enemy { life: f.life, ..o }) && f.life < o.life,
        _ => false,
    })
}

pub open spec fn pool_hit_or_same(a: Seq<Option<Enemy>>, b: Seq<Option<Enemy>>) -> bool {
    a.len() == b.len() && forall|i: int| 0 <= i < a.len() ==> hit_or_same(#[trigger] a[i], b[i])
}

pub proof fn lemma_pool_hit_or_same_trans(a: Seq<Option<Enemy>>, b: Seq<Option<Enemy>>, c: Seq<Option<Enemy>>)
    requires
        pool_hit_or_same(a, b),
        pool_hit_or_same(b, c),
    ensures
        pool_hit_or_same(a, c),
{
    assert forall|i: int| 0 <= i < a.len() implies hit_or_same(#[trigger] a[i], c[i]) by {
        assert(hit_or_same(a[i], b[i]));
        assert(hit_or_same(b[i], c[i]));
    }
}

pub open spec fn hit_at(s: Seq<Option<Enemy>>, b: CollBox, i: int) -> bool {
    s[i] matches Some(e) && overlaps(enemy_box(e), b)
}

pub(crate) proof fn lemma_live_count_bound(s: Seq<Option<Enemy>>)
    ensures
        live_count(s) <= s.len(),
    decreases s.len(),
{
    if s.len() > 0 {
        lemma_live_count_bound(s.drop_last());
    }
}

impl EnemyManager {
    pub open spec fn wf(&self) -> bool {
        &&& self.enemies@.len() == MAX_ENEMY_COUNT
        &&& forall|i: int| 0 <= i < self.enemies@.len() ==> (#[trigger] self.enemies@[i] matches Some(e) ==> e.wf())
    }

    pub fn new() -> (r: Self)
        ensures
            r.wf(),
            r.enemies@ == Seq::new(MAX_ENEMY_COUNT as nat, |i: int| None::<Enemy>),
            r.phase == 0,
            r.attack_wait == ATTACK_INTERVAL,
    {
        let mut enemies: Vec<Option<Enemy>> = Vec::new();
        let mut i: usize = 0;
        while i < MAX_ENEMY_COUNT
            invariant
                i <= MAX_ENEMY_COUNT,
                enemies@ == Seq::new(i as nat, |j: int| None::<Enemy>),
            decreases MAX_ENEMY_COUNT - i,
        {
            enemies.push(None);
            i = i + 1;
            assert(enemies@ =~= Seq::new(i as nat, |j: int| None::<Enemy>));
        }
        EnemyManager { enemies, phase: 0, attack_wait: ATTACK_INTERVAL }
    }

    pub fn capacity(&self) -> (r: usize)
        ensures
            r == MAX_ENEMY_COUNT,
    {
        MAX_ENEMY_COUNT
    }

    /// Number of occupied slots.
    pub fn live_enemy_count(&self) -> (r: usize)
        requires
            self.wf(),
        ensures
            r == live_count(self.enemies@),
    {
        let mut n: usize = 0;
        let mut i: usize = 0;
        while i < self.enemies.len()
            invariant
                self.wf(),
                i <= self.enemies@.len(),
                n == live_count(self.enemies@.take(i as int)),
                n <= i,
            decreases self.enemies@.len() - i,
        {
            assert(self.enemies@.take(i + 1).drop_last() =~= self.enemies@.take(i as int));
            if self.enemies[i].is_some() {
                n = n + 1;
            }
            i = i + 1;
        }
        assert(self.enemies@.take(i as int) =~= self.enemies@);
        n
    }

    /// The enemy in slot `i`, if any.
    pub fn enemy_at(&self, i: usize) -> (r: Option<Enemy>)
        requires
            i < self.enemies@.len(),
        ensures
            r == self.enemies@[i as int],
    {
        self.enemies[i]
    }

    /// Puts a new enemy flying in from `pos` into the first free slot. With no
    /// free slot nothing happens.
    pub fn spawn(&mut self, enemy_type: EnemyType, slot: FormationIndex, pos: Vec2I)
        requires
            old(self).wf(),
            slot.valid(),
            in_bounds(pos),
        ensures
            final(self).wf(),
            final(self).phase == old(self).phase,
            final(self).attack_wait == old(self).attack_wait,
            final(self).enemies@ == spawn_result(old(self).enemies@, enemy_type, slot, pos),
    {
        let mut i: usize = 0;
        while i < self.enemies.len()
            invariant
                self.wf(),
                i <= self.enemies@.len(),
                first_free(self.enemies@, i as int) == first_free(self.enemies@, 0),
                self.enemies@ == old(self).enemies@,
                self.phase == old(self).phase,
                self.attack_wait == old(self).attack_wait,
                slot.valid(),
                in_bounds(pos),
            decreases self.enemies@.len() - i,
        {
            if self.enemies[i].is_none() {
                let enemy = Enemy::new(enemy_type, slot, pos);
                self.enemies.set(i, Some(enemy));
                return;
            }
            i = i + 1;
        }
    }

    fn select_attacker(&self) -> (r: Option<usize>)
        requires
            self.wf(),
        ensures
            first_idle(self.enemies@, 0) < 0 ==> r is None,
            r is None ==> first_idle(self.enemies@, 0) < 0,
            r matches Some(i) ==> i == first_idle(self.enemies@, 0) && i < self.enemies@.len()
                && is_idle(self.enemies@[i as int]),
    {
        let mut i: usize = 0;
        while i < self.enemies.len()
            invariant
                self.wf(),
                i <= self.enemies@.len(),
                first_idle(self.enemies@, i as int) == first_idle(self.enemies@, 0),
            decreases self.enemies@.len() - i,
        {
            match self.enemies[i] {
                Some(e) => {
                    if e.state == EnemyState::InFormation {
                        return Some(i);
                    }
                },
                None => {},
            }
            i = i + 1;
        }
        None
    }

    fn count_attackers(&self) -> (r: u32)
        requires
            self.wf(),
        ensures
            r == attacker_count(self.enemies@),
    {
        let mut n: u32 = 0;
        let mut i: usize = 0;
        while i < self.enemies.len()
            invariant
                self.wf(),
                i <= self.enemies@.len(),
                n == attacker_count(self.enemies@.take(i as int)),
                n <= i,
            decreases self.enemies@.len() - i,
        {
            assert(self.enemies@.take(i + 1).drop_last() =~= self.enemies@.take(i as int));
            let attacking = match self.enemies[i] {
                Some(e) => e.state == EnemyState::Attacking || e.state == EnemyState::CaptureAttacking
                    || e.state == EnemyState::CaptureSequenceActive,
                None => false,
            };
            if attacking {
                n = n + 1;
            }
            i = i + 1;
        }
        assert(self.enemies@.take(i as int) =~= self.enemies@);
        n
    }

    fn is_capture_active(&self) -> (r: bool)
        requires
            self.wf(),
        ensures
            r == capture_active(self.enemies@),
    {
        let mut i: usize = 0;
        while i < self.enemies.len()
            invariant
                self.wf(),
                i <= self.enemies@.len(),
                forall|j: int| 0 <= j < i ==> !holds_capture(#[trigger] self.enemies@[j]),
            decreases self.enemies@.len() - i,
        {
            match self.enemies[i] {
                Some(e) => {
                    if e.capture_state != CaptureState::NoCapture {
                        return true;
                    }
                },
                None => {},
            }
            i = i + 1;
        }
        false
    }

    /// The attack decision of one frame (see `attack_choice`).
    pub fn tick_attack(&mut self, event_queue: &mut EventQueue)
        requires
            old(self).wf(),
        ensures
            final(self).wf(),
            final(self).phase == old(self).phase,
            final(self).enemies@ == attack_slots(old(self).enemies@, old(self).attack_wait),
            final(self).attack_wait == attack_wait_next(old(self).enemies@, old(self).attack_wait),
            final(event_queue)@ == old(event_queue)@ + attack_events(old(self).enemies@, old(self).attack_wait),
    {
        if self.attack_wait > 0 {
            self.attack_wait = self.attack_wait - 1;
            assert(event_queue@ =~= old(event_queue)@ + attack_events(old(self).enemies@, old(self).attack_wait));
            return;
        }
        let n = self.count_attackers();
        if n >= MAX_ATTACKERS {
            assert(event_queue@ =~= old(event_queue)@ + attack_events(old(self).enemies@, old(self).attack_wait));
            return;
        }
        match self.select_attacker() {
            None => {
                assert(event_queue@ =~= old(event_queue)@ + attack_events(old(self).enemies@, old(self).attack_wait));
            },
            Some(i) => {
                let active = self.is_capture_active();
                let mut e = self.enemies[i].unwrap();
                let capture = e.enemy_type == EnemyType::Owl && !active;
                let traj_id = if capture {
                    TrajId::CaptureDive
                } else if e.enemy_type == EnemyType::Bee {
                    TrajId::Dive
                } else {
                    TrajId::Swirl
                };
                proof {
                    assert(self.enemies@[i as int] matches Some(x) ==> x.wf());
                }
                assert(first_idle(old(self).enemies@, 0) == i as int);
                assert(attacker_count(old(self).enemies@) < MAX_ATTACKERS);
                assert(attack_choice(old(self).enemies@, old(self).attack_wait) == Some((i as int, capture)));
                e.start_attack(traj_id, capture);
                assert(e == started(old(self).enemies@[i as int].unwrap(), capture));
                if capture {
                    event_queue.push(EventType::StartCaptureAttack(e.slot));
                }
                self.enemies.set(i, Some(e));
                self.attack_wait = ATTACK_INTERVAL;
                assert(event_queue@ =~= old(event_queue)@ + attack_events(old(self).enemies@, old(self).attack_wait));
            },
        }
    }

    /// One frame of every enemy, in slot order, each removed at once if it
    /// left the playfield. `target` is the position of
    /// the ship that a tractor beam can catch, if any.
    pub fn update(&mut self, target: Option<Vec2I>, event_queue: &mut EventQueue)
        requires
            old(self).wf(),
            target matches Some(p) ==> in_bounds(p),
        ensures
            final(self).wf(),
            final(self).phase == old(self).phase.wrapping_add(1),
            final(self).attack_wait == old(self).attack_wait,
            final(self).enemies@ == Seq::new(old(self).enemies@.len(), |i: int| slot_next(old(self).enemies@[i], old(self).phase, target)),
            final(event_queue)@ == old(event_queue)@ + pool_events(old(self).enemies@, target),
    {
        let ghost wait = self.attack_wait;
        let ghost mid = self.enemies@;
        let ghost q_mid = event_queue@;
        let phase = self.phase;
        let mut i: usize = 0;
        while i < self.enemies.len()
            invariant
                self.wf(),
                self.phase == phase,
                self.attack_wait == wait,
                mid.len() == MAX_ENEMY_COUNT,
                i <= self.enemies@.len(),
                target matches Some(p) ==> in_bounds(p),
                forall|j: int| 0 <= j < i ==> self.enemies@[j] == slot_next(mid[j], phase, target),
                forall|j: int| i <= j < self.enemies@.len() ==> self.enemies@[j] == mid[j],
                event_queue@ == q_mid + pool_events(mid.take(i as int), target),
            decreases self.enemies@.len() - i,
        {
            assert(mid.take(i + 1).drop_last() =~= mid.take(i as int));
            let ghost q_before = event_queue@;
            match self.enemies[i] {
                Some(e0) => {
                    let mut e = e0;
                    assert(self.enemies@[i as int] matches Some(x) ==> x.wf());
                    e.update(phase, target, event_queue);
                    if out_of_screen(e.pos()) {
                        self.enemies.set(i, None);
                    } else {
                        self.enemies.set(i, Some(e));
                    }
                },
                None => {},
            }
            assert(event_queue@ =~= q_mid + pool_events(mid.take(i + 1), target));
            i = i + 1;
        }
        assert(mid.take(MAX_ENEMY_COUNT as int) =~= mid);
        assert(self.enemies@ =~= Seq::new(mid.len(), |j: int| slot_next(mid[j], phase, target)));
        self.phase = self.phase.wrapping_add(1);
    }

    /// The sprites of the live enemies, in slot order.
    pub fn sprites(&self) -> (r: Vec<Sprite>)
        requires
            self.wf(),
        ensures
            r@ == pool_sprites(self.enemies@),
    {
        let mut out: Vec<Sprite> = Vec::new();
        let mut i: usize = 0;
        while i < self.enemies.len()
            invariant
                self.wf(),
                i <= self.enemies@.len(),
                out@ == pool_sprites(self.enemies@.take(i as int)),
            decreases self.enemies@.len() - i,
        {
            assert(self.enemies@.take(i + 1).drop_last() =~= self.enemies@.take(i as int));
            match &self.enemies[i] {
                Some(e) => {
                    assert(self.enemies@[i as int] matches Some(x) ==> x.wf());
                    e.push_sprites(&mut out);
                },
                None => {},
            }
            i = i + 1;
        }
        assert(self.enemies@.take(i as int) =~= self.enemies@);
        out
    }

    /// Draws exactly `self.sprites()`.
    pub fn draw<R: Renderer>(&self, renderer: &mut R)
        requires
            self.wf(),
    {
        let v = self.sprites();
        draw_sprites(renderer, &v);
    }

    /// Tests `target` against the enemies in slot order. The first enemy hit
    /// takes damage `power`; if that destroys it, its slot is freed and its
    /// destruction events are pushed.
    pub fn check_collision(&mut self, target: &CollBox, power: u32, event_queue: &mut EventQueue) -> (r: CollisionResult)
        requires
            old(self).wf(),
            target.wf(),
        ensures
            final(self).wf(),
            final(self).phase == old(self).phase,
            final(self).attack_wait == old(self).attack_wait,
            (r is NoHit) == (forall|j: int| 0 <= j < old(self).enemies@.len() ==> !hit_at(old(self).enemies@, *target, j)),
            r is NoHit ==> final(self).enemies@ == old(self).enemies@ && final(event_queue)@ == old(event_queue)@,
            final(event_queue)@.len() >= old(event_queue)@.len(),
            final(event_queue)@.subrange(0, old(event_queue)@.len() as int) == old(event_queue)@,
            pool_hit_or_same(old(self).enemies@, final(self).enemies@),
            r matches CollisionResult::Hit(pos, destroyed) ==> exists|i: int| {
                &&& 0 <= i < old(self).enemies@.len()
                &&& hit_at(old(self).enemies@, *target, i)
                &&& forall|j: int| 0 <= j < i ==> !hit_at(old(self).enemies@, *target, j)
                &&& ({
                    let e = old(self).enemies@[i].unwrap();
                    &&& pos == round_up_vec(e.pos)
                    &&& destroyed == (power >= e.life)
                    &&& final(self).enemies@ == old(self).enemies@.update(i,
                        if destroyed { None } else { Some(Enemy { life: (e.life - power) as u32, ..e }) })
                    &&& final(event_queue)@ == old(event_queue)@ + if destroyed { destroy_events(e) } else { seq![] }
                })
            },
    {
        let mut i: usize = 0;
        while i < self.enemies.len()
            invariant
                self.wf(),
                self.enemies@ == old(self).enemies@,
                self.phase == old(self).phase,
                self.attack_wait == old(self).attack_wait,
                event_queue@ == old(event_queue)@,
                target.wf(),
                i <= self.enemies@.len(),
                forall|j: int| 0 <= j < i ==> !hit_at(old(self).enemies@, *target, j),
            decreases self.enemies@.len() - i,
        {
            match self.enemies[i] {
                Some(e0) => {
                    assert(self.enemies@[i as int] matches Some(x) ==> x.wf());
                    let mut e = e0;
                    let b = e.get_collbox().unwrap();
                    if b.check_collision(target) {
                        let pos = e.pos();
                        let destroyed = e.set_damage(power);
                        if destroyed {
                            self.enemies.set(i, None);
                            event_queue.push(EventType::EnemyExplosion(pos, 0, e.enemy_type));
                            let score: u32 = match e.enemy_type {
                                EnemyType::Bee => 50,
                                EnemyType::Butterfly => 80,
                                EnemyType::Owl => 150,
                                EnemyType::CapturedFighter => 500,
                            };
                            event_queue.push(EventType::AddScore(score));
                            if e.capture_state == CaptureState::Captured {
                                event_queue.push(EventType::CaptureSequenceEnded);
                            } else if e.state == EnemyState::CaptureSequenceActive && e.beam == BeamPhase::Pulling {
                                event_queue.push(EventType::EscapeCapturing);
                            }
                            assert(event_queue@ =~= old(event_queue)@ + destroy_events(e0));
                            assert(event_queue@.subrange(0, old(event_queue)@.len() as int) =~= old(event_queue)@);
                        } else {
                            self.enemies.set(i, Some(e));
                            assert(event_queue@ =~= old(event_queue)@ + seq![]);
                        }
                        assert(hit_at(old(self).enemies@, *target, i as int));
                        assert(forall|j: int| 0 <= j < self.enemies@.len() && j != i ==> self.enemies@[j] == old(self).enemies@[j]);
                        assert(hit_or_same(old(self).enemies@[i as int], self.enemies@[i as int]));
                        return CollisionResult::Hit(pos, destroyed);
                    }
                },
                None => {},
            }
            i = i + 1;
        }
        assert(forall|j: int| 0 <= j < self.enemies@.len() ==> hit_or_same(old(self).enemies@[j], #[trigger] self.enemies@[j]));
        CollisionResult::NoHit
    }
}

/// The pool never holds more live enemies than it has slots, whatever
/// sequence of calls led to its state.
pub proof fn lemma_live_within_capacity(m: EnemyManager)
    requires
        m.wf(),
    ensures
        live_count(m.enemies@) <= MAX_ENEMY_COUNT,
{
    lemma_live_count_bound(m.enemies@);
}

} // verus!
