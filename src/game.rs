use vstd::prelude::*;
use crate::appearance::{appearance_wf, due_count, min_nat, spawn_entries, Appearance, AppearanceManager};
use crate::collision::CollisionResult;
use crate::enemy_manager::{
    attack_events, attack_slots, attack_wait_next, lemma_live_count_bound, live_count, pool_events, EnemyManager,
    lemma_pool_hit_or_same_trans, pool_hit_or_same, pool_sprites, slot_next, MAX_ENEMY_COUNT,
};
use crate::enemy::Enemy;
use crate::event_queue::{EnemyType, EventQueue, EventType};
use crate::formation::FormationIndex;
use crate::consts::POS_BOUND;
use crate::math::{FULL_TURN, ONE};
use crate::pad::Pad;
use crate::player::{player_sprites, Player, PlayerState, MAX_SPIN_ANGLE};
use crate::recaptured_fighter::is_in_bounds;
use crate::render::{draw_sprites, Renderer, Sprite};
use crate::shot::{shot_sprites, MyShot};
use crate::types::Vector2D;

verus! {

/// Most player shots in flight at once.
pub const MAX_SHOTS: usize = 2;
/// Damage of a shot, and of ramming the ship.
pub const SHOT_POWER: u32 = 1;
pub const RAM_POWER: u32 = 255;

pub open spec fn sat_add(a: u32, b: u32) -> u32 {
    if a + b > u32::MAX { u32::MAX } else { (a + b) as u32 }
}

/// The score after the `AddScore` events of `evs`, in order, each added with
/// saturation.
pub open spec fn score_after(score: u32, evs: Seq<EventType>) -> u32
    decreases evs.len(),
{
    if evs.len() == 0 {
        score
    } else {
        let s = score_after(score, evs.drop_last());
        match evs.last() {
            EventType::AddScore(p) => sat_add(s, p),
            _ => s,
        }
    }
}

pub open spec fn max_u32(a: u32, b: u32) -> u32 {
    if a > b { a } else { b }
}

/// Entry `i` of the opening wave: ten columns by five rows, owls on top, then
/// butterflies, then bees, each from above its column, six frames apart.
pub open spec fn wave_entry(i: int) -> Appearance {
    let col = i % 10;
    let row = i / 10;
    Appearance {
        enemy_type: if row == 0 { EnemyType::Owl } else if row < 3 { EnemyType::Butterfly } else { EnemyType::Bee },
        slot: FormationIndex(col as u8, row as u8),
        start: Vector2D { x: ((col * 16 + 40) * 256) as i32, y: -2048i32 },
        frame: (i * 6) as u32,
    }
}

pub open spec fn shots_sprites(s: Seq<MyShot>) -> Seq<Sprite>
    decreases s.len(),
{
    if s.len() == 0 {
        seq![]
    } else {
        shots_sprites(s.drop_last()) + shot_sprites(s.last())
    }
}

/// Score of the current game and the best score so far.
pub struct ScoreHolder {
    pub score: u32,
    pub high_score: u32,
}

impl ScoreHolder {
    /// The high score is never below the current score.
    pub open spec fn wf(&self) -> bool {
        self.score <= self.high_score
    }

    pub fn reset_score(&mut self)
        ensures
            final(self).score == 0,
            final(self).high_score == old(self).high_score,
    {
        self.score = 0;
    }

    /// Adds points, saturating; the high score follows the score up.
    pub fn add_score(&mut self, points: u32)
        ensures
            final(self).score == if old(self).score + points > u32::MAX { u32::MAX as int } else { old(self).score + points },
            final(self).high_score == if final(self).score > old(self).high_score { final(self).score } else { old(self).high_score },
    {
        self.score = self.score.saturating_add(points);
        if self.score > self.high_score {
            self.high_score = self.score;
        }
    }
}

/// One game: the enemies, the ship, its shots, and the frame's events, which
/// the game drains itself once every producer has run.
pub struct Game {
    pub enemy_manager: EnemyManager,
    pub appearance: AppearanceManager,
    pub player: Player,
    pub shots: Vec<MyShot>,
    pub event_queue: EventQueue,
}

impl Game {
    pub open spec fn wf(&self) -> bool {
        &&& self.enemy_manager.wf()
        &&& self.appearance.wf()
        &&& self.player.wf()
        &&& self.shots@.len() <= MAX_SHOTS
        &&& forall|i: int| 0 <= i < self.shots@.len() ==> (#[trigger] self.shots@[i]).wf()
    }

    /// A new game, with a wave of fifty enemies scheduled to fly in one after
    /// another, six frames apart.
    pub fn new() -> (r: Self)
        ensures
            r.wf(),
            r.player.state == PlayerState::Normal,
            r.shots@.len() == 0,
            r.appearance.schedule@ == Seq::new(50, |i: int| wave_entry(i)),
            r.appearance.next == 0,
            r.appearance.frame == 0,
            r.enemy_manager.enemies@ == Seq::new(MAX_ENEMY_COUNT as nat, |i: int| None::<Enemy>),
            r.event_queue@.len() == 0,
    {
        let mut schedule: Vec<Appearance> = Vec::new();
        let mut idx: u32 = 0;
        while idx < 50
            invariant
                idx <= 50,
                schedule@ == Seq::new(idx as nat, |i: int| wave_entry(i)),
                forall|i: int| 0 <= i < schedule@.len() ==> appearance_wf(#[trigger] schedule@[i]),
            decreases 50 - idx,
        {
            let col: u8 = (idx % 10) as u8;
            let row: u8 = (idx / 10) as u8;
            let enemy_type = if row == 0 {
                EnemyType::Owl
            } else if row < 3 {
                EnemyType::Butterfly
            } else {
                EnemyType::Bee
            };
            let start = Vector2D { x: ((col as i32) * 16 + 40) * 256, y: -8 * 256 };
            schedule.push(Appearance { enemy_type, slot: FormationIndex(col, row), start, frame: idx * 6 });
            idx = idx + 1;
            assert(schedule@ =~= Seq::new(idx as nat, |i: int| wave_entry(i)));
        }
        Game {
            enemy_manager: EnemyManager::new(),
            appearance: AppearanceManager::new(schedule),
            player: Player::new(),
            shots: Vec::new(),
            event_queue: EventQueue::new(),
        }
    }

    /// The game is over once the ship is lost.
    pub fn is_finished(&self) -> (r: bool)
        ensures
            r == (self.player.state == PlayerState::Dead),
    {
        self.player.state == PlayerState::Dead
    }

    fn move_shots(&mut self)
        requires
            old(self).wf(),
        ensures
            final(self).wf(),
            final(self).appearance == old(self).appearance,
            final(self).enemy_manager == old(self).enemy_manager,
            final(self).player == old(self).player,
            final(self).event_queue == old(self).event_queue,
    {
        let mut kept: Vec<MyShot> = Vec::new();
        let mut i: usize = 0;
        while i < self.shots.len()
            invariant
                old(self).wf(),
                self.shots@ == old(self).shots@,
                i <= self.shots@.len(),
                kept@.len() <= i,
                forall|j: int| 0 <= j < kept@.len() ==> (#[trigger] kept@[j]).wf(),
            decreases self.shots@.len() - i,
        {
            let s0 = &self.shots[i];
            assert(self.shots@[i as int].wf());
            let mut s = MyShot::new(&s0.pos, s0.dual, s0.angle);
            if s.update() {
                kept.push(s);
            }
            i = i + 1;
        }
        self.shots = kept;
    }

    fn hit_enemies(&mut self)
        requires
            old(self).wf(),
        ensures
            final(self).wf(),
            final(self).player == old(self).player,
            final(self).appearance == old(self).appearance,
            final(self).enemy_manager.phase == old(self).enemy_manager.phase,
            final(self).enemy_manager.attack_wait == old(self).enemy_manager.attack_wait,
            final(self).event_queue@.len() >= old(self).event_queue@.len(),
            final(self).event_queue@.subrange(0, old(self).event_queue@.len() as int) == old(self).event_queue@,
            pool_hit_or_same(old(self).enemy_manager.enemies@, final(self).enemy_manager.enemies@),
    {
        let mut kept: Vec<MyShot> = Vec::new();
        let mut i: usize = 0;
        while i < self.shots.len()
            invariant
                self.enemy_manager.wf(),
                self.appearance == old(self).appearance,
                self.appearance.wf(),
                self.player == old(self).player,
                self.player.wf(),
                self.shots@ == old(self).shots@,
                self.enemy_manager.phase == old(self).enemy_manager.phase,
                self.enemy_manager.attack_wait == old(self).enemy_manager.attack_wait,
                pool_hit_or_same(old(self).enemy_manager.enemies@, self.enemy_manager.enemies@),
                self.event_queue@.len() >= old(self).event_queue@.len(),
                self.event_queue@.subrange(0, old(self).event_queue@.len() as int) == old(self).event_queue@,
                self.shots@.len() <= MAX_SHOTS,
                forall|j: int| 0 <= j < self.shots@.len() ==> (#[trigger] self.shots@[j]).wf(),
                i <= self.shots@.len(),
                kept@.len() <= i,
                forall|j: int| 0 <= j < kept@.len() ==> (#[trigger] kept@[j]).wf(),
            decreases self.shots@.len() - i,
        {
            let s = &self.shots[i];
            assert(self.shots@[i as int].wf());
            let b = s.get_collbox();
            let ghost q_before = self.event_queue@;
            let ghost pool_before = self.enemy_manager.enemies@;
            let hit = match self.enemy_manager.check_collision(&b, SHOT_POWER, &mut self.event_queue) {
                CollisionResult::Hit(_, _) => true,
                CollisionResult::NoHit => false,
            };
            assert(self.event_queue@.subrange(0, old(self).event_queue@.len() as int)
                =~= q_before.subrange(0, old(self).event_queue@.len() as int));
            proof {
                lemma_pool_hit_or_same_trans(old(self).enemy_manager.enemies@, pool_before, self.enemy_manager.enemies@);
            }
            if !hit {
                kept.push(MyShot::new(&s.pos, s.dual, s.angle));
            }
            i = i + 1;
        }
        self.shots = kept;
    }

    fn hit_player(&mut self)
        requires
            old(self).wf(),
        ensures
            final(self).wf(),
            final(self).shots == old(self).shots,
            final(self).appearance == old(self).appearance,
            final(self).enemy_manager.phase == old(self).enemy_manager.phase,
            final(self).enemy_manager.attack_wait == old(self).enemy_manager.attack_wait,
            final(self).event_queue@.len() >= old(self).event_queue@.len(),
            final(self).event_queue@.subrange(0, old(self).event_queue@.len() as int) == old(self).event_queue@,
            pool_hit_or_same(old(self).enemy_manager.enemies@, final(self).enemy_manager.enemies@),
    {
        match self.player.get_collbox() {
            Some(b) => {
                match self.enemy_manager.check_collision(&b, RAM_POWER, &mut self.event_queue) {
                    CollisionResult::Hit(pos, _) => {
                        let ghost q1 = self.event_queue@;
                        if self.player.crash(&pos) {
                            self.event_queue.push(EventType::DeadPlayer);
                        }
                        assert(self.event_queue@.subrange(0, old(self).event_queue@.len() as int)
                            =~= q1.subrange(0, old(self).event_queue@.len() as int));
                    },
                    CollisionResult::NoHit => {},
                }
            },
            None => {},
        }
    }

    /// Hands one event to the part of the game that reacts to it.
    fn dispatch(&mut self, event: EventType, score_holder: &mut ScoreHolder)
        requires
            old(self).wf(),
            old(score_holder).wf(),
        ensures
            final(self).wf(),
            final(self).enemy_manager == old(self).enemy_manager,
            final(self).event_queue@ == old(self).event_queue@,
            final(self).appearance == old(self).appearance,
            final(score_holder).score == match event {
                EventType::AddScore(p) => sat_add(old(score_holder).score, p),
                _ => old(score_holder).score,
            },
            final(score_holder).high_score == max_u32(old(score_holder).high_score, final(score_holder).score),
    {
        match event {
            EventType::MyShot(pos, dual, angle) => {
                if self.shots.len() < MAX_SHOTS && is_in_bounds(&pos) && angle <= i32::MAX - FULL_TURN / 32 {
                    self.shots.push(MyShot::new(&pos, dual, angle));
                }
            },
            EventType::AddScore(points) => {
                score_holder.add_score(points);
            },
            EventType::CapturePlayer(pos) => {
                if is_in_bounds(&pos) && pos.x <= POS_BOUND - 16 * ONE {
                    self.player.start_capture(&pos);
                }
            },
            EventType::CapturePlayerCompleted => {
                self.player.complete_capture();
            },
            EventType::CaptureSequenceEnded | EventType::EscapeCapturing => {
                self.player.escape_capturing();
            },
            _ => {},
        }
    }

    /// One frame: the wave's appearances, the attack decision, the enemies,
    /// then the ship, then the shots and what they hit,
    /// then the ship against the enemies; last, this frame's events are
    /// handed out in the order they were pushed.
    pub fn update(&mut self, pad: &Pad, score_holder: &mut ScoreHolder)
        requires
            old(self).wf(),
            old(score_holder).wf(),
        ensures
            final(self).wf(),
            final(self).appearance.frame == old(self).appearance.frame.wrapping_add(1),
            final(self).enemy_manager.phase == old(self).enemy_manager.phase.wrapping_add(1),
            ({
                let em = old(self).enemy_manager;
                let ap = old(self).appearance;
                let k = min_nat(due_count(ap.schedule@, ap.next as int, ap.frame),
                    (MAX_ENEMY_COUNT - live_count(em.enemies@)) as nat);
                let spawned = spawn_entries(em.enemies@, ap.schedule@, ap.next as int, k);
                let mid = attack_slots(spawned, em.attack_wait);
                let enemy_events = attack_events(spawned, em.attack_wait) + pool_events(mid, Some(old(self).player.pos));
                &&& final(self).appearance.next == ap.next + k
                &&& pool_hit_or_same(Seq::new(mid.len(), |i: int| slot_next(mid[i], em.phase, Some(old(self).player.pos))),
                    final(self).enemy_manager.enemies@)
                &&& final(self).enemy_manager.attack_wait == attack_wait_next(spawned, em.attack_wait)
                &&& final(self).event_queue@.len() >= enemy_events.len()
                &&& final(self).event_queue@.subrange(0, enemy_events.len() as int) == enemy_events
            }),
            final(score_holder).score == score_after(old(score_holder).score, final(self).event_queue@),
            final(score_holder).high_score == max_u32(old(score_holder).high_score, final(score_holder).score),
    {
        proof {
            lemma_live_count_bound(self.enemy_manager.enemies@);
        }
        self.event_queue.clear();
        self.appearance.update(&mut self.enemy_manager);
        let target = *self.player.raw_pos();
        self.enemy_manager.tick_attack(&mut self.event_queue);
        self.enemy_manager.update(Some(target), &mut self.event_queue);
        let ghost enemy_events = self.event_queue@;
        // A pull-in ends within the distance to the capture point, far sooner
        // than the spin angle could leave `i32`; past that the ship would stay
        // where it is.
        if self.player.state != PlayerState::Capturing || self.player.angle <= MAX_SPIN_ANGLE {
            self.player.update(pad, &mut self.event_queue);
        }
        let ghost updated = self.enemy_manager.enemies@;
        self.move_shots();
        self.hit_enemies();
        let ghost after_shots = self.enemy_manager.enemies@;
        self.hit_player();
        proof {
            lemma_pool_hit_or_same_trans(updated, after_shots, self.enemy_manager.enemies@);
        }
        assert(self.event_queue@.subrange(0, enemy_events.len() as int) =~= enemy_events);
        let n = self.event_queue.len();
        let ghost q_all = self.event_queue@;
        let ghost ap1 = self.appearance;
        let ghost em1 = self.enemy_manager;
        let ghost s0 = score_holder.score;
        let ghost h0 = score_holder.high_score;
        assert(score_holder.high_score == max_u32(h0, score_holder.score));
        let mut k: usize = 0;
        while k < n
            invariant
                self.wf(),
                self.event_queue@.len() == n,
                self.event_queue@ == q_all,
                self.appearance == ap1,
                self.enemy_manager == em1,
                k <= n,
                score_holder.score == score_after(s0, self.event_queue@.take(k as int)),
                score_holder.high_score == max_u32(h0, score_holder.score),
            decreases n - k,
        {
            assert(self.event_queue@.take(k + 1).drop_last() =~= self.event_queue@.take(k as int));
            let ev = self.event_queue.get(k);
            self.dispatch(ev, score_holder);
            k = k + 1;
        }
        assert(self.event_queue@.take(n as int) =~= self.event_queue@);
    }

    /// The enemies' sprites, then the ship's, then each shot's.
    pub fn sprites(&self) -> (r: Vec<Sprite>)
        requires
            self.wf(),
        ensures
            r@ == pool_sprites(self.enemy_manager.enemies@) + player_sprites(self.player) + shots_sprites(self.shots@),
    {
        let mut v = self.enemy_manager.sprites();
        let mut p = self.player.sprites();
        v.append(&mut p);
        let ghost head = v@;
        let mut i: usize = 0;
        while i < self.shots.len()
            invariant
                self.wf(),
                i <= self.shots@.len(),
                v@ == head + shots_sprites(self.shots@.take(i as int)),
            decreases self.shots@.len() - i,
        {
            assert(self.shots@.take(i + 1).drop_last() =~= self.shots@.take(i as int));
            assert(self.shots@[i as int].wf());
            let mut t = self.shots[i].sprites();
            v.append(&mut t);
            i = i + 1;
            assert(v@ =~= head + shots_sprites(self.shots@.take(i as int)));
        }
        assert(self.shots@.take(i as int) =~= self.shots@);
        v
    }

    /// Draws exactly `self.sprites()`.
    pub fn draw<R: Renderer>(&self, renderer: &mut R)
        requires
            self.wf(),
    {
        let v = self.sprites();
        draw_sprites(renderer, &v);
    }
}

} // verus!
