use vstd::prelude::*;
use crate::enemy::Enemy;
use crate::enemy_manager::{first_free, lemma_live_count_bound, live_count, spawn_result, EnemyManager, MAX_ENEMY_COUNT};
use crate::event_queue::EnemyType;
use crate::formation::FormationIndex;
use crate::recaptured_fighter::in_bounds;
use crate::types::Vec2I;

verus! {

/// One scheduled entry of a wave: what appears, for which slot, from where,
/// and on which frame of the wave.
#[derive(Clone, Copy, Debug, PartialEq, Eq, Structural)]
pub struct Appearance {
    pub enemy_type: EnemyType,
    pub slot: FormationIndex,
    pub start: Vec2I,
    pub frame: u32,
}

pub open spec fn appearance_wf(a: Appearance) -> bool {
    a.slot.valid() && in_bounds(a.start)
}

/// Entries from `i` on whose frame has come, counted up to the first one
/// that has not.
pub open spec fn due_count(s: Seq<Appearance>, i: int, frame: u32) -> nat
    decreases s.len() - i,
{
    if i < 0 || i >= s.len() || s[i].frame > frame {
        0
    } else {
        1 + due_count(s, i + 1, frame)
    }
}

/// The pool after spawning the `k` schedule entries from index `from` on,
/// in schedule order.
pub open spec fn spawn_entries(s: Seq<Option<Enemy>>, sched: Seq<Appearance>, from: int, k: nat) -> Seq<Option<Enemy>>
    decreases k,
{
    if k == 0 {
        s
    } else {
        let a = sched[from + k - 1];
        spawn_result(spawn_entries(s, sched, from, (k - 1) as nat), a.enemy_type, a.slot, a.start)
    }
}

pub open spec fn min_nat(a: nat, b: nat) -> nat {
    if a < b { a } else { b }
}

/// Builds a wave: entries come in schedule order as their frames come, and
/// never more at once than the pool has free slots; the rest wait.
pub struct AppearanceManager {
    pub schedule: Vec<Appearance>,
    pub next: usize,
    pub frame: u32,
}

proof fn lemma_live_count_fill(s: Seq<Option<Enemy>>, i: int, e: Enemy)
    requires
        0 <= i < s.len(),
        s[i] is None,
    ensures
        live_count(s.update(i, Some(e))) == live_count(s) + 1,
    decreases s.len(),
{
    let t = s.update(i, Some(e));
    if i == s.len() - 1 {
        assert(t.drop_last() =~= s.drop_last());
    } else {
        assert(t.drop_last() =~= s.drop_last().update(i, Some(e)));
        lemma_live_count_fill(s.drop_last(), i, e);
    }
}

proof fn lemma_first_free_none(s: Seq<Option<Enemy>>, i: int)
    requires
        0 <= i <= s.len(),
        first_free(s, i) < 0,
    ensures
        live_count(s) >= live_count(s.take(i)) + (s.len() - i),
    decreases s.len() - i,
{
    if i < s.len() {
        lemma_first_free_none(s, i + 1);
        assert(s.take(i + 1).drop_last() =~= s.take(i));
    } else {
        assert(s.take(i) =~= s);
    }
}

proof fn lemma_first_free_is_free(s: Seq<Option<Enemy>>, i: int)
    requires
        0 <= i,
        first_free(s, i) >= 0,
    ensures
        i <= first_free(s, i) < s.len(),
        s[first_free(s, i)] is None,
    decreases s.len() - i,
{
    if i < s.len() && !(s[i] is None) {
        lemma_first_free_is_free(s, i + 1);
    }
}

impl AppearanceManager {
    pub open spec fn wf(&self) -> bool {
        &&& self.next <= self.schedule@.len()
        &&& forall|i: int| 0 <= i < self.schedule@.len() ==> appearance_wf(#[trigger] self.schedule@[i])
    }

    pub fn new(schedule: Vec<Appearance>) -> (r: Self)
        requires
            forall|i: int| 0 <= i < schedule@.len() ==> appearance_wf(#[trigger] schedule@[i]),
        ensures
            r.wf(),
            r.schedule@ == schedule@,
            r.next == 0,
            r.frame == 0,
    {
        AppearanceManager { schedule, next: 0, frame: 0 }
    }

    /// Every entry has appeared.
    pub fn done(&self) -> (r: bool)
        ensures
            r == (self.next >= self.schedule@.len()),
    {
        self.next >= self.schedule.len()
    }

    /// One frame of the wave: spawns the entries whose frame has come, in
    /// order, while the pool has a free slot, then counts the frame.
    pub fn update(&mut self, manager: &mut EnemyManager)
        requires
            old(self).wf(),
            old(manager).wf(),
        ensures
            final(self).wf(),
            final(manager).wf(),
            final(self).schedule@ == old(self).schedule@,
            final(self).frame == old(self).frame.wrapping_add(1),
            ({
                let k = min_nat(due_count(old(self).schedule@, old(self).next as int, old(self).frame),
                    (MAX_ENEMY_COUNT - live_count(old(manager).enemies@)) as nat);
                &&& final(self).next == old(self).next + k
                &&& live_count(final(manager).enemies@) == live_count(old(manager).enemies@) + k
                &&& final(manager).enemies@ == spawn_entries(old(manager).enemies@, old(self).schedule@, old(self).next as int, k)
            }),
            final(manager).phase == old(manager).phase,
            final(manager).attack_wait == old(manager).attack_wait,
    {
        proof {
            lemma_live_count_bound(manager.enemies@);
        }
        let ghost start_next = self.next as int;
        let ghost start_live = live_count(manager.enemies@);
        let ghost due = due_count(self.schedule@, start_next, self.frame);
        let ghost free = (MAX_ENEMY_COUNT - start_live) as nat;
        loop
            invariant
                self.wf(),
                manager.wf(),
                self.schedule@ == old(self).schedule@,
                self.frame == old(self).frame,
                start_next <= self.next,
                live_count(manager.enemies@) <= MAX_ENEMY_COUNT,
                self.next - start_next == live_count(manager.enemies@) - start_live,
                self.next - start_next <= min_nat(due, free),
                due == (self.next - start_next) + due_count(self.schedule@, self.next as int, self.frame),
                free == (self.next - start_next) + (MAX_ENEMY_COUNT - live_count(manager.enemies@)),
                manager.enemies@ == spawn_entries(old(manager).enemies@, old(self).schedule@, start_next, (self.next - start_next) as nat),
                manager.phase == old(manager).phase,
                manager.attack_wait == old(manager).attack_wait,
            ensures
                self.wf(),
                manager.wf(),
                self.schedule@ == old(self).schedule@,
                self.frame == old(self).frame,
                self.next - start_next == live_count(manager.enemies@) - start_live,
                self.next - start_next == min_nat(due, free),
                manager.enemies@ == spawn_entries(old(manager).enemies@, old(self).schedule@, start_next, (self.next - start_next) as nat),
                manager.phase == old(manager).phase,
                manager.attack_wait == old(manager).attack_wait,
            decreases self.schedule@.len() - self.next,
        {
            if self.next >= self.schedule.len() {
                break;
            }
            let a = self.schedule[self.next];
            if a.frame > self.frame {
                break;
            }
            let ghost before = manager.enemies@;
            if first_free_slot(manager).is_none() {
                proof {
                    lemma_first_free_none(before, 0);
                    assert(before.take(0) =~= Seq::<Option<Enemy>>::empty());
                }
                break;
            }
            proof {
                assert(appearance_wf(self.schedule@[self.next as int]));
                lemma_first_free_is_free(before, 0);
            }
            manager.spawn(a.enemy_type, a.slot, a.start);
            proof {
                let i = first_free(before, 0);
                let e = manager.enemies@[i];
                assert(manager.enemies@ == before.update(i, e));
                lemma_live_count_fill(before, i, e.unwrap());
                lemma_live_count_bound(manager.enemies@);
            }
            self.next = self.next + 1;
        }
        self.frame = self.frame.wrapping_add(1);
    }
}

/// Index of the first free slot of the pool, if any.
pub fn first_free_slot(manager: &EnemyManager) -> (r: Option<usize>)
    requires
        manager.wf(),
    ensures
        r is None <==> first_free(manager.enemies@, 0) < 0,
        r matches Some(i) ==> i == first_free(manager.enemies@, 0),
{
    let mut i: usize = 0;
    while i < manager.enemies.len()
        invariant
            manager.wf(),
            i <= manager.enemies@.len(),
            first_free(manager.enemies@, i as int) == first_free(manager.enemies@, 0),
        decreases manager.enemies@.len() - i,
    {
        if manager.enemies[i].is_none() {
            return Some(i);
        }
        i = i + 1;
    }
    None
}

} // verus!
