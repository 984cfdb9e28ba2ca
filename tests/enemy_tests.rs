use galangua::appearance::{Appearance, AppearanceManager};
use galangua::collision::{CollBox, CollisionResult};
use galangua::enemy::EnemyState;
use galangua::enemy_manager::{EnemyManager, MAX_ENEMY_COUNT};
use galangua::event_queue::{EnemyType, EventQueue, EventType};
use galangua::formation::FormationIndex;
use galangua::pad::Pad;
use galangua::player::Player;
use galangua::types::Vec2I;

fn box_at(p: Vec2I) -> CollBox {
    CollBox { top_left: Vec2I::new(p.x - 1, p.y - 1), size: Vec2I::new(2, 2) }
}

/// The attack decision, then the enemies, as a game runs them each frame.
fn run_frame(m: &mut EnemyManager, target: Option<Vec2I>, q: &mut EventQueue) {
    m.tick_attack(q);
    m.update(target, q);
}

fn events(q: &EventQueue) -> Vec<EventType> {
    (0..q.len()).map(|i| q.get(i)).collect()
}

#[test]
fn spawn_when_full_is_dropped() {
    let mut m = EnemyManager::new();
    for i in 0..MAX_ENEMY_COUNT {
        m.spawn(EnemyType::Bee, FormationIndex((i % 10) as u8, (i / 10 % 6) as u8), Vec2I::new(100 * 256, 100 * 256));
    }
    assert_eq!(m.live_enemy_count(), m.capacity());
    m.spawn(EnemyType::Owl, FormationIndex(0, 0), Vec2I::new(100 * 256, 100 * 256));
    assert_eq!(m.live_enemy_count(), MAX_ENEMY_COUNT);
    for i in 0..MAX_ENEMY_COUNT {
        assert_eq!(m.enemy_at(i).unwrap().enemy_type, EnemyType::Bee);
    }
    let mut q = EventQueue::new();
    m.update(None, &mut q);
    assert!(m.live_enemy_count() <= m.capacity());
}

#[test]
fn spawn_takes_first_free_slot() {
    let mut m = EnemyManager::new();
    m.spawn(EnemyType::Bee, FormationIndex(0, 0), Vec2I::new(100 * 256, 100 * 256));
    m.spawn(EnemyType::Butterfly, FormationIndex(1, 0), Vec2I::new(100 * 256, 100 * 256));
    assert_eq!(m.live_enemy_count(), 2);
    assert_eq!(m.enemy_at(0).unwrap().enemy_type, EnemyType::Bee);
    assert_eq!(m.enemy_at(1).unwrap().enemy_type, EnemyType::Butterfly);
    assert!(m.enemy_at(2).is_none());
}

#[test]
fn out_of_bounds_enemy_is_removed_and_slot_reused() {
    let mut m = EnemyManager::new();
    // Just inside the bottom margin, heading down.
    m.spawn(EnemyType::Bee, FormationIndex(0, 0), Vec2I::new(100 * 256, 303 * 256));
    assert_eq!(m.live_enemy_count(), 1);
    let mut q = EventQueue::new();
    m.update(None, &mut q);
    assert_eq!(m.live_enemy_count(), 0);
    assert!(m.enemy_at(0).is_none());
    m.spawn(EnemyType::Owl, FormationIndex(1, 0), Vec2I::new(100 * 256, 100 * 256));
    assert_eq!(m.enemy_at(0).unwrap().enemy_type, EnemyType::Owl);
}

#[test]
fn strong_hit_destroys_and_frees_slot() {
    let mut m = EnemyManager::new();
    m.spawn(EnemyType::Bee, FormationIndex(0, 0), Vec2I::new(100 * 256, 100 * 256));
    let mut q = EventQueue::new();
    let r = m.check_collision(&box_at(Vec2I::new(100, 100)), 1, &mut q);
    assert_eq!(r, CollisionResult::Hit(Vec2I::new(100, 100), true));
    assert_eq!(m.live_enemy_count(), 0);
    assert_eq!(events(&q), vec![EventType::EnemyExplosion(Vec2I::new(100, 100), 0, EnemyType::Bee), EventType::AddScore(50)]);
}

#[test]
fn weak_hit_reports_hit_and_keeps_enemy() {
    let mut m = EnemyManager::new();
    m.spawn(EnemyType::Owl, FormationIndex(0, 0), Vec2I::new(100 * 256, 100 * 256));
    let mut q = EventQueue::new();
    let r = m.check_collision(&box_at(Vec2I::new(100, 100)), 1, &mut q);
    assert_eq!(r, CollisionResult::Hit(Vec2I::new(100, 100), false));
    assert_eq!(m.live_enemy_count(), 1);
    assert_eq!(m.enemy_at(0).unwrap().life, 1);
    assert_eq!(q.len(), 0);
    let r = m.check_collision(&box_at(Vec2I::new(100, 100)), 1, &mut q);
    assert_eq!(r, CollisionResult::Hit(Vec2I::new(100, 100), true));
    assert_eq!(m.live_enemy_count(), 0);
}

#[test]
fn collision_is_first_match_in_slot_order() {
    let mut m = EnemyManager::new();
    m.spawn(EnemyType::Bee, FormationIndex(0, 0), Vec2I::new(100 * 256, 100 * 256));
    m.spawn(EnemyType::Butterfly, FormationIndex(1, 0), Vec2I::new(100 * 256, 100 * 256));
    let mut q = EventQueue::new();
    let r = m.check_collision(&box_at(Vec2I::new(100, 100)), 5, &mut q);
    assert_eq!(r, CollisionResult::Hit(Vec2I::new(100, 100), true));
    assert!(m.enemy_at(0).is_none());
    assert_eq!(m.enemy_at(1).unwrap().enemy_type, EnemyType::Butterfly);
    assert_eq!(m.check_collision(&box_at(Vec2I::new(10, 10)), 5, &mut q), CollisionResult::NoHit);
}

#[test]
fn enemy_flies_in_and_joins_formation() {
    let mut m = EnemyManager::new();
    m.spawn(EnemyType::Bee, FormationIndex(2, 1), Vec2I::new(100 * 256, 20 * 256));
    let mut q = EventQueue::new();
    let mut frames = 0;
    while m.enemy_at(0).unwrap().state == EnemyState::Appearing {
        m.update(None, &mut q);
        frames += 1;
        assert!(frames < 200);
    }
    // Delays of 30, 32 and 10 frames, then the frame that reads the end.
    assert_eq!(frames, 73);
    let e = m.enemy_at(0).unwrap();
    assert_eq!(e.state, EnemyState::InFormation);
    assert_eq!(e.pos, galangua::formation::position_for(&FormationIndex(2, 1), m.phase - 1));
}

#[test]
fn capture_sequence() {
    let mut m = EnemyManager::new();
    let mut player = Player::new();
    let pad = Pad::new();
    m.spawn(EnemyType::Owl, FormationIndex(5, 0), Vec2I::new(112 * 256, 20 * 256));
    let mut seen: Vec<EventType> = Vec::new();
    let mut captured_at = None;
    for frame in 0..2000 {
        let mut q = EventQueue::new();
        let target = *player.raw_pos();
        run_frame(&mut m, Some(target), &mut q);
        player.update(&pad, &mut q);
        for ev in events(&q) {
            match ev {
                EventType::CapturePlayer(p) => player.start_capture(&p),
                EventType::CapturePlayerCompleted => {}
                _ => {}
            }
            seen.push(ev);
        }
        if seen.contains(&EventType::CapturePlayerCompleted) {
            captured_at = Some(frame);
            break;
        }
    }
    assert!(captured_at.is_some());
    let order: Vec<&EventType> = seen
        .iter()
        .filter(|e| matches!(e, EventType::StartCaptureAttack(_) | EventType::CapturePlayer(_) | EventType::CapturePlayerCompleted))
        .collect();
    assert_eq!(order.len(), 3);
    assert!(matches!(order[0], EventType::StartCaptureAttack(FormationIndex(5, 0))));
    assert!(matches!(order[1], EventType::CapturePlayer(_)));
    assert_eq!(*order[2], EventType::CapturePlayerCompleted);
    assert!(player.is_captured());
    assert!(!player.active());

    // Shoot down the enemy holding the ship: the sequence ends.
    let e = m.enemy_at(0).unwrap();
    let mut q = EventQueue::new();
    let r = m.check_collision(&box_at(e.pos()), 2, &mut q);
    assert!(matches!(r, CollisionResult::Hit(_, true)));
    let evs = events(&q);
    assert!(evs.contains(&EventType::CaptureSequenceEnded));
    for ev in evs {
        if ev == EventType::CaptureSequenceEnded {
            player.escape_capturing();
        }
    }
    let mut ended = false;
    for _ in 0..1000 {
        let mut q = EventQueue::new();
        player.update(&pad, &mut q);
        if events(&q).contains(&EventType::EscapeEnded) {
            ended = true;
            break;
        }
    }
    assert!(ended);
    assert!(player.active());
}

#[test]
fn beam_retracts_when_no_ship_comes() {
    let mut m = EnemyManager::new();
    m.spawn(EnemyType::Owl, FormationIndex(5, 0), Vec2I::new(112 * 256, 20 * 256));
    let mut seen: Vec<EventType> = Vec::new();
    for _ in 0..1000 {
        let mut q = EventQueue::new();
        run_frame(&mut m, None, &mut q);
        seen.extend(events(&q));
        if seen.contains(&EventType::EndCaptureAttack) {
            break;
        }
    }
    assert!(seen.contains(&EventType::EndCaptureAttack));
    assert!(!seen.iter().any(|e| matches!(e, EventType::CapturePlayer(_))));
    assert_eq!(m.enemy_at(0).unwrap().state, EnemyState::InFormation);
}

#[test]
fn appearance_waits_for_free_slots() {
    let mut m = EnemyManager::new();
    for i in 0..MAX_ENEMY_COUNT - 1 {
        m.spawn(EnemyType::Bee, FormationIndex((i % 10) as u8, 0), Vec2I::new(100 * 256, 100 * 256));
    }
    let entry = |frame: u32| Appearance {
        enemy_type: EnemyType::Owl,
        slot: FormationIndex(0, 0),
        start: Vec2I::new(50 * 256, 50 * 256),
        frame,
    };
    let mut a = AppearanceManager::new(vec![entry(0), entry(0), entry(3)]);
    a.update(&mut m);
    // Two entries are due but only one slot is free.
    assert_eq!(a.next, 1);
    assert_eq!(m.live_enemy_count(), MAX_ENEMY_COUNT);
    let mut q = EventQueue::new();
    m.check_collision(&box_at(Vec2I::new(100, 100)), 1, &mut q);
    a.update(&mut m);
    assert_eq!(a.next, 2);
    a.update(&mut m);
    assert_eq!(a.next, 2);
    assert!(!a.done());
}

#[test]
fn update_moves_enemies_without_attacking() {
    let mut m = EnemyManager::new();
    m.spawn(EnemyType::Bee, FormationIndex(0, 0), Vec2I::new(100 * 256, 20 * 256));
    let mut q = EventQueue::new();
    for _ in 0..200 {
        m.update(None, &mut q);
    }
    // Without the attack decision the enemy stays in the formation.
    assert_eq!(m.enemy_at(0).unwrap().state, EnemyState::InFormation);
    assert_eq!(m.attack_wait, 60);
    assert_eq!(q.len(), 0);
}
