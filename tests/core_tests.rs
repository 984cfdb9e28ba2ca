use galangua::collision::CollBox;
use galangua::enemy_manager::out_of_screen;
use galangua::event_queue::{EventQueue, EventType};
use galangua::formation::{position_for, FormationIndex};
use galangua::math::{calc_velocity, clamp, quantize_angle, round_up};
use galangua::scripts::{script, TrajId};
use galangua::traj::{TrajCommand, TrajCursor};
use galangua::types::Vec2I;

fn cbox(x: i32, y: i32, w: i32, h: i32) -> CollBox {
    CollBox { top_left: Vec2I::new(x, y), size: Vec2I::new(w, h) }
}

#[test]
fn collision_overlap_both_axes() {
    let a = cbox(0, 0, 10, 10);
    assert!(a.check_collision(&cbox(5, 5, 10, 10)));
    assert!(cbox(5, 5, 10, 10).check_collision(&a));
    assert!(!a.check_collision(&cbox(5, 20, 10, 10)));
    assert!(!a.check_collision(&cbox(20, 5, 10, 10)));
}

#[test]
fn collision_touching_edges_do_not_overlap() {
    let a = cbox(0, 0, 10, 10);
    for b in [cbox(10, 0, 5, 5), cbox(-5, 0, 5, 5), cbox(0, 10, 5, 5), cbox(0, -5, 5, 5)] {
        assert!(!a.check_collision(&b));
        assert!(!b.check_collision(&a));
    }
    assert!(a.check_collision(&cbox(9, 9, 5, 5)));
}

#[test]
fn formation_position_is_deterministic() {
    let slot = FormationIndex(3, 2);
    assert_eq!(position_for(&slot, 77), position_for(&slot, 77));
    assert_eq!(position_for(&FormationIndex(0, 0), 0), Vec2I::new(32 * 256, 40 * 256));
    assert_eq!(position_for(&FormationIndex(0, 0), 64), Vec2I::new(32 * 256 + 2048, 40 * 256));
    assert_eq!(position_for(&FormationIndex(1, 1), 192), Vec2I::new(48 * 256 + 2048, 56 * 256));
    assert_eq!(position_for(&slot, 5), position_for(&slot, 5 + 256));
}

#[test]
fn formation_sway_has_no_jump_at_wraparound() {
    let slot = FormationIndex(0, 0);
    let a = position_for(&slot, 255);
    let b = position_for(&slot, 256);
    assert!((a.x - b.x).abs() <= 32);
}

#[test]
fn math_helpers() {
    assert_eq!(clamp(5, -3, 3), 3);
    assert_eq!(clamp(-5, -3, 3), -3);
    assert_eq!(clamp(1, -3, 3), 1);
    assert_eq!(round_up(&Vec2I::new(384, -129)), Vec2I::new(2, -1));
    assert_eq!(quantize_angle(0, 16), 0);
    assert_eq!(quantize_angle(2047, 16), 0);
    assert_eq!(quantize_angle(2048, 16), 1);
    assert_eq!(quantize_angle(65535, 16), 0);
    assert_eq!(calc_velocity(0, 256), Vec2I::new(0, -256));
    assert_eq!(calc_velocity(16384, 256), Vec2I::new(256, 0));
    assert_eq!(calc_velocity(32768, 512), Vec2I::new(0, 512));
    assert_eq!(calc_velocity(8192, 256), Vec2I::new(181, -181));
}

#[test]
fn event_queue_push_len_clear() {
    let mut q = EventQueue::new();
    assert_eq!(q.len(), 0);
    q.push(EventType::AddScore(10));
    q.push(EventType::DeadPlayer);
    assert_eq!(q.len(), 2);
    assert_eq!(q.get(0), EventType::AddScore(10));
    assert_eq!(q.get(1), EventType::DeadPlayer);
    q.clear();
    assert_eq!(q.len(), 0);
}

#[test]
fn bounded_script_ends_after_computed_frames() {
    let s = script(TrajId::Swirl);
    let mut c = TrajCursor::new(Vec2I::new(100 * 256, 50 * 256));
    let mut frames = 0;
    while !c.step(&s) {
        frames += 1;
        assert!(frames < 1000);
    }
    assert_eq!(frames + 1, 91);
    assert!(c.step(&s));
}

#[test]
fn infinite_script_never_ends() {
    let s = script(TrajId::Dive);
    let mut c = TrajCursor::new(Vec2I::new(100 * 256, 50 * 256));
    for _ in 0..10000 {
        assert!(!c.step(&s));
    }
}

#[test]
fn script_moves_and_delays() {
    let s = vec![TrajCommand::SetPos(1000, 2000), TrajCommand::SetSpeed(256), TrajCommand::SetAngle(32768), TrajCommand::Delay(3), TrajCommand::End];
    let mut c = TrajCursor::new(Vec2I::new(0, 0));
    assert!(!c.step(&s));
    assert_eq!(c.pos, Vec2I::new(1000, 2256));
    assert!(!c.step(&s));
    assert!(!c.step(&s));
    assert_eq!(c.pos, Vec2I::new(1000, 2768));
    assert!(c.step(&s));
    assert_eq!(c.pos, Vec2I::new(1000, 2768));
}

#[test]
fn running_past_the_last_instruction_ends_the_script() {
    let s = vec![TrajCommand::SetSpeed(256)];
    let mut c = TrajCursor::new(Vec2I::new(0, 0));
    assert!(c.step(&s));
}

#[test]
fn loop_repeats_its_body() {
    let s = vec![TrajCommand::SetSpeed(256), TrajCommand::Delay(1), TrajCommand::Loop(1, 2), TrajCommand::End];
    let mut c = TrajCursor::new(Vec2I::new(0, 0));
    let mut frames = 1;
    while !c.step(&s) {
        frames += 1;
    }
    // Delay, jump, delay, jump, delay, then the end.
    assert_eq!(frames, 6);
}

#[test]
fn out_of_screen_margin() {
    assert!(!out_of_screen(Vec2I::new(-16, -16)));
    assert!(!out_of_screen(Vec2I::new(240, 304)));
    assert!(out_of_screen(Vec2I::new(-17, 0)));
    assert!(out_of_screen(Vec2I::new(241, 0)));
    assert!(out_of_screen(Vec2I::new(0, -17)));
    assert!(out_of_screen(Vec2I::new(0, 305)));
}

#[test]
fn sound_events_carry_a_name() {
    let mut q = EventQueue::new();
    q.push(EventType::PlaySe(1, "shot"));
    assert_eq!(q.get(0), EventType::PlaySe(1, "shot"));
}
