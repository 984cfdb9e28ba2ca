use galangua::classic;
use galangua::event_queue::{EventQueue, EventType};
use galangua::fighter;
use galangua::pad::Pad;
use galangua::player::{Player, PlayerState};
use galangua::shot::MyShot;
use galangua::types::Vec2I;

fn pad(pressed: u8, trigger: u8) -> Pad {
    Pad { pressed, trigger }
}

#[test]
fn player_moves_and_clamps() {
    let mut p = Player::new();
    let mut q = EventQueue::new();
    let x0 = p.raw_pos().x;
    p.update(&pad(1, 0), &mut q);
    assert_eq!(p.raw_pos().x, x0 - 512);
    p.update(&pad(2, 0), &mut q);
    assert_eq!(p.raw_pos().x, x0);
    for _ in 0..200 {
        p.update(&pad(1, 0), &mut q);
    }
    assert_eq!(p.raw_pos().x, 8 * 256);
    for _ in 0..200 {
        p.update(&pad(2, 0), &mut q);
    }
    assert_eq!(p.raw_pos().x, (224 - 8) * 256);
    assert_eq!(q.len(), 0);
}

#[test]
fn player_fires_on_trigger() {
    let mut p = Player::new();
    let mut q = EventQueue::new();
    p.update(&pad(16, 16), &mut q);
    assert_eq!(q.len(), 1);
    assert_eq!(q.get(0), EventType::MyShot(Vec2I::new(112 * 256, 260 * 256), false, 0));
    p.set_shot_enable(false);
    p.update(&pad(16, 16), &mut q);
    assert_eq!(q.len(), 1);
}

#[test]
fn player_crash_single_and_dual() {
    let mut p = Player::new();
    assert!(p.crash(&Vec2I::new(0, 0)));
    assert!(!p.active());
    let mut p = Player::new();
    p.dual = true;
    let x0 = p.raw_pos().x;
    assert!(!p.crash(&Vec2I::new(0, 0)));
    assert_eq!(p.raw_pos().x, x0 + 16 * 256);
    assert!(!p.is_dual());
    assert!(p.active());
}

#[test]
fn player_capture_pull_in() {
    let mut p = Player::new();
    let mut q = EventQueue::new();
    let start = *p.raw_pos();
    let target = Vec2I::new(start.x + 3 * 256, start.y - 2 * 256);
    p.start_capture(&target);
    for _ in 0..3 {
        p.update(&pad(0, 0), &mut q);
    }
    assert_eq!(*p.raw_pos(), target);
    assert!(!p.is_captured());
    p.update(&pad(0, 0), &mut q);
    assert!(p.is_captured());
    p.complete_capture();
    assert_eq!(p.state, PlayerState::CaptureCompleted);
}

#[test]
fn player_recapture_makes_dual() {
    let mut p = Player::new();
    let mut q = EventQueue::new();
    p.start_recapture_effect(&Vec2I::new(120 * 256, 200 * 256));
    p.start_move_home_pos();
    let mut done = false;
    for _ in 0..500 {
        p.update(&pad(0, 0), &mut q);
        if p.is_dual() {
            done = true;
            break;
        }
    }
    assert!(done);
    assert!(p.active());
    assert_eq!(q.get(q.len() - 1), EventType::RecaptureEnded);
    assert_eq!(p.dual_pos(), Some(Vec2I::new(p.raw_pos().x + 16 * 256, p.raw_pos().y)));
    assert!(p.dual_collbox().is_some());
}

#[test]
fn fighter_player_ships_and_restart() {
    let mut p = fighter::Player::new();
    assert_eq!(p.left_ship, 3);
    p.crash(&Vec2I::new(0, 0));
    assert!(!p.active());
    assert!(p.decrement_and_restart());
    assert!(p.active());
    assert!(p.decrement_and_restart());
    assert!(!p.decrement_and_restart());
    assert_eq!(p.pos(), Vec2I::new(112, 264));
}

#[test]
fn fighter_player_fires_below_center() {
    let mut p = fighter::Player::new();
    let mut q = EventQueue::new();
    p.update(&pad(16, 16), &mut q);
    assert_eq!(q.get(0), EventType::MyShot(Vec2I::new(112 * 256, 266 * 256), false, 0));
    assert_eq!(p.get_collbox().unwrap().top_left, Vec2I::new(104, 256));
}

#[test]
fn fixed_point_shot_flies_and_leaves() {
    let mut s = MyShot::new(&Vec2I::new(100 * 256, 20 * 256), true, 0);
    assert!(s.update());
    assert_eq!(s.pos(), Vec2I::new(100, 12));
    assert_eq!(s.get_collbox_for_dual().unwrap().top_left, Vec2I::new(115, 8));
    assert!(s.update());
    assert!(!s.update());
    let mut r = MyShot::new(&Vec2I::new(100 * 256, 100 * 256), false, 16384);
    assert!(r.update());
    assert_eq!(r.pos(), Vec2I::new(108, 100));
    assert!(r.get_collbox_for_dual().is_none());
    assert_eq!(fighter::calc_display_angle(16384), 16384);
    assert_eq!(fighter::calc_display_angle(1000), 0);
}

#[test]
fn pixel_ship_and_shot() {
    let mut p = classic::Player::new();
    p.update(&pad(16, 0));
    assert_eq!((p.mx, p.my), (120, 272));
    p.update(&pad(1, 0));
    assert_eq!(p.x, 118);
    assert_eq!(p.my, 264);
    let mut s = classic::MyShot::new(10, 9);
    assert!(s.update());
    assert!(!s.update());
    assert_eq!(s.get_collbox().top_left, Vec2I::new(9, -11));
}

#[test]
fn pad_trigger_on_press_only() {
    let mut p = Pad::new();
    p.update(16);
    assert!(p.is_trigger(galangua::pad::PadBit::A));
    p.update(16);
    assert!(!p.is_trigger(galangua::pad::PadBit::A));
    assert!(p.is_pressed(galangua::pad::PadBit::A));
}

#[test]
fn dead_player_returns_when_rescued_fighter_lands() {
    let mut p = Player::new();
    let mut q = EventQueue::new();
    assert!(p.crash(&Vec2I::new(0, 0)));
    p.start_recapture_effect(&Vec2I::new(112 * 256, 262 * 256));
    p.update(&pad(0, 0), &mut q);
    assert_eq!(p.state, PlayerState::Dead);
    assert_eq!(q.len(), 0);
    p.update(&pad(0, 0), &mut q);
    assert!(p.active());
    assert_eq!(p.raw_pos().x, 112 * 256);
    assert!(p.recaptured_fighter.is_none());
    assert_eq!(q.get(0), EventType::RecaptureEnded);
}

#[test]
fn move_home_waits_for_fighter() {
    let mut p = Player::new();
    let mut q = EventQueue::new();
    p.start_recapture_effect(&Vec2I::new(120 * 256, 200 * 256));
    p.start_move_home_pos();
    for _ in 0..4 {
        p.update(&pad(0, 0), &mut q);
    }
    // Home is reached after four frames; the fighter is still on its way.
    assert_eq!(p.raw_pos().x, 104 * 256);
    assert_eq!(p.state, PlayerState::MoveHomePos);
    assert!(!p.is_dual());
    assert_eq!(q.len(), 0);
}

#[test]
fn spin_angle_keeps_growing_during_pull_in() {
    let mut p = Player::new();
    let mut q = EventQueue::new();
    let start = *p.raw_pos();
    p.start_capture(&Vec2I::new(start.x, start.y - 40 * 256));
    for _ in 0..16 {
        p.update(&pad(0, 0), &mut q);
    }
    assert_eq!(p.angle, 65536);
    p.update(&pad(16, 16), &mut q);
    assert_eq!(q.get(0), EventType::MyShot(Vec2I::new(start.x, start.y - 17 * 256 - 4 * 256), false, 65536 + 4096));
    assert_eq!(fighter::calc_display_angle(65536 + 16384), 16384);
    assert_eq!(fighter::calc_display_angle(-1000), 0);
}

#[test]
fn crash_shifts_dual_ship_by_sixteen_units() {
    let mut p = Player::new();
    p.dual = true;
    let x0 = p.raw_pos().x;
    assert!(!p.crash(&Vec2I::new(x0 + 8 * 256, 0)));
    assert_eq!(p.raw_pos().x, x0);
    assert!(!p.is_dual());
}
