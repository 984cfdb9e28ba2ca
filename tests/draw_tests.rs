use galangua::classic;
use galangua::event_queue::EventQueue;
use galangua::fighter;
use galangua::game::Game;
use galangua::pad::Pad;
use galangua::render::{Sprite, SpriteName};
use galangua::enemy_manager::EnemyManager;
use galangua::event_queue::EnemyType;
use galangua::formation::FormationIndex;
use galangua::galangua_app::GalanguaApp;
use galangua::player::Player;
use galangua::render::Renderer;
use galangua::shot::MyShot;
use galangua::types::Vec2I;

#[derive(Default)]
struct Recorder {
    sprites: Vec<(String, Vec2I)>,
    texts: Vec<String>,
}

impl Renderer for Recorder {
    fn draw_sprite(&mut self, name: &str, pos: &Vec2I) {
        self.sprites.push((name.to_string(), *pos));
    }

    fn draw_sprite_rot(&mut self, name: &str, pos: &Vec2I, _angle: i32, _center: Option<Vec2I>) {
        self.sprites.push((name.to_string(), *pos));
    }

    fn draw_str(&mut self, _font: &str, _x: i32, _y: i32, text: &str) {
        self.texts.push(text.to_string());
    }

    fn draw_tens(&mut self, _font: &str, _x: i32, _y: i32, tens: u32) {
        self.texts.push(format!("{:6}0", tens));
    }

    fn set_texture_color_mod(&mut self, _font: &str, _r: u8, _g: u8, _b: u8) {}
}

#[test]
fn player_draws_both_ships_when_dual() {
    let mut p = Player::new();
    let mut r = Recorder::default();
    p.draw(&mut r);
    assert_eq!(r.sprites, vec![("rustacean".to_string(), Vec2I::new(104, 256))]);
    p.dual = true;
    let mut r = Recorder::default();
    p.draw(&mut r);
    assert_eq!(r.sprites.len(), 2);
    assert_eq!(r.sprites[1].1, Vec2I::new(120, 256));
}

#[test]
fn manager_draws_live_enemies_only() {
    let mut m = EnemyManager::new();
    m.spawn(EnemyType::Bee, FormationIndex(0, 0), Vec2I::new(100 * 256, 100 * 256));
    m.spawn(EnemyType::Owl, FormationIndex(1, 0), Vec2I::new(50 * 256, 60 * 256));
    let mut r = Recorder::default();
    m.draw(&mut r);
    assert_eq!(r.sprites, vec![("bee".to_string(), Vec2I::new(92, 92)), ("owl".to_string(), Vec2I::new(42, 52))]);
}

#[test]
fn shots_draw_at_their_position() {
    let s = MyShot::new(&Vec2I::new(100 * 256, 50 * 256), true, 0);
    let mut r = Recorder::default();
    s.draw(&mut r);
    assert_eq!(r.sprites, vec![("myshot".to_string(), Vec2I::new(98, 46)), ("myshot".to_string(), Vec2I::new(114, 46))]);
    let c = classic::MyShot::new(10, 20);
    let mut r = Recorder::default();
    c.draw(&mut r);
    assert_eq!(r.sprites, vec![("myshot".to_string(), Vec2I::new(6, 16))]);
}

#[test]
fn title_screen_shows_scores() {
    let app = GalanguaApp::new(Some(12345));
    let mut r = Recorder::default();
    app.draw_main(&mut r);
    assert_eq!(r.texts, vec!["GALANGUA", "PRESS SPACE KEY TO START", "1UP", "HIGH SCORE", "     00", "  12340"]);
}

#[test]
fn spare_ship_icons_follow_the_ship() {
    let p = fighter::Player::new();
    let s = p.sprites();
    assert_eq!(s.len(), 3);
    assert_eq!(s[1], Sprite { name: SpriteName::Rustacean, pos: Vec2I::new(0, 272), angle: None });
    assert_eq!(s[2], Sprite { name: SpriteName::Rustacean, pos: Vec2I::new(16, 272), angle: None });
}

#[test]
fn spinning_ship_draws_its_facing() {
    let mut p = Player::new();
    let mut q = EventQueue::new();
    let start = *p.raw_pos();
    p.start_capture(&Vec2I::new(start.x, start.y - 40 * 256));
    for _ in 0..17 {
        p.update(&Pad::new(), &mut q);
    }
    // One full turn and one step: the first facing past straight up.
    let s = p.sprites();
    assert_eq!(s.len(), 1);
    assert_eq!(s[0].angle, Some(4096));
}

#[test]
fn game_sprites_list_pool_then_ship() {
    let g = Game::new();
    let s = g.sprites();
    assert_eq!(s.len(), 1);
    assert_eq!(s[0].name.as_str(), "rustacean");
}
