use galangua::galangua_app::{AppState, GalanguaApp, VKey, DEFAULT_HIGH_SCORE};
use galangua::game::{Game, ScoreHolder};
use galangua::event_queue::EventType;
use galangua::pad::Pad;

#[test]
fn app_uses_stored_or_default_high_score() {
    assert_eq!(GalanguaApp::new(None).score_holder.high_score, DEFAULT_HIGH_SCORE);
    assert_eq!(GalanguaApp::new(Some(4321)).score_holder.high_score, 4321);
}

#[test]
fn app_escape_on_title_quits() {
    let mut app = GalanguaApp::new(None);
    assert!(app.update());
    app.on_key(VKey::Escape, true);
    assert!(!app.update());
}

#[test]
fn app_fire_starts_game_and_escape_returns_to_title() {
    let mut app = GalanguaApp::new(None);
    app.on_key(VKey::Space, true);
    assert!(app.update());
    assert_eq!(app.state, AppState::Game);
    assert_eq!(app.score_holder.score, 0);
    app.on_key(VKey::Space, false);
    for _ in 0..10 {
        assert!(app.update());
    }
    assert_eq!(app.frame_count, 10);
    app.on_key(VKey::Escape, true);
    assert!(app.update());
    assert_eq!(app.state, AppState::Title);
    assert!(app.game.is_none());
    assert_eq!(app.take_high_score_to_store(), None);
}

#[test]
fn app_hands_new_high_score_to_host() {
    let mut app = GalanguaApp::new(Some(100));
    app.on_key(VKey::Space, true);
    app.update();
    app.score_holder.add_score(250);
    app.on_key(VKey::Escape, true);
    app.update();
    assert_eq!(app.take_high_score_to_store(), Some(250));
    assert_eq!(app.take_high_score_to_store(), None);
}

#[test]
fn score_holder_saturates_and_tracks_high_score() {
    let mut s = ScoreHolder { score: 0, high_score: 100 };
    s.add_score(50);
    assert_eq!((s.score, s.high_score), (50, 100));
    s.add_score(80);
    assert_eq!((s.score, s.high_score), (130, 130));
    s.add_score(u32::MAX);
    assert_eq!(s.score, u32::MAX);
    s.reset_score();
    assert_eq!((s.score, s.high_score), (0, u32::MAX));
}

#[test]
fn game_fires_at_most_two_shots() {
    let mut g = Game::new();
    assert_eq!(g.enemy_manager.live_enemy_count(), 0);
    let mut score = ScoreHolder { score: 0, high_score: 0 };
    let fire = Pad { pressed: 16, trigger: 16 };
    g.update(&fire, &mut score);
    assert_eq!(g.shots.len(), 1);
    assert_eq!(g.enemy_manager.live_enemy_count(), 1);
    g.update(&fire, &mut score);
    g.update(&fire, &mut score);
    assert_eq!(g.shots.len(), 2);
    assert!(!g.is_finished());
}

#[test]
fn game_shots_score_against_the_wave() {
    let mut g = Game::new();
    let mut score = ScoreHolder { score: 0, high_score: 0 };
    let idle = Pad::new();
    for _ in 0..80 {
        g.update(&idle, &mut score);
    }
    for i in 0..400 {
        let pad = if i % 8 == 0 { Pad { pressed: 16, trigger: 16 } } else { Pad::new() };
        let before = score.score;
        g.update(&pad, &mut score);
        let mut gained = 0;
        for k in 0..g.event_queue.len() {
            if let EventType::AddScore(p) = g.event_queue.get(k) {
                gained += p;
            }
        }
        assert_eq!(score.score, before + gained);
    }
    assert!(score.score > 0);
    assert!(g.enemy_manager.live_enemy_count() < 50);
}

#[test]
fn wave_enters_one_by_one() {
    let mut g = Game::new();
    let mut score = ScoreHolder { score: 0, high_score: 0 };
    let idle = Pad::new();
    for _ in 0..7 {
        g.update(&idle, &mut score);
    }
    assert_eq!(g.enemy_manager.live_enemy_count(), 2);
    assert_eq!(g.appearance.next, 2);
    assert!(!g.appearance.done());
}
