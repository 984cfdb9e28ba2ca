use vstd::prelude::*;
use crate::game::{score_after, Game, ScoreHolder};
use crate::player::PlayerState;
use crate::pad::{Pad, PadBit};
use crate::render::{draw_texts, Label, Renderer, TextItem};

verus! {

/// High score when none was stored.
pub const DEFAULT_HIGH_SCORE: u32 = 1000;
/// Largest score the display shows.
pub const MAX_DISP_SCORE: u32 = 9999999;

#[derive(Clone, Copy, Debug, PartialEq, Eq, Structural)]
pub enum AppState {
    Title,
    Game,
}

/// Keys the application reacts to.
#[derive(Clone, Copy, Debug, PartialEq, Eq, Structural)]
pub enum VKey {
    Escape,
    Space,
    Left,
    Right,
    Up,
    Down,
}

pub open spec fn key_bit(k: VKey) -> u8 {
    match k {
        VKey::Left => 1,
        VKey::Right => 2,
        VKey::Up => 4,
        VKey::Down => 8,
        VKey::Space => 16,
        VKey::Escape => 0,
    }
}

/// The application: title screen and game, the scores, and the high score
/// that the host should store.
pub struct GalanguaApp {
    pub state: AppState,
    pub count: u32,
    pub pad: Pad,
    pub held: u8,
    pub pressed_key: Option<VKey>,
    pub game: Option<Game>,
    pub frame_count: u32,
    pub score_holder: ScoreHolder,
    pub prev_high_score: u32,
    pub high_score_to_store: Option<u32>,
}

impl GalanguaApp {
    pub open spec fn wf(&self) -> bool {
        &&& (self.game matches Some(g) ==> g.wf())
        &&& self.score_holder.wf()
        &&& (self.state == AppState::Game ==> self.game is Some)
    }

    /// Starts on the title screen with the stored high score, or the default.
    pub fn new(stored_high_score: Option<u32>) -> (r: Self)
        ensures
            r.wf(),
            r.state == AppState::Title,
            r.score_holder.score == 0,
            r.score_holder.high_score == match stored_high_score { Some(h) => h, None => DEFAULT_HIGH_SCORE },
            r.count == 0,
            r.frame_count == 0,
            r.prev_high_score == 0,
            r.held == 0,
            r.pressed_key is None,
            r.game is None,
            r.high_score_to_store is None,
    {
        let high_score = match stored_high_score {
            Some(h) => h,
            None => DEFAULT_HIGH_SCORE,
        };
        GalanguaApp {
            state: AppState::Title,
            count: 0,
            pad: Pad::new(),
            held: 0,
            pressed_key: None,
            game: None,
            frame_count: 0,
            score_holder: ScoreHolder { score: 0, high_score },
            prev_high_score: 0,
            high_score_to_store: None,
        }
    }

    fn bit(k: VKey) -> (r: u8)
        ensures
            r == key_bit(k),
    {
        match k {
            VKey::Left => 1,
            VKey::Right => 2,
            VKey::Up => 4,
            VKey::Down => 8,
            VKey::Space => 16,
            VKey::Escape => 0,
        }
    }

    /// A key went down or up.
    pub fn on_key(&mut self, vkey: VKey, down: bool)
        requires
            old(self).wf(),
        ensures
            final(self).wf(),
            final(self).held == if down { old(self).held | key_bit(vkey) } else { old(self).held & !key_bit(vkey) },
            final(self).pressed_key == if down { Some(vkey) } else { old(self).pressed_key },
    {
        let b = Self::bit(vkey);
        if down {
            self.held = self.held | b;
            self.pressed_key = Some(vkey);
        } else {
            self.held = self.held & !b;
        }
    }

    /// One frame; false when the application should quit.
    pub fn update(&mut self) -> (r: bool)
        requires
            old(self).wf(),
        ensures
            final(self).wf(),
            final(self).pressed_key is None,
            r == !(old(self).pressed_key == Some(VKey::Escape) && old(self).state == AppState::Title),
    {
        self.pad.update(self.held);
        let result = self.update_main();
        self.pressed_key = None;
        result
    }

    /// Escape leaves a game, or quits from the title. On the title the fire
    /// button starts a game; in a game, the game runs until it is over.
    pub fn update_main(&mut self) -> (r: bool)
        requires
            old(self).wf(),
        ensures
            final(self).wf(),
            final(self).pressed_key == old(self).pressed_key,
            r == !(old(self).pressed_key == Some(VKey::Escape) && old(self).state == AppState::Title),
            old(self).pressed_key == Some(VKey::Escape) && old(self).state == AppState::Title ==> *final(self) == *old(self),
            old(self).pressed_key == Some(VKey::Escape) && old(self).state == AppState::Game ==> final(self).state == AppState::Title,
            old(self).pressed_key != Some(VKey::Escape) && old(self).state == AppState::Title ==> {
                &&& final(self).count == old(self).count.wrapping_add(1)
                &&& final(self).score_holder.high_score == old(self).score_holder.high_score
                &&& final(self).high_score_to_store == old(self).high_score_to_store
            },
            old(self).pressed_key != Some(VKey::Escape) && old(self).state == AppState::Game ==> {
                &&& final(self).frame_count == old(self).frame_count.wrapping_add(1)
                &&& match final(self).game {
                    Some(g) => {
                        let g0 = old(self).game.unwrap();
                        &&& final(self).state == AppState::Game
                        &&& g.player.state != PlayerState::Dead
                        &&& g.appearance.frame == g0.appearance.frame.wrapping_add(1)
                        &&& g.enemy_manager.phase == g0.enemy_manager.phase.wrapping_add(1)
                        &&& final(self).score_holder.score == score_after(old(self).score_holder.score, g.event_queue@)
                    },
                    None => final(self).state == AppState::Title,
                }
            },
            old(self).pressed_key != Some(VKey::Escape) && old(self).state == AppState::Title && !old(self).pad.triggered(PadBit::A) ==> {
                &&& final(self).state == AppState::Title
                &&& final(self).game == old(self).game
                &&& final(self).score_holder == old(self).score_holder
                &&& final(self).frame_count == old(self).frame_count
                &&& final(self).prev_high_score == old(self).prev_high_score
            },
            old(self).pressed_key != Some(VKey::Escape) && old(self).state == AppState::Title && old(self).pad.triggered(PadBit::A) ==> {
                &&& final(self).state == AppState::Game
                &&& final(self).score_holder.score == 0
                &&& final(self).prev_high_score == old(self).score_holder.high_score
                &&& final(self).frame_count == 0
                &&& final(self).game matches Some(g) && g.appearance.schedule@.len() == 50 && g.appearance.next == 0
            },
    {
        if self.pressed_key == Some(VKey::Escape) {
            if self.state != AppState::Title {
                self.back_to_title();
                return true;
            } else {
                return false;
            }
        }
        match self.state {
            AppState::Title => {
                self.count = self.count.wrapping_add(1);
                if self.pad.is_trigger(PadBit::A) {
                    self.game = Some(Game::new());
                    self.prev_high_score = self.score_holder.high_score;
                    self.score_holder.reset_score();
                    self.state = AppState::Game;
                    self.frame_count = 0;
                }
            },
            AppState::Game => {
                self.frame_count = self.frame_count.wrapping_add(1);
                let mut finished = false;
                match &mut self.game {
                    Some(g) => {
                        g.update(&self.pad, &mut self.score_holder);
                        finished = g.is_finished();
                    },
                    None => {},
                }
                if finished {
                    self.back_to_title();
                }
            },
        }
        true
    }

    /// Ends the game; a new high score is handed to the host for storing.
    pub fn back_to_title(&mut self)
        requires
            old(self).wf(),
        ensures
            final(self).wf(),
            final(self).state == AppState::Title,
            final(self).count == 0,
            final(self).game is None,
            final(self).pressed_key == old(self).pressed_key,
            final(self).score_holder == old(self).score_holder,
            final(self).frame_count == old(self).frame_count,
            final(self).high_score_to_store == if old(self).score_holder.high_score > old(self).prev_high_score {
                Some(old(self).score_holder.high_score)
            } else {
                old(self).high_score_to_store
            },
    {
        if self.score_holder.high_score > self.prev_high_score {
            self.on_high_score_updated();
        }
        self.state = AppState::Title;
        self.count = 0;
        self.game = None;
    }

    pub fn on_high_score_updated(&mut self)
        ensures
            final(self).high_score_to_store == Some(old(self).score_holder.high_score),
            final(self).state == old(self).state,
            final(self).count == old(self).count,
            final(self).frame_count == old(self).frame_count,
            final(self).prev_high_score == old(self).prev_high_score,
            final(self).game == old(self).game,
            final(self).score_holder == old(self).score_holder,
            final(self).pressed_key == old(self).pressed_key,
    {
        self.high_score_to_store = Some(self.score_holder.high_score);
    }

    /// The high score the host should store, if it changed; asking clears it.
    pub fn take_high_score_to_store(&mut self) -> (r: Option<u32>)
        ensures
            r == old(self).high_score_to_store,
            final(self).high_score_to_store is None,
            final(self).state == old(self).state,
            final(self).game == old(self).game,
    {
        let r = self.high_score_to_store;
        self.high_score_to_store = None;
        r
    }

    /// The text of the screen: on the title its name, a blinking prompt and
    /// the scores; in a game the scores with a blinking "1UP".
    pub fn texts(&self) -> (r: Vec<TextItem>)
        ensures
            r@ == app_texts(*self),
    {
        let mut v: Vec<TextItem> = Vec::new();
        match self.state {
            AppState::Title => {
                v.push(TextItem::Color(255, 255, 255));
                v.push(TextItem::Str(10 * 8, 8 * 8, Label::Title));
                if self.count & 32 == 0 {
                    v.push(TextItem::Str(2 * 8, 25 * 8, Label::PressStart));
                }
                push_score_texts(&mut v, &self.score_holder, true);
            },
            AppState::Game => {
                push_score_texts(&mut v, &self.score_holder, (self.frame_count & 31) < 16);
            },
        }
        assert(v@ =~= app_texts(*self));
        v
    }

    /// Draws the game's sprites, if a game runs, then exactly `self.texts()`.
    pub fn draw_main<R: Renderer>(&self, renderer: &mut R)
        requires
            self.wf(),
    {
        match &self.game {
            Some(g) => {
                if self.state == AppState::Game {
                    g.draw(renderer);
                }
            },
            None => {},
        }
        let t = self.texts();
        draw_texts(renderer, &t);
    }
}

pub open spec fn min_u32(a: u32, b: u32) -> u32 {
    if a < b { a } else { b }
}

/// The score lines: "1UP" in red if shown, "HIGH SCORE", then in white the
/// score and the high score, each capped at `MAX_DISP_SCORE`, in tens.
pub open spec fn score_texts(s: ScoreHolder, show_1up: bool) -> Seq<TextItem> {
    let head = if show_1up {
        seq![TextItem::Color(255, 0, 0), TextItem::Str(16, 0, Label::OneUp)]
    } else {
        seq![TextItem::Color(255, 0, 0)]
    };
    head + seq![
        TextItem::Str(72, 0, Label::HighScore),
        TextItem::Color(255, 255, 255),
        TextItem::Tens(0, 8, (min_u32(s.score, MAX_DISP_SCORE) / 10) as u32),
        TextItem::Tens(80, 8, (min_u32(s.high_score, MAX_DISP_SCORE) / 10) as u32),
    ]
}

pub open spec fn app_texts(a: GalanguaApp) -> Seq<TextItem> {
    match a.state {
        AppState::Title => {
            let head = seq![TextItem::Color(255, 255, 255), TextItem::Str(80, 64, Label::Title)];
            let head = if a.count & 32 == 0 { head.push(TextItem::Str(16, 200, Label::PressStart)) } else { head };
            head + score_texts(a.score_holder, true)
        },
        AppState::Game => score_texts(a.score_holder, (a.frame_count & 31) < 16),
    }
}

/// Appends the score lines to `out`.
pub fn push_score_texts(out: &mut Vec<TextItem>, score_holder: &ScoreHolder, show_1up: bool)
    ensures
        final(out)@ == old(out)@ + score_texts(*score_holder, show_1up),
{
    out.push(TextItem::Color(255, 0, 0));
    if show_1up {
        out.push(TextItem::Str(2 * 8, 0, Label::OneUp));
    }
    out.push(TextItem::Str(9 * 8, 0, Label::HighScore));
    out.push(TextItem::Color(255, 255, 255));
    let score = if score_holder.score < MAX_DISP_SCORE { score_holder.score } else { MAX_DISP_SCORE };
    out.push(TextItem::Tens(0, 8, score / 10));
    let high_score = if score_holder.high_score < MAX_DISP_SCORE { score_holder.high_score } else { MAX_DISP_SCORE };
    out.push(TextItem::Tens(10 * 8, 8, high_score / 10));
    assert(out@ =~= old(out)@ + score_texts(*score_holder, show_1up));
}

/// Draws exactly the score lines `score_texts(score_holder, show_1up)`.
pub fn draw_scores<R: Renderer>(renderer: &mut R, score_holder: &ScoreHolder, show_1up: bool) {
    let mut v: Vec<TextItem> = Vec::new();
    push_score_texts(&mut v, score_holder, show_1up);
    draw_texts(renderer, &v);
}

} // verus!
