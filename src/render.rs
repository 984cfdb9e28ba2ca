use vstd::prelude::*;
use crate::types::Vec2I;

verus! {

/// What the simulation needs from a renderer: sprites drawn by name at a
/// display position, optionally rotated by a fixed-point angle.
pub trait Renderer {
    fn draw_sprite(&mut self, name: &str, pos: &Vec2I);

    fn draw_sprite_rot(&mut self, name: &str, pos: &Vec2I, angle: i32, center: Option<Vec2I>);

    /// Text in the font named `font`, with its top-left corner at (x, y).
    fn draw_str(&mut self, font: &str, x: i32, y: i32, text: &str);

    /// A score shown as `tens` right-aligned in six columns, then a zero.
    fn draw_tens(&mut self, font: &str, x: i32, y: i32, tens: u32);

    fn set_texture_color_mod(&mut self, font: &str, r: u8, g: u8, b: u8);
}

/// Sprites of the playfield.
#[derive(Clone, Copy, Debug, PartialEq, Eq, Structural)]
pub enum SpriteName {
    Rustacean,
    RustaceanCaptured,
    MyShot,
    Bee,
    Butterfly,
    Owl,
    Beam,
}

impl SpriteName {
    /// The name the renderer knows the sprite by.
    pub fn as_str(&self) -> &'static str {
        match self {
            SpriteName::Rustacean => "rustacean",
            SpriteName::RustaceanCaptured => "rustacean_captured",
            SpriteName::MyShot => "myshot",
            SpriteName::Bee => "bee",
            SpriteName::Butterfly => "butterfly",
            SpriteName::Owl => "owl",
            SpriteName::Beam => "beam",
        }
    }
}

/// One sprite to draw: which, where its top-left corner goes in display
/// units, and its rotation as a fixed-point angle, if rotated.
#[derive(Clone, Copy, Debug, PartialEq, Eq, Structural)]
pub struct Sprite {
    pub name: SpriteName,
    pub pos: Vec2I,
    pub angle: Option<i32>,
}

/// Hands the sprites to the renderer, in order.
pub fn draw_sprites<R: Renderer>(renderer: &mut R, sprites: &Vec<Sprite>) {
    let mut i: usize = 0;
    while i < sprites.len()
        invariant
            i <= sprites@.len(),
        decreases sprites@.len() - i,
    {
        let s = sprites[i];
        match s.angle {
            None => renderer.draw_sprite(s.name.as_str(), &s.pos),
            Some(a) => renderer.draw_sprite_rot(s.name.as_str(), &s.pos, a, None),
        }
        i = i + 1;
    }
}

/// Fixed texts of the screens.
#[derive(Clone, Copy, Debug, PartialEq, Eq, Structural)]
pub enum Label {
    Title,
    PressStart,
    OneUp,
    HighScore,
}

impl Label {
    pub fn as_str(&self) -> &'static str {
        match self {
            Label::Title => "GALANGUA",
            Label::PressStart => "PRESS SPACE KEY TO START",
            Label::OneUp => "1UP",
            Label::HighScore => "HIGH SCORE",
        }
    }
}

/// One step of text drawing in the font: set the colour, write a label, or
/// write a score given in tens, at a top-left position in display units.
#[derive(Clone, Copy, Debug, PartialEq, Eq, Structural)]
pub enum TextItem {
    Color(u8, u8, u8),
    Str(i32, i32, Label),
    Tens(i32, i32, u32),
}

/// Hands the text items to the renderer, in order, in the font named "font".
pub fn draw_texts<R: Renderer>(renderer: &mut R, items: &Vec<TextItem>) {
    let mut i: usize = 0;
    while i < items.len()
        invariant
            i <= items@.len(),
        decreases items@.len() - i,
    {
        match items[i] {
            TextItem::Color(r, g, b) => renderer.set_texture_color_mod("font", r, g, b),
            TextItem::Str(x, y, l) => renderer.draw_str("font", x, y, l.as_str()),
            TextItem::Tens(x, y, t) => renderer.draw_tens("font", x, y, t),
        }
        i = i + 1;
    }
}

} // verus!
