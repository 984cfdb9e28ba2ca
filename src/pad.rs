use vstd::prelude::*;

verus! {

/// Buttons of the game pad.
#[derive(Clone, Copy, Debug, PartialEq, Eq, Structural)]
pub enum PadBit {
    L,
    R,
    U,
    D,
    A,
}

pub open spec fn bit_of(b: PadBit) -> u8 {
    match b {
        PadBit::L => 1,
        PadBit::R => 2,
        PadBit::U => 4,
        PadBit::D => 8,
        PadBit::A => 16,
    }
}

/// One frame of pad input: the buttons held, and those pressed this frame.
#[derive(Clone, Copy, Debug, PartialEq, Eq, Structural)]
pub struct Pad {
    pub pressed: u8,
    pub trigger: u8,
}

impl Pad {
    pub fn new() -> (r: Pad)
        ensures
            r.pressed == 0,
            r.trigger == 0,
    {
        Pad { pressed: 0, trigger: 0 }
    }

    /// Pad state after a frame in which `now` is held; a button triggers on the
    /// frame it goes down.
    pub fn update(&mut self, now: u8)
        ensures
            final(self).pressed == now,
            final(self).trigger == now & !old(self).pressed,
    {
        self.trigger = now & !self.pressed;
        self.pressed = now;
    }

    pub open spec fn held(&self, b: PadBit) -> bool {
        self.pressed & bit_of(b) != 0
    }

    pub open spec fn triggered(&self, b: PadBit) -> bool {
        self.trigger & bit_of(b) != 0
    }

    fn bit(b: PadBit) -> (r: u8)
        ensures
            r == bit_of(b),
    {
        match b {
            PadBit::L => 1,
            PadBit::R => 2,
            PadBit::U => 4,
            PadBit::D => 8,
            PadBit::A => 16,
        }
    }

    pub fn is_pressed(&self, b: PadBit) -> (r: bool)
        ensures
            r == self.held(b),
    {
        self.pressed & Self::bit(b) != 0
    }

    pub fn is_trigger(&self, b: PadBit) -> (r: bool)
        ensures
            r == self.triggered(b),
    {
        self.trigger & Self::bit(b) != 0
    }
}

} // verus!
