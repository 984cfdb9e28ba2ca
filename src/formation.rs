use vstd::prelude::*;
use crate::math::ONE;
use crate::types::{Vector2D, Vec2I};

verus! {

/// A slot of the formation grid: (column, row).
#[derive(Clone, Copy, Debug, PartialEq, Eq, Structural)]
pub struct FormationIndex(pub u8, pub u8);

/// Number of columns and rows of the formation grid.
pub const FORMATION_COLUMNS: u8 = 10;
pub const FORMATION_ROWS: u8 = 6;
/// Display position of slot (0, 0) when the sway offset is zero.
pub const BASE_X: i32 = 32;
pub const BASE_Y: i32 = 40;
/// Distance between neighbouring slots, in display units.
pub const GRID: i32 = 16;
/// Frames in one full sway of the formation.
pub const SWAY_PERIOD: u32 = 256;

impl FormationIndex {
    pub open spec fn valid(&self) -> bool {
        self.0 < FORMATION_COLUMNS && self.1 < FORMATION_ROWS
    }
}

/// Horizontal sway, in fixed point: a triangle wave that rises for half a
/// period and falls back for the other half, so it has no jump at wraparound.
pub open spec fn sway(phase: nat) -> int {
    let p = phase % (SWAY_PERIOD as nat);
    if p < 128 {
        p * (ONE / 8)
    } else {
        (256 - p) * (ONE / 8)
    }
}

/// The home position of `slot` at formation phase `phase`, in fixed point.
pub open spec fn formation_pos(slot: FormationIndex, phase: nat) -> Vec2I {
    Vector2D {
        x: ((BASE_X + slot.0 * GRID) * ONE + sway(phase)) as i32,
        y: ((BASE_Y + slot.1 * GRID) * ONE) as i32,
    }
}

/// Home position of a formation slot: the grid offset plus a sway common to
/// the whole formation. It depends on nothing but its arguments.
pub fn position_for(slot: &FormationIndex, phase: u32) -> (r: Vec2I)
    requires
        slot.valid(),
    ensures
        r == formation_pos(*slot, phase as nat),
{
    let p: u32 = phase % SWAY_PERIOD;
    let s: i32 = if p < 128 { (p as i32) * (ONE / 8) } else { (256 - p as i32) * (ONE / 8) };
    let x: i32 = (BASE_X + (slot.0 as i32) * GRID) * ONE + s;
    let y: i32 = (BASE_Y + (slot.1 as i32) * GRID) * ONE;
    Vector2D { x, y }
}

/// A home position depends on the slot and on the phase within the sway
/// period alone: phases a whole number of periods apart give the same
/// position, so an enemy re-entering the formation lands exactly on its slot.
pub proof fn lemma_position_deterministic(slot: FormationIndex, phase1: nat, phase2: nat)
    requires
        phase1 % (SWAY_PERIOD as nat) == phase2 % (SWAY_PERIOD as nat),
    ensures
        formation_pos(slot, phase1) == formation_pos(slot, phase2),
{
}

/// From one frame to the next a home position moves by at most one eighth of a
/// display unit, also where the phase wraps around: no slot jumps.
pub proof fn lemma_sway_continuous(slot: FormationIndex, phase: nat)
    requires
        slot.valid(),
    ensures
        formation_pos(slot, (phase + 1) as nat).y == formation_pos(slot, phase).y,
        -(ONE / 8) <= formation_pos(slot, (phase + 1) as nat).x - formation_pos(slot, phase).x <= ONE / 8,
{
    let p = phase % 256;
    assert(((phase + 1) as nat) % 256 == if p == 255 { 0 } else { p + 1 });
}

} // verus!
