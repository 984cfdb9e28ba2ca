use vstd::prelude::*;

verus! {

/// Where an enemy stands in the capture sequence.
#[derive(Clone, Copy, Debug, PartialEq, Eq, Structural)]
pub enum CaptureState {
    NoCapture,
    CaptureAttacking,
    Capturing,
    Captured,
    Recapturing,
}

/// Phases of the tractor beam of an enemy in its capture sequence.
#[derive(Clone, Copy, Debug, PartialEq, Eq, Structural)]
pub enum BeamPhase {
    /// The beam grows toward the ground.
    Extending,
    /// The beam is fully out and waits for the player to come under it.
    Holding,
    /// The player is being pulled in.
    Pulling,
    /// The beam shrinks back; nothing was caught.
    Retracting,
}

} // verus!
