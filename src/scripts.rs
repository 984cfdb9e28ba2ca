use vstd::prelude::*;
use crate::traj::{cmd_wf, script_wf, TrajCommand};

verus! {

/// The trajectory scripts, by use.
#[derive(Clone, Copy, Debug, PartialEq, Eq, Structural)]
pub enum TrajId {
    /// Flight in from the spawn point to the formation.
    Entry,
    /// A weaving dive that never ends: the enemy leaves through the bottom.
    Dive,
    /// Two swirls, then back to the formation.
    Swirl,
    /// Straight down to where the tractor beam opens.
    CaptureDive,
}

pub open spec fn script_of(id: TrajId) -> Seq<TrajCommand> {
    match id {
        TrajId::Entry => seq![
            TrajCommand::SetSpeed(768),
            TrajCommand::SetAngle(32768),
            TrajCommand::Delay(30),
            TrajCommand::SetVAngle(1024),
            TrajCommand::Delay(32),
            TrajCommand::SetVAngle(0),
            TrajCommand::Delay(10),
            TrajCommand::End,
        ],
        TrajId::Dive => seq![
            TrajCommand::SetSpeed(1024),
            TrajCommand::SetAngle(32768),
            TrajCommand::SetVAngle(0),
            TrajCommand::Delay(20),
            TrajCommand::SetVAngle(256),
            TrajCommand::Delay(16),
            TrajCommand::SetVAngle(-256i32),
            TrajCommand::Delay(16),
            TrajCommand::Jump(3),
        ],
        TrajId::Swirl => seq![
            TrajCommand::SetSpeed(768),
            TrajCommand::SetAngle(32768),
            TrajCommand::Delay(16),
            TrajCommand::SetVAngle(2048),
            TrajCommand::Delay(16),
            TrajCommand::SetVAngle(0),
            TrajCommand::Delay(8),
            TrajCommand::Loop(3, 2),
            TrajCommand::End,
        ],
        TrajId::CaptureDive => seq![
            TrajCommand::SetSpeed(768),
            TrajCommand::SetAngle(32768),
            TrajCommand::SetVAngle(0),
            TrajCommand::Delay(48),
            TrajCommand::End,
        ],
    }
}

/// Every script of the table is one the interpreter accepts.
pub proof fn lemma_scripts_wf(id: TrajId)
    ensures
        script_wf(script_of(id)),
{
    let s = script_of(id);
    assert forall|i: int| 0 <= i < s.len() implies #[trigger] cmd_wf(s, i) by {
        if id == TrajId::Swirl && i == 7 {
            assert forall|j: int| 3 <= j < 7 implies !(s[j] is Loop) by {}
        }
    }
}

/// The instructions of script `id`.
pub fn script(id: TrajId) -> (r: Vec<TrajCommand>)
    ensures
        r@ == script_of(id),
        script_wf(r@),
{
    proof {
        lemma_scripts_wf(id);
    }
    let r = match id {
        TrajId::Entry => vec![
            TrajCommand::SetSpeed(768),
            TrajCommand::SetAngle(32768),
            TrajCommand::Delay(30),
            TrajCommand::SetVAngle(1024),
            TrajCommand::Delay(32),
            TrajCommand::SetVAngle(0),
            TrajCommand::Delay(10),
            TrajCommand::End,
        ],
        TrajId::Dive => vec![
            TrajCommand::SetSpeed(1024),
            TrajCommand::SetAngle(32768),
            TrajCommand::SetVAngle(0),
            TrajCommand::Delay(20),
            TrajCommand::SetVAngle(256),
            TrajCommand::Delay(16),
            TrajCommand::SetVAngle(-256),
            TrajCommand::Delay(16),
            TrajCommand::Jump(3),
        ],
        TrajId::Swirl => vec![
            TrajCommand::SetSpeed(768),
            TrajCommand::SetAngle(32768),
            TrajCommand::Delay(16),
            TrajCommand::SetVAngle(2048),
            TrajCommand::Delay(16),
            TrajCommand::SetVAngle(0),
            TrajCommand::Delay(8),
            TrajCommand::Loop(3, 2),
            TrajCommand::End,
        ],
        TrajId::CaptureDive => vec![
            TrajCommand::SetSpeed(768),
            TrajCommand::SetAngle(32768),
            TrajCommand::SetVAngle(0),
            TrajCommand::Delay(48),
            TrajCommand::End,
        ],
    };
    assert(r@ =~= script_of(id));
    r
}

} // verus!
