use vstd::prelude::*;
use crate::formation::FormationIndex;
use crate::types::Vec2I;

verus! {

/// Kinds of point effect shown when an enemy is destroyed.
#[derive(Clone, Copy, Debug, PartialEq, Eq, Structural)]
pub enum EarnedPointType {
    Point800,
    Point1000,
    Point1600,
    Point2000,
}

/// Kinds of enemy.
#[derive(Clone, Copy, Debug, PartialEq, Eq, Structural)]
pub enum EnemyType {
    Bee,
    Butterfly,
    Owl,
    CapturedFighter,
}

/// Semantic events passed from producers to the frame's single consumer.
/// `PlaySe` names a sound effect and the channel to play it on.
#[derive(Clone, Copy, Debug, PartialEq, Eq)]
pub enum EventType {
    MyShot(Vec2I, bool, i32),
    AddScore(u32),
    EneShot(Vec2I),
    EarnPointEffect(EarnedPointType, Vec2I),
    EnemyExplosion(Vec2I, i32, EnemyType),
    PlayerExplosion(Vec2I),
    DeadPlayer,
    StartCaptureAttack(FormationIndex),
    EndCaptureAttack,
    CapturePlayer(Vec2I),
    CapturePlayerCompleted,
    CaptureSequenceEnded,
    SpawnCapturedFighter(Vec2I, FormationIndex),
    RecapturePlayer(FormationIndex),
    MovePlayerHomePos,
    RecaptureEnded,
    EscapeCapturing,
    EscapeEnded,
    CapturedFighterDestroyed,
    PlaySe(u32, &'static str),
}

/// The frame's events, in the order they were pushed.
pub struct EventQueue {
    queue: Vec<EventType>,
}

impl View for EventQueue {
    type V = Seq<EventType>;

    closed spec fn view(&self) -> Seq<EventType> {
        self.queue@
    }
}

impl EventQueue {
    pub fn new() -> (r: Self)
        ensures
            r@ == Seq::<EventType>::empty(),
    {
        EventQueue { queue: Vec::new() }
    }

    pub fn clear(&mut self)
        ensures
            final(self)@ == Seq::<EventType>::empty(),
    {
        self.queue.clear();
    }

    pub fn len(&self) -> (r: usize)
        ensures
            r == self@.len(),
    {
        self.queue.len()
    }

    pub fn push(&mut self, event: EventType)
        ensures
            final(self)@ == old(self)@.push(event),
    {
        self.queue.push(event);
    }

    /// The `i`-th event of the frame.
    pub fn get(&self, i: usize) -> (r: EventType)
        requires
            i < self@.len(),
        ensures
            r == self@[i as int],
    {
        self.queue[i]
    }
}

} // verus!
