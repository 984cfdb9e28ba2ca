use vstd::prelude::*;
use crate::consts::POS_BOUND;
use crate::math::{calc_velocity, clamp, clamp_spec, velocity_spec, FULL_TURN, MAX_SPEED};
use crate::recaptured_fighter::in_bounds;
use crate::types::{Vector2D, Vec2I};

verus! {

/// Longest single delay a script may ask for, in frames.
pub const MAX_DELAY: u32 = 65535;

/// One instruction of a trajectory script.
#[derive(Clone, Copy, Debug, PartialEq, Eq, Structural)]
pub enum TrajCommand {
    /// Place the entity at an absolute fixed-point position.
    SetPos(i32, i32),
    /// Speed along the current angle, fixed point per frame.
    SetSpeed(i32),
    /// Heading, in fixed-point angle units (0 is up).
    SetAngle(i32),
    /// Change of heading applied every frame.
    SetVAngle(i32),
    /// Keep moving for this many frames before reading on.
    Delay(u32),
    /// Jump back to the given instruction this many more times, then go on.
    Loop(usize, u32),
    /// Jump back to the given instruction for ever; such a script ends only
    /// when its entity is removed.
    Jump(usize),
    /// End of the script.
    End,
}

pub open spec fn cmd_wf(s: Seq<TrajCommand>, i: int) -> bool {
    match s[i] {
        TrajCommand::SetPos(x, y) => in_bounds(Vector2D { x, y }),
        TrajCommand::SetSpeed(v) => -MAX_SPEED <= v <= MAX_SPEED,
        TrajCommand::SetAngle(a) => 0 <= a < FULL_TURN,
        TrajCommand::SetVAngle(v) => -FULL_TURN < v < FULL_TURN,
        TrajCommand::Delay(n) => n <= MAX_DELAY,
        TrajCommand::Loop(t, n) => t < i && forall|j: int| t <= j < i ==> !(s[j] is Loop),
        TrajCommand::Jump(t) => t <= i,
        TrajCommand::End => true,
    }
}

/// A script the interpreter accepts: operands in range, loops jump backward
/// and do not nest.
pub open spec fn script_wf(s: Seq<TrajCommand>) -> bool {
    s.len() < usize::MAX && forall|i: int| 0 <= i < s.len() ==> #[trigger] cmd_wf(s, i)
}

/// Interpreter registers: program counter, delay countdown, loop counter, and
/// the kinematic state the script drives.
#[derive(Clone, Copy, Debug, PartialEq, Eq, Structural)]
pub struct TrajCursor {
    pub pc: usize,
    pub delay: u32,
    pub in_loop: bool,
    pub loop_left: u32,
    pub pos: Vec2I,
    pub speed: i32,
    pub angle: i32,
    pub vangle: i32,
    pub finished: bool,
}

pub open spec fn wrap_angle(a: int) -> int {
    if a < 0 {
        a + FULL_TURN
    } else if a >= FULL_TURN {
        a - FULL_TURN
    } else {
        a
    }
}

/// The implicit per-frame motion: move along the heading, then turn.
pub open spec fn move_spec(c: TrajCursor) -> TrajCursor {
    let v = velocity_spec(c.angle as int, c.speed as int);
    TrajCursor {
        pos: Vector2D {
            x: clamp_spec(c.pos.x + v.x, -POS_BOUND as int, POS_BOUND as int) as i32,
            y: clamp_spec(c.pos.y + v.y, -POS_BOUND as int, POS_BOUND as int) as i32,
        },
        angle: wrap_angle(c.angle + c.vangle) as i32,
        ..c
    }
}

/// Runs instructions from `c.pc` until one that ends the frame: a delay, a
/// backward jump, or the end of the script (running past the last instruction
/// counts as the end).
pub open spec fn run_spec(s: Seq<TrajCommand>, c: TrajCursor) -> TrajCursor
    decreases s.len() - c.pc,
{
    if c.pc >= s.len() || c.pc == usize::MAX {
        TrajCursor { finished: true, ..c }
    } else {
        let next = (c.pc + 1) as usize;
        match s[c.pc as int] {
            TrajCommand::SetPos(x, y) => run_spec(s, TrajCursor { pc: next, pos: Vector2D { x, y }, ..c }),
            TrajCommand::SetSpeed(v) => run_spec(s, TrajCursor { pc: next, speed: v, ..c }),
            TrajCommand::SetAngle(a) => run_spec(s, TrajCursor { pc: next, angle: a, ..c }),
            TrajCommand::SetVAngle(v) => run_spec(s, TrajCursor { pc: next, vangle: v, ..c }),
            TrajCommand::Delay(n) => if n == 0 {
                run_spec(s, TrajCursor { pc: next, ..c })
            } else {
                TrajCursor { pc: next, delay: (n - 1) as u32, ..c }
            },
            TrajCommand::Loop(t, n) => {
                let left = if c.in_loop { c.loop_left } else { n };
                if left > 0 {
                    TrajCursor { pc: t, in_loop: true, loop_left: (left - 1) as u32, ..c }
                } else {
                    run_spec(s, TrajCursor { pc: next, in_loop: false, loop_left: 0, ..c })
                }
            },
            TrajCommand::Jump(t) => TrajCursor { pc: t, ..c },
            TrajCommand::End => TrajCursor { finished: true, ..c },
        }
    }
}

/// One frame of a script: count down a pending delay, or run instructions; in
/// both cases the entity then moves, unless the script has just ended.
pub open spec fn step_spec(s: Seq<TrajCommand>, c: TrajCursor) -> TrajCursor {
    if c.finished {
        c
    } else if c.delay > 0 {
        move_spec(TrajCursor { delay: (c.delay - 1) as u32, ..c })
    } else {
        let r = run_spec(s, c);
        if r.finished {
            r
        } else {
            move_spec(r)
        }
    }
}

/// The cursor after `n` frames.
pub open spec fn steps(s: Seq<TrajCommand>, c: TrajCursor, n: nat) -> TrajCursor
    decreases n,
{
    if n == 0 {
        c
    } else {
        steps(s, step_spec(s, c), (n - 1) as nat)
    }
}

impl TrajCursor {
    pub open spec fn wf(&self, s: Seq<TrajCommand>) -> bool {
        &&& self.pc <= s.len()
        &&& in_bounds(self.pos)
        &&& -MAX_SPEED <= self.speed <= MAX_SPEED
        &&& 0 <= self.angle < FULL_TURN
        &&& -FULL_TURN < self.vangle < FULL_TURN
        &&& self.delay <= MAX_DELAY
    }

    /// A cursor at the first instruction, at rest at `pos`.
    pub fn new(pos: Vec2I) -> (r: Self)
        requires
            in_bounds(pos),
        ensures
            r == (TrajCursor { pc: 0, delay: 0, in_loop: false, loop_left: 0, pos, speed: 0, angle: 0, vangle: 0, finished: false }),
    {
        TrajCursor { pc: 0, delay: 0, in_loop: false, loop_left: 0, pos, speed: 0, angle: 0, vangle: 0, finished: false }
    }

    fn apply_move(&mut self)
        requires
            in_bounds(old(self).pos),
            -MAX_SPEED <= old(self).speed <= MAX_SPEED,
            0 <= old(self).angle < FULL_TURN,
            -FULL_TURN < old(self).vangle < FULL_TURN,
        ensures
            *final(self) == move_spec(*old(self)),
    {
        let v = calc_velocity(self.angle, self.speed);
        self.pos.x = clamp(self.pos.x + v.x, -POS_BOUND, POS_BOUND);
        self.pos.y = clamp(self.pos.y + v.y, -POS_BOUND, POS_BOUND);
        let a: i32 = self.angle + self.vangle;
        self.angle = if a < 0 {
            a + FULL_TURN
        } else if a >= FULL_TURN {
            a - FULL_TURN
        } else {
            a
        };
    }

    fn run(&mut self, script: &Vec<TrajCommand>)
        requires
            script_wf(script@),
            old(self).wf(script@),
        ensures
            *final(self) == run_spec(script@, *old(self)),
            final(self).wf(script@),
    {
        let ghost goal = run_spec(script@, *self);
        loop
            invariant
                script_wf(script@),
                self.wf(script@),
                run_spec(script@, *self) == goal,
                goal == run_spec(script@, *old(self)),
            decreases script@.len() - self.pc,
        {
            if self.pc >= script.len() {
                self.finished = true;
                return;
            }
            let ghost i = self.pc as int;
            assert(cmd_wf(script@, i));
            match script[self.pc] {
                TrajCommand::SetPos(x, y) => {
                    self.pos = Vector2D { x, y };
                    self.pc = self.pc + 1;
                },
                TrajCommand::SetSpeed(v) => {
                    self.speed = v;
                    self.pc = self.pc + 1;
                },
                TrajCommand::SetAngle(a) => {
                    self.angle = a;
                    self.pc = self.pc + 1;
                },
                TrajCommand::SetVAngle(v) => {
                    self.vangle = v;
                    self.pc = self.pc + 1;
                },
                TrajCommand::Delay(n) => {
                    self.pc = self.pc + 1;
                    if n > 0 {
                        self.delay = n - 1;
                        return;
                    }
                },
                TrajCommand::Loop(t, n) => {
                    let left = if self.in_loop { self.loop_left } else { n };
                    if left > 0 {
                        self.pc = t;
                        self.in_loop = true;
                        self.loop_left = left - 1;
                        return;
                    }
                    self.pc = self.pc + 1;
                    self.in_loop = false;
                    self.loop_left = 0;
                },
                TrajCommand::Jump(t) => {
                    self.pc = t;
                    return;
                },
                TrajCommand::End => {
                    self.finished = true;
                    return;
                },
            }
        }
    }

    /// Advances the script by one frame; true once it has ended.
    pub fn step(&mut self, script: &Vec<TrajCommand>) -> (finished: bool)
        requires
            script_wf(script@),
            old(self).wf(script@),
        ensures
            *final(self) == step_spec(script@, *old(self)),
            final(self).wf(script@),
            finished == final(self).finished,
    {
        if self.finished {
            return true;
        }
        if self.delay > 0 {
            self.delay = self.delay - 1;
            self.apply_move();
            return false;
        }
        self.run(script);
        if self.finished {
            return true;
        }
        self.apply_move();
        false
    }
}

} // verus!
