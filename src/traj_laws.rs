use vstd::prelude::*;
use crate::math::{clamp_spec, FULL_TURN};
use crate::scripts::{script_of, TrajId};
use crate::traj::{cmd_wf, move_spec, run_spec, script_wf, step_spec, steps, wrap_angle, TrajCommand, TrajCursor, MAX_DELAY};

verus! {

/// The script never jumps back unconditionally: all its repetition is bounded.
pub open spec fn no_jump(s: Seq<TrajCommand>) -> bool {
    forall|i: int| 0 <= i < s.len() ==> !(#[trigger] s[i] is Jump)
}

/// Sum of the repeat counts of the loops from index `from` on.
pub open spec fn loop_total(s: Seq<TrajCommand>, from: int) -> nat
    decreases s.len() - from,
{
    if from < 0 || from >= s.len() {
        0
    } else {
        loop_total(s, from + 1) + match s[from] {
            TrajCommand::Loop(_, n) => n as nat,
            _ => 0nat,
        }
    }
}

/// Index of the first loop instruction from `from` on, or the length.
pub open spec fn next_loop(s: Seq<TrajCommand>, from: int) -> int
    decreases s.len() - from,
{
    if from < 0 || from >= s.len() {
        s.len() as int
    } else if s[from] is Loop {
        from
    } else {
        next_loop(s, from + 1)
    }
}

/// A cursor inside a loop has that loop ahead of it.
pub open spec fn loop_inv(s: Seq<TrajCommand>, c: TrajCursor) -> bool {
    c.in_loop ==> next_loop(s, c.pc as int) < s.len()
}

/// Backward jumps the script can still take.
pub open spec fn loop_budget(s: Seq<TrajCommand>, c: TrajCursor) -> nat {
    if c.in_loop {
        c.loop_left as nat + loop_total(s, next_loop(s, c.pc as int) + 1)
    } else {
        loop_total(s, c.pc as int)
    }
}

/// An upper bound on the frames a script without `Jump` still runs from `c`.
pub open spec fn frame_bound(s: Seq<TrajCommand>, c: TrajCursor) -> nat {
    ((loop_budget(s, c) * (s.len() + 1) + (s.len() - c.pc) as nat) * (MAX_DELAY as nat + 1) + c.delay) as nat
}

proof fn lemma_next_loop_skip(s: Seq<TrajCommand>, a: int, k: int)
    requires
        0 <= a <= k < s.len(),
        s[k] is Loop,
        forall|j: int| a <= j < k ==> !(s[j] is Loop),
    ensures
        next_loop(s, a) == k,
    decreases k - a,
{
    if a < k {
        lemma_next_loop_skip(s, a + 1, k);
    }
}

proof fn lemma_run_progress(s: Seq<TrajCommand>, c: TrajCursor)
    requires
        script_wf(s),
        no_jump(s),
        c.wf(s),
        loop_inv(s, c),
    ensures
        run_spec(s, c).wf(s),
        run_spec(s, c).finished || (loop_inv(s, run_spec(s, c)) && (loop_budget(s, run_spec(s, c)) < loop_budget(s, c)
            || (loop_budget(s, run_spec(s, c)) == loop_budget(s, c) && run_spec(s, c).pc > c.pc))),
    decreases s.len() - c.pc,
{
    if c.pc >= s.len() || c.pc == usize::MAX {
    } else {
        let i = c.pc as int;
        assert(cmd_wf(s, i));
        assert(!(s[i] is Jump));
        let next = (c.pc + 1) as usize;
        match s[i] {
            TrajCommand::Loop(t, n) => {
                let left = if c.in_loop { c.loop_left } else { n };
                assert(next_loop(s, i) == i);
                if left > 0 {
                    let r = TrajCursor { pc: t, in_loop: true, loop_left: (left - 1) as u32, ..c };
                    lemma_next_loop_skip(s, t as int, i);
                    assert(run_spec(s, c) == r);
                } else {
                    let c2 = TrajCursor { pc: next, in_loop: false, loop_left: 0, ..c };
                    lemma_run_progress(s, c2);
                }
            },
            TrajCommand::Delay(n) => {
                if n == 0 {
                    lemma_run_progress(s, TrajCursor { pc: next, ..c });
                }
            },
            TrajCommand::SetPos(x, y) => {
                lemma_run_progress(s, TrajCursor { pc: next, pos: crate::types::Vector2D { x, y }, ..c });
            },
            TrajCommand::SetSpeed(v) => {
                lemma_run_progress(s, TrajCursor { pc: next, speed: v, ..c });
            },
            TrajCommand::SetAngle(a) => {
                lemma_run_progress(s, TrajCursor { pc: next, angle: a, ..c });
            },
            TrajCommand::SetVAngle(v) => {
                lemma_run_progress(s, TrajCursor { pc: next, vangle: v, ..c });
            },
            _ => {},
        }
    }
}

proof fn lemma_move_keeps(s: Seq<TrajCommand>, c: TrajCursor)
    requires
        c.wf(s),
    ensures
        move_spec(c).wf(s),
        move_spec(c).pc == c.pc,
        move_spec(c).delay == c.delay,
        move_spec(c).in_loop == c.in_loop,
        move_spec(c).loop_left == c.loop_left,
        move_spec(c).finished == c.finished,
{
    let a = c.angle + c.vangle;
    assert(0 <= wrap_angle(a) < FULL_TURN);
}

proof fn lemma_measure_lt(b0: nat, p0: nat, d0: nat, b1: nat, p1: nat, n: nat, dd: nat)
    requires
        p0 <= n,
        p1 <= n,
        d0 < dd,
        b0 < b1 || (b0 == b1 && p0 < p1),
    ensures
        (b0 * (n + 1) + p0) * dd + d0 < (b1 * (n + 1) + p1) * dd,
{
    let x0 = b0 * (n + 1) + p0;
    let x1 = b1 * (n + 1) + p1;
    if b0 < b1 {
        assert(b0 * (n + 1) + n < b1 * (n + 1)) by (nonlinear_arith)
            requires b0 < b1;
    }
    assert(x0 < x1);
    assert(x0 * dd + d0 < x1 * dd) by (nonlinear_arith)
        requires x0 < x1, d0 < dd;
}

/// One frame of a script without `Jump` either ends it or lowers its frame
/// bound.
pub proof fn lemma_step_progress(s: Seq<TrajCommand>, c: TrajCursor)
    requires
        script_wf(s),
        no_jump(s),
        c.wf(s),
        loop_inv(s, c),
        !c.finished,
    ensures
        step_spec(s, c).wf(s),
        step_spec(s, c).finished || (loop_inv(s, step_spec(s, c)) && frame_bound(s, step_spec(s, c)) < frame_bound(s, c)),
{
    let n = s.len();
    let dd = MAX_DELAY as nat + 1;
    if c.delay > 0 {
        let c1 = TrajCursor { delay: (c.delay - 1) as u32, ..c };
        lemma_move_keeps(s, c1);
        assert(loop_budget(s, c1) == loop_budget(s, c));
        assert(frame_bound(s, step_spec(s, c)) == frame_bound(s, c) - 1);
    } else {
        lemma_run_progress(s, c);
        let r = run_spec(s, c);
        if !r.finished {
            lemma_move_keeps(s, r);
            assert(loop_budget(s, move_spec(r)) == loop_budget(s, r));
            lemma_measure_lt(loop_budget(s, r), (n - r.pc) as nat, r.delay as nat,
                loop_budget(s, c), (n - c.pc) as nat, n, dd);
        }
    }
}

proof fn lemma_finished_stays(s: Seq<TrajCommand>, c: TrajCursor, k: nat)
    requires
        c.finished,
    ensures
        steps(s, c, k) == c,
    decreases k,
{
    if k > 0 {
        lemma_finished_stays(s, c, (k - 1) as nat);
    }
}

/// A well-formed script whose loops all have bounded counts ends: from any
/// cursor (a fresh one, outside any loop, included), after more than
/// `frame_bound` frames the script has reached its end. The bound is computed
/// from the script and the cursor alone.
pub proof fn lemma_bounded_script_ends(s: Seq<TrajCommand>, c: TrajCursor, k: nat)
    requires
        script_wf(s),
        no_jump(s),
        c.wf(s),
        loop_inv(s, c),
        k > frame_bound(s, c),
    ensures
        steps(s, c, k).finished,
    decreases k,
{
    if c.finished {
        lemma_finished_stays(s, c, k);
    } else {
        lemma_step_progress(s, c);
        let c1 = step_spec(s, c);
        if c1.finished {
            lemma_finished_stays(s, c1, (k - 1) as nat);
        } else {
            lemma_bounded_script_ends(s, c1, (k - 1) as nat);
        }
    }
}

proof fn lemma_dive_run(c: TrajCursor)
    requires
        c.pc <= 8,
        !c.finished,
    ensures
        run_spec(script_of(TrajId::Dive), c).pc <= 8,
        !run_spec(script_of(TrajId::Dive), c).finished,
    decreases 9 - c.pc,
{
    let s = script_of(TrajId::Dive);
    let next = (c.pc + 1) as usize;
    match s[c.pc as int] {
        TrajCommand::SetSpeed(v) => lemma_dive_run(TrajCursor { pc: next, speed: v, ..c }),
        TrajCommand::SetAngle(a) => lemma_dive_run(TrajCursor { pc: next, angle: a, ..c }),
        TrajCommand::SetVAngle(v) => lemma_dive_run(TrajCursor { pc: next, vangle: v, ..c }),
        _ => {},
    }
}

/// The endless dive of the script table never ends by itself, however many
/// frames it runs: only leaving the playfield or being shot removes a diver.
pub proof fn lemma_dive_never_ends(c: TrajCursor, k: nat)
    requires
        c.pc <= 8,
        !c.finished,
    ensures
        !steps(script_of(TrajId::Dive), c, k).finished,
    decreases k,
{
    if k > 0 {
        let s = script_of(TrajId::Dive);
        if c.delay == 0 {
            lemma_dive_run(c);
        }
        lemma_dive_never_ends(step_spec(s, c), (k - 1) as nat);
    }
}

} // verus!
