//! The relay line, its exclusive-access guard, and the timed pulse that
//! drives it.
//!
//! A [`Pulse`] names the next hardware step to perform; the caller performs
//! it and reports whether it succeeded through [`Pulse::advance`], which also
//! keeps the [`Line`] model (level and guard holder) up to date.
use vstd::prelude::*;

verus! {

/// How long one pulse holds the relay at its active level, in milliseconds.
pub const PULSE_MS: u32 = 3000;

/// The level of the relay line.
#[derive(Clone, Copy, Debug, PartialEq, Eq, Structural)]
pub enum Level {
    Low,
    High,
    /// After a hardware fault the level is not known.
    Unknown,
}

/// The relay line and its guard: which pulse, if any, holds it.
#[derive(Clone, Copy, Debug, PartialEq, Eq, Structural)]
pub struct Line {
    pub level: Level,
    pub holder: Option<u64>,
}

/// Where a pulse stands.
#[derive(Clone, Copy, Debug, PartialEq, Eq, Structural)]
pub enum Phase {
    /// Wants the guard.
    Waiting,
    /// Holds the guard; the pin is not yet an output.
    Locked,
    /// The pin is an output, still at its inactive level.
    Output,
    /// The pin is at its active level; the delay has not run.
    Driving,
    /// The delay has run; the pin is still active.
    Elapsed,
    /// The pin is back at its inactive level.
    Lowered,
    /// A hardware step failed while the guard was held.
    Faulted,
    /// The pulse ran to completion and released the guard.
    Done,
    /// The pulse failed and released the guard.
    Failed,
}

/// One step for the caller to perform on the hardware.
#[derive(Clone, Copy, Debug, PartialEq, Eq, Structural)]
pub enum Step {
    Acquire,
    MakeOutput,
    SetHigh,
    Delay(u32),
    SetLow,
    Release,
}

/// One pulse of the relay, made on behalf of the request `id`.
#[derive(Clone, Copy, Debug, PartialEq, Eq, Structural)]
pub struct Pulse {
    pub id: u64,
    pub phase: Phase,
}

/// The phases in which a pulse holds the guard.
pub open spec fn holds_guard(p: Phase) -> bool {
    match p {
        Phase::Locked | Phase::Output | Phase::Driving | Phase::Elapsed | Phase::Lowered | Phase::Faulted => true,
        _ => false,
    }
}

/// The phases in which a pulse keeps the line at its active level.
pub open spec fn is_driving(p: Phase) -> bool {
    p == Phase::Driving || p == Phase::Elapsed
}

/// A pulse and the line agree on who holds the guard.
pub open spec fn agrees(p: Pulse, l: Line) -> bool {
    holds_guard(p.phase) <==> l.holder == Some(p.id)
}

/// The step that a pulse in phase `p` asks for next, if any.
pub open spec fn next_step_spec(p: Phase) -> Option<Step> {
    match p {
        Phase::Waiting => Some(Step::Acquire),
        Phase::Locked => Some(Step::MakeOutput),
        Phase::Output => Some(Step::SetHigh),
        Phase::Driving => Some(Step::Delay(PULSE_MS)),
        Phase::Elapsed => Some(Step::SetLow),
        Phase::Lowered | Phase::Faulted => Some(Step::Release),
        Phase::Done | Phase::Failed => None,
    }
}

/// The pulse and line after the step that `p` asked for was performed, with
/// `ok` telling whether the hardware carried it out. Acquiring is granted
/// only on a free line; otherwise the pulse keeps waiting.
pub open spec fn advance_spec(p: Pulse, l: Line, ok: bool) -> (Pulse, Line) {
    let fault = (Pulse { phase: Phase::Faulted, ..p }, Line { level: Level::Unknown, ..l });
    match p.phase {
        Phase::Waiting => if l.holder is None {
            (Pulse { phase: Phase::Locked, ..p }, Line { holder: Some(p.id), ..l })
        } else {
            (p, l)
        },
        Phase::Locked => if ok { (Pulse { phase: Phase::Output, ..p }, l) } else { fault },
        Phase::Output => if ok {
            (Pulse { phase: Phase::Driving, ..p }, Line { level: Level::High, ..l })
        } else {
            fault
        },
        Phase::Driving => (Pulse { phase: Phase::Elapsed, ..p }, l),
        Phase::Elapsed => if ok {
            (Pulse { phase: Phase::Lowered, ..p }, Line { level: Level::Low, ..l })
        } else {
            fault
        },
        Phase::Lowered => (Pulse { phase: Phase::Done, ..p }, Line { holder: None, ..l }),
        Phase::Faulted => (Pulse { phase: Phase::Failed, ..p }, Line { holder: None, ..l }),
        Phase::Done | Phase::Failed => (p, l),
    }
}

impl Line {
    /// A free line at its inactive level.
    pub fn new() -> (l: Line)
        ensures
            l == (Line { level: Level::Low, holder: None }),
    {
        Line { level: Level::Low, holder: None }
    }
}

impl Pulse {
    /// A pulse for request `id` that has not yet asked for the guard.
    pub fn new(id: u64) -> (p: Pulse)
        ensures
            p == (Pulse { id, phase: Phase::Waiting }),
    {
        Pulse { id, phase: Phase::Waiting }
    }

    /// The hardware step to perform next; `None` once the pulse is over.
    pub fn next_step(&self) -> (s: Option<Step>)
        ensures
            s == next_step_spec(self.phase),
    {
        match self.phase {
            Phase::Waiting => Some(Step::Acquire),
            Phase::Locked => Some(Step::MakeOutput),
            Phase::Output => Some(Step::SetHigh),
            Phase::Driving => Some(Step::Delay(PULSE_MS)),
            Phase::Elapsed => Some(Step::SetLow),
            Phase::Lowered | Phase::Faulted => Some(Step::Release),
            Phase::Done | Phase::Failed => None,
        }
    }

    /// Records the outcome of the step that [`Pulse::next_step`] asked for.
    pub fn advance(&mut self, line: &mut Line, ok: bool)
        ensures
            (*final(self), *final(line)) == advance_spec(*old(self), *old(line), ok),
    {
        let me = *self;
        match self.phase {
            Phase::Waiting => {
                if line.holder.is_none() {
                    self.phase = Phase::Locked;
                    line.holder = Some(me.id);
                }
            },
            Phase::Locked => {
                if ok {
                    self.phase = Phase::Output;
                } else {
                    self.phase = Phase::Faulted;
                    line.level = Level::Unknown;
                }
            },
            Phase::Output => {
                if ok {
                    self.phase = Phase::Driving;
                    line.level = Level::High;
                } else {
                    self.phase = Phase::Faulted;
                    line.level = Level::Unknown;
                }
            },
            Phase::Driving => {
                self.phase = Phase::Elapsed;
            },
            Phase::Elapsed => {
                if ok {
                    self.phase = Phase::Lowered;
                    line.level = Level::Low;
                } else {
                    self.phase = Phase::Faulted;
                    line.level = Level::Unknown;
                }
            },
            Phase::Lowered => {
                self.phase = Phase::Done;
                line.holder = None;
            },
            Phase::Faulted => {
                self.phase = Phase::Failed;
                line.holder = None;
            },
            Phase::Done | Phase::Failed => {},
        }
    }

    /// Whether this pulse currently holds the guard.
    pub fn holds(&self) -> (r: bool)
        ensures
            r == holds_guard(self.phase),
    {
        match self.phase {
            Phase::Locked | Phase::Output | Phase::Driving | Phase::Elapsed | Phase::Lowered | Phase::Faulted => true,
            _ => false,
        }
    }

    /// Whether the pulse ran to completion.
    pub fn succeeded(&self) -> (r: bool)
        ensures
            r == (self.phase == Phase::Done),
    {
        matches!(self.phase, Phase::Done)
    }
}

/// The steps of a pulse whose hardware never fails.
pub open spec fn clean_steps() -> Seq<Step> {
    seq![Step::Acquire, Step::MakeOutput, Step::SetHigh, Step::Delay(PULSE_MS), Step::SetLow, Step::Release]
}

/// Runs `p` on `l` for at most `n` steps, each hardware step succeeding:
/// the pulse and line at the end, and the steps asked for, in order.
pub open spec fn run_clean(p: Pulse, l: Line, n: nat) -> (Pulse, Line, Seq<Step>)
    decreases n,
{
    if n == 0 {
        (p, l, seq![])
    } else {
        match next_step_spec(p.phase) {
            None => (p, l, seq![]),
            Some(s) => {
                let (p2, l2) = advance_spec(p, l, true);
                let r = run_clean(p2, l2, (n - 1) as nat);
                (r.0, r.1, seq![s] + r.2)
            },
        }
    }
}

/// On a free line whose hardware does not fail, a pulse takes the guard,
/// drives the line high, waits exactly `PULSE_MS`, drives it low and gives
/// the guard back, after which it asks for nothing more. The line is then
/// free and low again, so the next pulse runs the same way.
pub proof fn lemma_clean_pulse(first: u64, second: u64, l: Line)
    requires
        l.holder is None,
    ensures
        run_clean(Pulse { id: first, phase: Phase::Waiting }, l, 6) == (
        Pulse { id: first, phase: Phase::Done },
        Line { level: Level::Low, holder: None },
        clean_steps(),
        ),
        run_clean(Pulse { id: second, phase: Phase::Waiting }, Line { level: Level::Low, holder: None }, 6) == (
        Pulse { id: second, phase: Phase::Done },
        Line { level: Level::Low, holder: None },
        clean_steps(),
        ),
        next_step_spec(Phase::Done) is None,
{
    reveal_with_fuel(run_clean, 7);
    assert(run_clean(Pulse { id: first, phase: Phase::Waiting }, l, 6).2 =~= clean_steps());
    assert(run_clean(Pulse { id: second, phase: Phase::Waiting }, Line { level: Level::Low, holder: None }, 6).2 =~= clean_steps());
}

/// Two pulses of distinct requests share the line consistently: each agrees
/// with the line on whether it holds the guard, and a driving pulse sees the
/// line high.
pub open spec fn shared_ok(a: Pulse, b: Pulse, l: Line) -> bool {
    &&& a.id != b.id
    &&& agrees(a, l)
    &&& agrees(b, l)
    &&& is_driving(a.phase) ==> l.level == Level::High
    &&& is_driving(b.phase) ==> l.level == Level::High
}

/// Runs two pulses on one line under the schedule `sched`: each entry says
/// which pulse steps (`true` for `a`) and whether its hardware step succeeded.
pub open spec fn run_pair(a: Pulse, b: Pulse, l: Line, sched: Seq<(bool, bool)>) -> (Pulse, Pulse, Line)
    decreases sched.len(),
{
    if sched.len() == 0 {
        (a, b, l)
    } else {
        let (a_steps, ok) = sched[0];
        if a_steps {
            let (a2, l2) = advance_spec(a, l, ok);
            run_pair(a2, b, l2, sched.drop_first())
        } else {
            let (b2, l2) = advance_spec(b, l, ok);
            run_pair(a, b2, l2, sched.drop_first())
        }
    }
}

/// One step of `a` keeps the two pulses consistent with the line.
pub proof fn lemma_step_keeps_shared(a: Pulse, b: Pulse, l: Line, ok: bool)
    requires
        shared_ok(a, b, l),
    ensures
        shared_ok(advance_spec(a, l, ok).0, b, advance_spec(a, l, ok).1),
        shared_ok(b, advance_spec(a, l, ok).0, advance_spec(a, l, ok).1),
{
}

/// While one pulse holds the guard, a waiting pulse stays waiting and
/// leaves the line untouched, whatever is reported to it.
pub proof fn lemma_waits_while_held(a: Pulse, b: Pulse, l: Line, ok: bool)
    requires
        shared_ok(a, b, l),
        holds_guard(b.phase),
        a.phase == Phase::Waiting,
    ensures
        advance_spec(a, l, ok) == (a, l),
{
}

/// Under every schedule of two pulses on one line, the pulses stay
/// consistent with the line, and they are never both driving it.
pub proof fn lemma_never_both_driving(a: Pulse, b: Pulse, l: Line, sched: Seq<(bool, bool)>)
    requires
        shared_ok(a, b, l),
    ensures
        shared_ok(run_pair(a, b, l, sched).0, run_pair(a, b, l, sched).1, run_pair(a, b, l, sched).2),
        !(is_driving(run_pair(a, b, l, sched).0.phase) && is_driving(run_pair(a, b, l, sched).1.phase)),
    decreases sched.len(),
{
    if sched.len() > 0 {
        let (a_steps, ok) = sched[0];
        if a_steps {
            lemma_step_keeps_shared(a, b, l, ok);
            let (a2, l2) = advance_spec(a, l, ok);
            lemma_never_both_driving(a2, b, l2, sched.drop_first());
        } else {
            lemma_step_keeps_shared(b, a, l, ok);
            let (b2, l2) = advance_spec(b, l, ok);
            lemma_never_both_driving(a, b2, l2, sched.drop_first());
        }
    }
}

} // verus!
