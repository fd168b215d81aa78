use vstd::prelude::*;

use crate::controller::{next_level, next_toggle};
use crate::lines::OutputLine;
use crate::state::SharedState;

verus! {

/// One completed critical section, as the shared state sees it. The handler
/// may preempt the loop at any instruction boundary outside a critical
/// section, so a schedule of the system is exactly a sequence of these.
pub enum Event {
    /// The handler runs to completion; `low` is what the input line read at
    /// that moment.
    Press { low: bool },
    /// One loop iteration runs to completion.
    Tick,
}

/// Everything a critical section can read or write: the toggle flag, the
/// level the output line drives, and the input line's pending-interrupt
/// flag.
pub struct SysState {
    pub toggle: bool,
    pub high: bool,
    pub pending: bool,
}

/// Whether an event flips the toggle flag: only a handler run that read the
/// line low does.
pub open spec fn flips(e: Event) -> bool {
    match e {
        Event::Press { low } => low,
        Event::Tick => false,
    }
}

/// The atomic transition one event makes. A handler run decides by
/// `next_toggle` and always acknowledges the edge; a loop iteration drives
/// the output by `next_level` and touches nothing else.
pub open spec fn step(s: SysState, e: Event) -> SysState {
    match e {
        Event::Press { low } => (SysState {
            toggle: next_toggle(low, s.toggle),
            high: s.high,
            pending: false,
        }),
        Event::Tick => (SysState {
            toggle: s.toggle,
            high: next_level(s.toggle, s.high),
            pending: s.pending,
        }),
    }
}

/// The state after a whole schedule of critical sections has run, in order.
pub open spec fn run(s: SysState, trace: Seq<Event>) -> SysState
    decreases trace.len(),
{
    if trace.len() == 0 {
        s
    } else {
        step(run(s, trace.drop_last()), trace.last())
    }
}

/// How many events of the schedule flip the toggle flag.
pub open spec fn press_count(trace: Seq<Event>) -> nat
    decreases trace.len(),
{
    if trace.len() == 0 {
        0
    } else {
        press_count(trace.drop_last()) + (if flips(trace.last()) {
            1nat
        } else {
            0nat
        })
    }
}

/// Each side writes only its own part of the shared word: a loop iteration
/// never changes the toggle flag or the pending bit, and a handler run never
/// changes the output level. Together with `lemma_schedule_splits` this is
/// the mutual-exclusion guarantee: no interleaving lets one side observe the
/// other's write half-done, because every observation sits between two
/// complete steps.
pub proof fn lemma_no_interference(s: SysState, e: Event)
    ensures
        e is Tick ==> step(s, e).toggle == s.toggle && step(s, e).pending == s.pending,
        e is Press ==> step(s, e).high == s.high,
{
}

/// A schedule may be cut anywhere: running the whole of it equals running
/// the part before the cut, then the part after it, from the state the first
/// part left. Every critical section is one whole step of `run`, so the
/// state either side observes at any cut is one that a completed section
/// produced — never a torn intermediate.
pub proof fn lemma_schedule_splits(s: SysState, trace: Seq<Event>, i: int)
    requires
        0 <= i <= trace.len(),
    ensures
        run(s, trace) == run(run(s, trace.take(i)), trace.skip(i)),
    decreases trace.len(),
{
    if i == trace.len() {
        assert(trace.take(i) =~= trace);
        assert(trace.skip(i) =~= Seq::<Event>::empty());
    } else {
        let head = trace.drop_last();
        lemma_schedule_splits(s, head, i);
        assert(head.take(i) =~= trace.take(i));
        assert(trace.skip(i).drop_last() =~= head.skip(i));
        assert(trace.skip(i).last() == trace.last());
    }
}

/// Toggle correctness: after any schedule, the flag equals its initial value
/// flipped once per handler run that read the line low. Loop iterations and
/// spurious handler runs do not enter the count.
pub proof fn lemma_toggle_parity(s: SysState, trace: Seq<Event>)
    ensures
        run(s, trace).toggle == (s.toggle != (press_count(trace) % 2 == 1)),
    decreases trace.len(),
{
    if trace.len() == 0 {
    } else {
        lemma_toggle_parity(s, trace.drop_last());
        let c = press_count(trace.drop_last());
        if flips(trace.last()) {
            assert((c + 1) % 2 == 1 <==> c % 2 == 0);
        }
    }
}

proof fn lemma_press_count_of_presses_only(trace: Seq<Event>)
    requires
        forall|i: int| 0 <= i < trace.len() ==> flips(trace[i]),
    ensures
        press_count(trace) == trace.len(),
    decreases trace.len(),
{
    if trace.len() == 0 {
    } else {
        assert(forall|i: int|
            0 <= i < trace.drop_last().len() ==> flips(trace.drop_last()[i]));
        lemma_press_count_of_presses_only(trace.drop_last());
        assert(flips(trace.last()));
    }
}

/// Toggle correctness, as counted from a clear flag: after a schedule of N
/// falling-edge events that all read the line low at read time, the flag is
/// set exactly when N is odd.
pub proof fn lemma_toggle_after_confirmed_presses(s: SysState, trace: Seq<Event>)
    requires
        !s.toggle,
        forall|i: int| 0 <= i < trace.len() ==> flips(trace[i]),
    ensures
        run(s, trace).toggle == (trace.len() % 2 == 1),
{
    lemma_press_count_of_presses_only(trace);
    lemma_toggle_parity(s, trace);
}

/// Idempotence: a schedule in which every handler run read the line high —
/// only spurious edges, no real press — leaves the toggle flag exactly where
/// it started, however many times the handler ran.
pub proof fn lemma_spurious_schedule_keeps_toggle(s: SysState, trace: Seq<Event>)
    requires
        forall|i: int| 0 <= i < trace.len() ==> !flips(trace[i]),
    ensures
        run(s, trace).toggle == s.toggle,
    decreases trace.len(),
{
    if trace.len() == 0 {
    } else {
        assert(forall|i: int|
            0 <= i < trace.drop_last().len() ==> !flips(trace.drop_last()[i]));
        lemma_spurious_schedule_keeps_toggle(s, trace.drop_last());
        assert(!flips(trace.last()));
    }
}

/// What a schedule step sees of the concrete pieces: the flag and pending
/// bit from the protected state, the level from the output line. A state
/// with no line installed yet has nothing pending.
pub open spec fn observed(state: SharedState, out: OutputLine) -> SysState {
    SysState {
        toggle: state.toggle,
        high: out.high,
        pending: if state.line is Some {
            state.line.unwrap().pending
        } else {
            false
        },
    }
}

/// The handler's contract is one whole `Press` step of the schedule model:
/// any call of `handle_interrupt` that takes the shared state from `pre` to
/// `post` moves the observed system state by exactly `step` on the level it
/// read. With `lemma_loop_refines_tick` this grounds the model: the two
/// critical-section bodies are the model's two atomic events, so what the
/// schedule lemmas prove holds of their interleavings.
pub proof fn lemma_handler_refines_press(pre: SharedState, post: SharedState, out: OutputLine)
    requires
        pre.holds_line(),
        post.holds_line(),
        post.line.unwrap().low == pre.line.unwrap().low,
        !post.line.unwrap().pending,
        post.toggle == next_toggle(pre.line.unwrap().low, pre.toggle),
    ensures
        observed(post, out) == step(
            observed(pre, out),
            (Event::Press { low: pre.line.unwrap().low }),
        ),
{
}

/// The loop body's contract is one whole `Tick` step of the schedule model:
/// any call of `loop_body` that takes the output line from `pre` to `post`
/// moves the observed system state by exactly `step(.., Tick)`.
pub proof fn lemma_loop_refines_tick(state: SharedState, pre: OutputLine, post: OutputLine)
    requires
        post.high == next_level(state.toggle, pre.high),
    ensures
        observed(state, post) == step(observed(state, pre), Event::Tick),
{
}

} // verus!
