use vstd::prelude::*;

use crate::lines::OutputLine;
use crate::state::SharedState;

verus! {

/// What the toggle flag becomes when the handler runs and the input line
/// reads `low`: a confirmed press flips it, anything else leaves it alone.
pub open spec fn next_toggle(low: bool, toggle: bool) -> bool {
    if low {
        !toggle
    } else {
        toggle
    }
}

/// What the output line drives after one loop iteration that starts with the
/// given flag and level: blinking inverts the level, otherwise the line is
/// forced low.
pub open spec fn next_level(toggle: bool, high: bool) -> bool {
    if toggle {
        !high
    } else {
        false
    }
}

/// The diagnostic line emitted when a confirmed press leaves the flag at
/// `new_toggle`.
pub open spec fn diag_message(new_toggle: bool) -> Seq<char> {
    if new_toggle {
        "Button pressed, toggling: true"@
    } else {
        "Button pressed, toggling: false"@
    }
}

/// The decision the handler takes once it has read the input level: the new
/// flag value, and the diagnostic to emit if the press was confirmed. Pure,
/// so a caller that owns the real hardware can take the same decision from
/// the level it read.
pub fn press_decision(low: bool, toggle: bool) -> (r: (bool, Option<&'static str>))
    ensures
        r.0 == next_toggle(low, toggle),
        low ==> (r.1 matches Some(m) && m@ == diag_message(!toggle)),
        !low ==> r.1 is None,
{
    if low {
        let flag = !toggle;
        let msg = if flag {
            "Button pressed, toggling: true"
        } else {
            "Button pressed, toggling: false"
        };
        (flag, Some(msg))
    } else {
        (toggle, None)
    }
}

/// The decision one loop iteration takes once it has read the flag and the
/// level currently driven: the level to drive next. Pure, so a caller that
/// owns the real hardware can take the same decision for its pin.
pub fn level_decision(toggle: bool, high: bool) -> (r: bool)
    ensures
        r == next_level(toggle, high),
{
    if toggle {
        !high
    } else {
        false
    }
}

/// The handler's critical-section body, run on each falling edge of the
/// input line. It rereads the level; only if the press still holds does it
/// flip the flag and produce the diagnostic line to emit. The pending
/// interrupt is acknowledged in every case, so the source is re-armed even
/// for a spurious edge. Initialization installs the line before the
/// interrupt source is enabled, so the line is present whenever this runs.
pub fn handle_interrupt(state: &mut SharedState) -> (diag: Option<&'static str>)
    requires
        old(state).holds_line(),
    ensures
        final(state).holds_line(),
        final(state).line.unwrap().low == old(state).line.unwrap().low,
        !final(state).line.unwrap().pending,
        final(state).toggle == next_toggle(old(state).line.unwrap().low, old(state).toggle),
        old(state).line.unwrap().low ==> (diag matches Some(m) && m@ == diag_message(
            !old(state).toggle,
        )),
        !old(state).line.unwrap().low ==> diag is None,
{
    let mut line = state.line.take().unwrap();
    let low = line.is_low();
    let (flag, diag) = press_decision(low, state.get_toggle());
    if low {
        state.set_toggle(flag);
    }
    line.clear_interrupt();
    state.line = Some(line);
    diag
}

/// The loop's critical-section body, run once per polling interval: a set
/// flag inverts the output line (one toggle per iteration), a clear flag
/// forces it low, so the LED is off again within one interval of the flag
/// going false, even mid-blink.
pub fn loop_body(state: &SharedState, out: &mut OutputLine)
    ensures
        final(out).high == next_level(state.toggle, old(out).high),
        !state.toggle ==> !final(out).high,
{
    if state.get_toggle() {
        out.toggle();
    } else {
        out.set_low();
    }
}

} // verus!
