use vstd::prelude::*;

use crate::lines::InputLine;

verus! {

/// The memory region both sides share, accessed only under the critical
/// section: the input line once initialization hands it over, and the
/// toggle flag saying whether the LED should be blinking.
pub struct SharedState {
    /// The input line, owned here from `install` on; the handler is its only
    /// user afterwards.
    pub line: Option<InputLine>,
    /// True while the LED should blink, false while it should be held off.
    pub toggle: bool,
}

impl SharedState {
    /// Whether initialization has already transferred the input line in.
    pub open spec fn holds_line(&self) -> bool {
        self.line is Some
    }

    /// The state at power-on: no line installed yet, blinking off.
    pub fn new() -> (r: SharedState)
        ensures
            !r.holds_line(),
            !r.toggle,
    {
        SharedState { line: None, toggle: false }
    }

    /// Transfer ownership of the configured input line into the protected
    /// storage. Called exactly once, during initialization, strictly before
    /// the interrupt source is enabled; the handler relies on the line being
    /// present from then on.
    pub fn install(&mut self, line: InputLine)
        requires
            !old(self).holds_line(),
        ensures
            final(self).line == Some(line),
            final(self).toggle == old(self).toggle,
    {
        self.line = Some(line);
    }

    /// Read the toggle flag; callers do so only inside the critical section.
    pub fn get_toggle(&self) -> (r: bool)
        ensures
            r == self.toggle,
    {
        self.toggle
    }

    /// Write the toggle flag; callers do so only inside the critical section.
    pub fn set_toggle(&mut self, v: bool)
        ensures
            final(self).toggle == v,
            final(self).line == old(self).line,
    {
        self.toggle = v;
    }
}

} // verus!
