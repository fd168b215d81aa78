use vstd::prelude::*;

verus! {

/// One GPIO pin configured as a pulled-up digital input armed for
/// falling-edge interrupts. The model keeps exactly what the handler reads:
/// the current logic level and the pending-interrupt flag.
pub struct InputLine {
    /// True while the pin reads logic-low (the button is held down; a
    /// pulled-up input reads high when released).
    pub low: bool,
    /// True while a falling edge awaits acknowledgement; the interrupt
    /// source fires again only after this is cleared.
    pub pending: bool,
}

impl InputLine {
    /// A released line: pulled up to logic-high, no edge pending.
    pub fn released() -> (r: InputLine)
        ensures
            !r.low,
            !r.pending,
    {
        InputLine { low: false, pending: false }
    }

    /// The button goes down: the level falls and the falling edge marks the
    /// interrupt pending.
    pub fn press(&mut self)
        ensures
            final(self).low,
            final(self).pending,
    {
        self.low = true;
        self.pending = true;
    }

    /// The button comes back up: the pull-up raises the level. A rising edge
    /// is not armed, so the pending flag is left as it was.
    pub fn release(&mut self)
        ensures
            !final(self).low,
            final(self).pending == old(self).pending,
    {
        self.low = false;
    }

    /// Read the current logic level.
    pub fn is_low(&self) -> (r: bool)
        ensures
            r == self.low,
    {
        self.low
    }

    /// Acknowledge the edge, re-arming the interrupt source for the next one.
    pub fn clear_interrupt(&mut self)
        ensures
            !final(self).pending,
            final(self).low == old(self).low,
    {
        self.pending = false;
    }
}

/// One GPIO pin configured as a push-pull digital output. The model keeps
/// the one attribute the loop drives: the current logic level.
pub struct OutputLine {
    /// True while the pin drives logic-high (the LED is lit).
    pub high: bool,
}

impl OutputLine {
    /// A freshly configured output, driven low.
    pub fn new_low() -> (r: OutputLine)
        ensures
            !r.high,
    {
        OutputLine { high: false }
    }

    /// Read the level the pin currently drives.
    pub fn is_high(&self) -> (r: bool)
        ensures
            r == self.high,
    {
        self.high
    }

    /// Invert the driven level.
    pub fn toggle(&mut self)
        ensures
            final(self).high == !old(self).high,
    {
        self.high = !self.high;
    }

    /// Drive the pin low, whatever it drove before.
    pub fn set_low(&mut self)
        ensures
            !final(self).high,
    {
        self.high = false;
    }
}

} // verus!
