use button_blink::lines::{InputLine, OutputLine};
use button_blink::state::SharedState;

#[test]
fn released_line_reads_high_with_nothing_pending() {
    let line = InputLine::released();
    assert!(!line.is_low());
    assert!(!line.pending);
}

#[test]
fn press_lowers_line_and_marks_edge_pending() {
    let mut line = InputLine::released();
    line.press();
    assert!(line.is_low());
    assert!(line.pending);
}

#[test]
fn release_raises_line_and_keeps_pending() {
    let mut line = InputLine::released();
    line.press();
    line.release();
    assert!(!line.is_low());
    assert!(line.pending);
}

#[test]
fn clear_interrupt_acknowledges_edge_only() {
    let mut line = InputLine::released();
    line.press();
    line.clear_interrupt();
    assert!(!line.pending);
    assert!(line.is_low());
}

#[test]
fn output_starts_low_toggles_and_forces_low() {
    let mut out = OutputLine::new_low();
    assert!(!out.is_high());
    out.toggle();
    assert!(out.is_high());
    out.toggle();
    assert!(!out.is_high());
    out.toggle();
    out.set_low();
    assert!(!out.is_high());
}

#[test]
fn new_state_holds_no_line_and_blinking_off() {
    let st = SharedState::new();
    assert!(st.line.is_none());
    assert!(!st.get_toggle());
}

#[test]
fn install_transfers_line_and_keeps_flag() {
    let mut st = SharedState::new();
    let mut line = InputLine::released();
    line.press();
    st.install(line);
    assert!(st.line.is_some());
    assert!(st.line.as_ref().unwrap().is_low());
    assert!(!st.get_toggle());
}

#[test]
fn toggle_flag_reads_back_what_was_set() {
    let mut st = SharedState::new();
    st.set_toggle(true);
    assert!(st.get_toggle());
    st.set_toggle(false);
    assert!(!st.get_toggle());
}
