use button_blink::controller::{handle_interrupt, loop_body, press_decision};
use button_blink::lines::{InputLine, OutputLine};
use button_blink::state::SharedState;

fn pressed_state() -> SharedState {
    let mut st = SharedState::new();
    let mut line = InputLine::released();
    line.press();
    st.install(line);
    st
}

#[test]
fn press_confirmed_toggles_and_logs() {
    let mut st = pressed_state();
    assert!(!st.toggle);
    let diag = handle_interrupt(&mut st);
    assert!(st.toggle);
    assert_eq!(diag, Some("Button pressed, toggling: true"));
}

#[test]
fn second_press_toggles_back_and_logs_false() {
    let mut st = pressed_state();
    handle_interrupt(&mut st);
    st.line.as_mut().unwrap().press();
    let diag = handle_interrupt(&mut st);
    assert!(!st.toggle);
    assert_eq!(diag, Some("Button pressed, toggling: false"));
}

#[test]
fn spurious_edge_clears_pending_without_toggle() {
    let mut st = SharedState::new();
    let mut line = InputLine::released();
    line.press();
    line.release();
    st.install(line);
    let diag = handle_interrupt(&mut st);
    assert!(!st.toggle);
    assert_eq!(diag, None);
    assert!(!st.line.as_ref().unwrap().pending);
}

#[test]
fn repeated_spurious_runs_keep_flag() {
    let mut st = SharedState::new();
    let mut line = InputLine::released();
    line.press();
    st.install(line);
    handle_interrupt(&mut st);
    assert!(st.toggle);
    for _ in 0..7 {
        st.line.as_mut().unwrap().press();
        st.line.as_mut().unwrap().release();
        let diag = handle_interrupt(&mut st);
        assert_eq!(diag, None);
        assert!(st.toggle);
        assert!(!st.line.as_ref().unwrap().pending);
    }
}

#[test]
fn toggle_after_presses_follows_parity() {
    for n in 0..6u32 {
        let mut st = pressed_state();
        st.line.as_mut().unwrap().release();
        for _ in 0..n {
            st.line.as_mut().unwrap().press();
            handle_interrupt(&mut st);
        }
        assert_eq!(st.toggle, n % 2 == 1);
    }
}

#[test]
fn interleaved_sections_compose() {
    let mut st = pressed_state();
    let mut out = OutputLine::new_low();
    let diag = handle_interrupt(&mut st);
    assert_eq!(diag, Some("Button pressed, toggling: true"));
    loop_body(&st, &mut out);
    assert!(out.high);
    st.line.as_mut().unwrap().press();
    handle_interrupt(&mut st);
    loop_body(&st, &mut out);
    assert!(!st.toggle);
    assert!(!out.high);
}

#[test]
fn off_flag_forces_line_low() {
    let st = SharedState::new();
    let mut out = OutputLine::new_low();
    out.toggle();
    assert!(out.high);
    loop_body(&st, &mut out);
    assert!(!out.high);
}

#[test]
fn ten_ticks_blink_five_cycles() {
    let mut st = pressed_state();
    handle_interrupt(&mut st);
    assert!(st.toggle);
    let mut out = OutputLine::new_low();
    let mut transitions: u32 = 0;
    let mut was_high = out.is_high();
    for _ in 0..10 {
        loop_body(&st, &mut out);
        assert_ne!(out.is_high(), was_high);
        transitions += 1;
        was_high = out.is_high();
    }
    assert_eq!(transitions, 10);
    assert_eq!(transitions / 2, 5);
    assert!(!out.is_high());
}

#[test]
fn clearing_flag_mid_blink_forces_off() {
    let mut st = pressed_state();
    handle_interrupt(&mut st);
    let mut out = OutputLine::new_low();
    loop_body(&st, &mut out);
    assert!(out.high);
    st.set_toggle(false);
    loop_body(&st, &mut out);
    assert!(!out.high);
}

#[test]
fn press_decision_matches_flag_and_message() {
    assert_eq!(
        press_decision(true, false),
        (true, Some("Button pressed, toggling: true"))
    );
    assert_eq!(
        press_decision(true, true),
        (false, Some("Button pressed, toggling: false"))
    );
    assert_eq!(press_decision(false, false), (false, None));
    assert_eq!(press_decision(false, true), (true, None));
}
