use cancomponents::button::{
    Button, Outcome, DEBOUNCE_TIME_MS, HOLD_REPEAT_MS, HOLD_THRESHOLD_MS, MULTI_CLICK_MAX_MS,
};
use cancomponents::button_message::{ButtonMessage, ButtonState};

fn msg(num: usize, state: ButtonState, count: u16) -> Option<ButtonMessage> {
    Some(ButtonMessage { num, state, count })
}

/// The debounce window passes quietly, then the state's wait ends with `o`.
fn settle_then(b: &mut Button, index: usize, o: Outcome) -> Option<ButtonMessage> {
    assert_eq!(b.wait_ms(), Some(DEBOUNCE_TIME_MS));
    assert_eq!(b.iterate(index, Outcome::Timeout), None);
    b.iterate(index, o)
}

#[test]
fn click_sequence() {
    let mut b = Button::new();
    assert_eq!(settle_then(&mut b, 2, Outcome::Event(true)), msg(2, ButtonState::Pressed, 0));
    assert_eq!(b.state, ButtonState::Pressed);
    assert_eq!(settle_then(&mut b, 2, Outcome::Event(false)), None);
    assert_eq!(b.clicks, 1);
    assert_eq!(b.state, ButtonState::Multi);
    assert_eq!(settle_then(&mut b, 2, Outcome::Event(true)), msg(2, ButtonState::Pressed, 0));
    assert_eq!(b.clicks, 2);
    assert_eq!(b.state, ButtonState::Multi);
    assert_eq!(settle_then(&mut b, 2, Outcome::Event(false)), msg(2, ButtonState::Released, 0));
    assert_eq!(b.clicks, 2);
    assert_eq!(settle_then(&mut b, 2, Outcome::Timeout), msg(2, ButtonState::Double, 2));
    assert_eq!(b.state, ButtonState::Released);
    assert_eq!(b.clicks, 0);
}

#[test]
fn single_click_burst() {
    let mut b = Button::new();
    assert_eq!(settle_then(&mut b, 0, Outcome::Event(true)), msg(0, ButtonState::Pressed, 0));
    assert_eq!(settle_then(&mut b, 0, Outcome::Event(false)), None);
    assert_eq!(settle_then(&mut b, 0, Outcome::Timeout), msg(0, ButtonState::Single, 1));
    assert_eq!(b.state, ButtonState::Released);
}

#[test]
fn hold_scenario() {
    let mut b = Button::new();
    assert_eq!(settle_then(&mut b, 1, Outcome::Event(true)), msg(1, ButtonState::Pressed, 0));
    assert_eq!(settle_then(&mut b, 1, Outcome::Timeout), msg(1, ButtonState::Hold, 0));
    assert_eq!(b.state, ButtonState::Hold);
    assert_eq!(settle_then(&mut b, 1, Outcome::Timeout), msg(1, ButtonState::Hold, 1));
    assert_eq!(b.hold_repeat, 1);
    assert_eq!(settle_then(&mut b, 1, Outcome::Timeout), msg(1, ButtonState::Hold, 2));
    assert_eq!(settle_then(&mut b, 1, Outcome::Event(false)), msg(1, ButtonState::Released, 0));
    assert_eq!(b.state, ButtonState::Released);
    assert_eq!(b.hold_repeat, 0);
}

#[test]
fn bounce_is_discarded() {
    let mut b = Button::new();
    assert_eq!(settle_then(&mut b, 0, Outcome::Event(true)), msg(0, ButtonState::Pressed, 0));
    let before = b;
    assert_eq!(b.iterate(0, Outcome::Event(false)), None);
    assert_eq!(b, before);
    assert_eq!(b.iterate(0, Outcome::Event(true)), None);
    assert_eq!(b, before);
}

#[test]
fn released_ignores_release_level() {
    let mut b = Button::new();
    assert_eq!(settle_then(&mut b, 0, Outcome::Event(false)), None);
    assert_eq!(b.state, ButtonState::Released);
}

#[test]
fn waits_per_state() {
    let mut b = Button::new();
    assert_eq!(b.wait_ms(), Some(DEBOUNCE_TIME_MS));
    b.iterate(0, Outcome::Timeout);
    assert_eq!(b.wait_ms(), None);
    b.iterate(0, Outcome::Event(true));
    b.iterate(0, Outcome::Timeout);
    assert_eq!(b.wait_ms(), Some(HOLD_THRESHOLD_MS));
    b.iterate(0, Outcome::Event(false));
    b.iterate(0, Outcome::Timeout);
    assert_eq!(b.wait_ms(), Some(MULTI_CLICK_MAX_MS));
    let mut h = Button { clicks: 0, hold_repeat: 0, state: ButtonState::Hold, debounced: true };
    assert_eq!(h.wait_ms(), Some(HOLD_REPEAT_MS));
    h.iterate(0, Outcome::Timeout);
    assert_eq!(h.wait_ms(), Some(DEBOUNCE_TIME_MS));
}

#[test]
fn hold_repeat_wraps() {
    let mut b = Button { clicks: 0, hold_repeat: u16::MAX, state: ButtonState::Hold, debounced: true };
    assert_eq!(b.iterate(4, Outcome::Timeout), msg(4, ButtonState::Hold, 0));
    assert_eq!(b.hold_repeat, 0);
}

#[test]
fn five_clicks_report_multi() {
    let mut b = Button::new();
    settle_then(&mut b, 0, Outcome::Event(true));
    settle_then(&mut b, 0, Outcome::Event(false));
    for _ in 0..4 {
        settle_then(&mut b, 0, Outcome::Event(true));
        settle_then(&mut b, 0, Outcome::Event(false));
    }
    assert_eq!(b.clicks, 5);
    assert_eq!(settle_then(&mut b, 0, Outcome::Timeout), msg(0, ButtonState::Multi, 5));
}
