use deck_session::gesture::ButtonEvent;
use deck_session::gesture::GestureConfig;
use deck_session::gesture::RepeatCounter;
use deck_session::gesture::DEFAULT_EXIT_REPEAT_THRESHOLD;
use deck_session::gesture::DEFAULT_POLL_TIMEOUT_SECONDS;

fn presses(button: u8, count: usize) -> Vec<ButtonEvent> {
    let mut events = Vec::new();
    for _ in 0..count {
        events.push(ButtonEvent::Pressed(button));
    }
    events
}

#[test]
fn six_presses_of_one_button_do_not_fire() {
    let mut counter = RepeatCounter::new();
    let fired = counter.process_batch(&presses(3, 6), 6);
    assert!(!fired);
}

#[test]
fn seven_presses_of_one_button_fire() {
    let mut counter = RepeatCounter::new();
    let fired = counter.process_batch(&presses(3, 7), 6);
    assert!(fired);
}

#[test]
fn the_seventh_press_fires_and_none_earlier() {
    let mut counter = RepeatCounter::new();
    for press in 0..6 {
        let fired = counter.observe(&ButtonEvent::Pressed(9), 6);
        assert!(!fired, "press {} must not fire", press + 1);
    }
    let fired = counter.observe(&ButtonEvent::Pressed(9), 6);
    assert!(fired, "the seventh press must fire");
}

#[test]
fn button_zero_needs_seven_presses_too() {
    let mut counter = RepeatCounter::new();
    let fired = counter.process_batch(&presses(0, 6), 6);
    assert!(!fired);
    let fired = counter.observe(&ButtonEvent::Pressed(0), 6);
    assert!(fired);
}

#[test]
fn intervening_press_of_another_button_resets_the_streak() {
    let mut events = presses(2, 6);
    events.push(ButtonEvent::Pressed(5));
    events.extend(presses(2, 6));
    let mut counter = RepeatCounter::new();
    let fired = counter.process_batch(&events, 6);
    assert!(!fired, "thirteen presses with a break must not fire");
}

#[test]
fn thirteen_unbroken_presses_do_fire() {
    let mut counter = RepeatCounter::new();
    let fired = counter.process_batch(&presses(2, 13), 6);
    assert!(fired);
}

#[test]
fn releases_between_presses_do_not_affect_the_streak() {
    let mut events = Vec::new();
    for _ in 0..7 {
        events.push(ButtonEvent::Pressed(4));
        events.push(ButtonEvent::Released(4));
    }
    let mut counter = RepeatCounter::new();
    let fired = counter.process_batch(&events, 6);
    assert!(fired, "seven presses fire even with releases between them");
}

#[test]
fn other_state_changes_do_not_affect_the_streak() {
    let mut counter = RepeatCounter::new();
    for _ in 0..6 {
        assert!(!counter.observe(&ButtonEvent::Pressed(1), 6));
        assert!(!counter.observe(&ButtonEvent::OtherChange, 6));
        assert!(!counter.observe(&ButtonEvent::Released(1), 6));
    }
    assert!(counter.observe(&ButtonEvent::Pressed(1), 6));
}

#[test]
fn a_release_alone_leaves_a_fresh_counter_fresh() {
    let mut counter = RepeatCounter::new();
    assert!(!counter.observe(&ButtonEvent::Released(0), 6));
    assert!(counter.last_button.is_none());
    assert_eq!(counter.streak, 0);
}

#[test]
fn a_fresh_button_starts_its_streak_at_zero() {
    let mut counter = RepeatCounter::new();
    counter.observe(&ButtonEvent::Pressed(7), 6);
    assert_eq!(counter.last_button, Some(7));
    assert_eq!(counter.streak, 0);
    counter.observe(&ButtonEvent::Pressed(7), 6);
    assert_eq!(counter.streak, 1);
    counter.observe(&ButtonEvent::Pressed(8), 6);
    assert_eq!(counter.last_button, Some(8));
    assert_eq!(counter.streak, 0);
}

#[test]
fn batch_processing_stops_at_the_firing_press() {
    let mut events = presses(6, 7);
    events.push(ButtonEvent::Pressed(1));
    let mut counter = RepeatCounter::new();
    let fired = counter.process_batch(&events, 6);
    assert!(fired);
    assert_eq!(counter.last_button, Some(6), "the trailing press is not processed");
    assert_eq!(counter.streak, 6);
}

#[test]
fn a_threshold_of_one_fires_on_the_second_press() {
    let mut counter = RepeatCounter::new();
    assert!(!counter.observe(&ButtonEvent::Pressed(2), 1));
    assert!(counter.observe(&ButtonEvent::Pressed(2), 1));
}

#[test]
fn the_default_configuration_matches_the_reference_behaviour() {
    let config = GestureConfig::default();
    assert_eq!(config.poll_timeout_seconds, 200);
    assert_eq!(config.exit_repeat_threshold, 6);
    assert_eq!(DEFAULT_POLL_TIMEOUT_SECONDS, 200);
    assert_eq!(DEFAULT_EXIT_REPEAT_THRESHOLD, 6);
}
