use rapid_trigger::adc::Pin;
use rapid_trigger::keyboard::KeyEvent;
use rapid_trigger::keyboard::Keyboard;
use rapid_trigger::keycode::Keycode;
use rapid_trigger::rt::key::ConfigError;
use rapid_trigger::rt::key::Key;
use rapid_trigger::rt::key::State;
use rapid_trigger::rt::key::FULL_TRAVEL;

fn fraction(travel: i64) -> f64 {
    travel as f64 / FULL_TRAVEL as f64
}

#[test]
fn new_key_is_up_with_default_settings() {
    let key = Key::new(Keycode::KeyZ, Pin::P27);
    let m = key.model();
    assert_eq!(m.keycode, Keycode::KeyZ);
    assert_eq!(m.channel, Some(Pin::P27));
    assert_eq!(m.bottom_level, 100);
    assert_eq!(m.top_level, 0);
    assert_eq!(m.trigger_stroke, 200_000);
    assert_eq!(m.release_stroke, 200_000);
    assert_eq!(m.dead_zone, 30_000);
    assert_eq!(m.state, State::Release);
    assert_eq!(m.last_min_stroke, 1_000_000);
    assert_eq!(m.last_max_stroke, 0);
    assert_eq!(key.state(), State::Release);
    assert_eq!(key.keycode(), Keycode::KeyZ);
    assert_eq!(key.channel(), Some(Pin::P27));
}

#[test]
fn default_key_is_letter_a_without_channel() {
    let key = Key::default();
    assert_eq!(key.keycode(), Keycode::KeyA);
    assert_eq!(key.channel(), None);
    assert_eq!(key.state(), State::Release);
    assert_eq!(key.model().bottom_level, 100);
    assert_eq!(key.model().top_level, 0);
}

#[test]
fn travel_fraction_at_the_calibration_points() {
    let mut key = Key::new(Keycode::KeyA, Pin::P26);
    assert_eq!(key.calibrate(100, 0), Ok(()));
    assert_eq!(key.travel_fraction(100), 0);
    assert_eq!(key.travel_fraction(0), 1_000_000);
    assert_eq!(key.travel_fraction(50), 500_000);
    assert_eq!(fraction(key.travel_fraction(100)), 0.0);
    assert_eq!(fraction(key.travel_fraction(0)), 1.0);
    assert_eq!(fraction(key.travel_fraction(50)), 0.5);
}

#[test]
fn travel_fraction_does_not_depend_on_which_level_is_larger() {
    let mut key = Key::new(Keycode::KeyA, Pin::P26);
    assert_eq!(key.calibrate(1000, 4000), Ok(()));
    assert_eq!(key.travel_fraction(4000), 0);
    assert_eq!(key.travel_fraction(1000), 1_000_000);
    assert_eq!(key.travel_fraction(2500), 500_000);
    assert_eq!(key.calibrate(4000, 1000), Ok(()));
    assert_eq!(key.travel_fraction(4000), 0);
    assert_eq!(key.travel_fraction(1000), 1_000_000);
    assert_eq!(key.travel_fraction(2500), 500_000);
}

#[test]
fn travel_fraction_is_not_clamped() {
    let key = Key::new(Keycode::KeyA, Pin::P26);
    assert_eq!(key.travel_fraction(101), -10_000);
    assert_eq!(key.travel_fraction(200), -1_000_000);
    assert_eq!(key.travel_fraction(65535), -654_350_000);
    let mut shifted = Key::new(Keycode::KeyA, Pin::P26);
    assert_eq!(shifted.calibrate(300, 200), Ok(()));
    assert_eq!(shifted.travel_fraction(150), 1_500_000);
    assert_eq!(shifted.travel_fraction(0), 3_000_000);
}

#[test]
fn travel_fraction_rounds_down() {
    let mut key = Key::new(Keycode::KeyA, Pin::P26);
    assert_eq!(key.calibrate(3, 0), Ok(()));
    assert_eq!(key.travel_fraction(2), 333_333);
    assert_eq!(key.travel_fraction(1), 666_666);
    assert_eq!(key.travel_fraction(4), -333_334);
    assert_eq!(key.travel_fraction(5), -666_667);
    assert_eq!(key.travel_fraction(6), -1_000_000);
}

#[test]
fn travel_fraction_over_the_widest_range() {
    let mut key = Key::new(Keycode::KeyA, Pin::P26);
    assert_eq!(key.calibrate(65535, 0), Ok(()));
    assert_eq!(key.travel_fraction(65535), 0);
    assert_eq!(key.travel_fraction(0), 1_000_000);
    assert_eq!(key.travel_fraction(65534), 15);
    assert_eq!(key.calibrate(0, 1), Ok(()));
    assert_eq!(key.travel_fraction(65535), -65_534_000_000);
}

#[test]
fn calibration_with_zero_range_is_refused() {
    let mut key = Key::new(Keycode::KeyA, Pin::P26);
    assert_eq!(key.calibrate(0, 4095), Ok(()));
    assert_eq!(key.calibrate(7, 7), Err(ConfigError::ZeroRange));
    assert_eq!(key.model().bottom_level, 0);
    assert_eq!(key.model().top_level, 4095);
    assert_eq!(key.calibrate(0, 0), Err(ConfigError::ZeroRange));
    assert_eq!(key.calibrate(65535, 65535), Err(ConfigError::ZeroRange));
    assert_eq!(key.model().top_level, 4095);
}

#[test]
fn set_strokes_changes_the_sensitivity_only() {
    let mut key = Key::new(Keycode::KeyB, Pin::P28);
    key.set_strokes(100_000, 50_000, 10_000);
    let m = key.model();
    assert_eq!(m.trigger_stroke, 100_000);
    assert_eq!(m.release_stroke, 50_000);
    assert_eq!(m.dead_zone, 10_000);
    assert_eq!(m.keycode, Keycode::KeyB);
    assert_eq!(m.channel, Some(Pin::P28));
    assert_eq!(m.bottom_level, 100);
    assert_eq!(m.top_level, 0);
    assert_eq!(m.state, State::Release);
    assert_eq!(m.last_min_stroke, 1_000_000);
}

#[test]
fn first_sample_sets_the_minimum_and_the_second_triggers() {
    let mut key = Key::new(Keycode::KeyA, Pin::P26);
    assert_eq!(key.model().last_min_stroke, 1_000_000);
    assert_eq!(key.travel_fraction(90), 100_000);
    assert_eq!(key.decide(90), None);
    assert_eq!(key.model().last_min_stroke, 100_000);
    assert_eq!(key.state(), State::Release);
    assert_eq!(key.travel_fraction(65), 350_000);
    assert_eq!(key.decide(65), Some(KeyEvent::Press(Keycode::KeyA)));
    assert_eq!(key.model().last_min_stroke, 1_000_000);
    assert_eq!(key.state(), State::Trigger);
}

#[test]
fn press_comes_exactly_at_the_threshold() {
    let mut key = Key::new(Keycode::KeyA, Pin::P26);
    assert_eq!(key.decide(90), None);
    assert_eq!(key.decide(71), None);
    assert_eq!(key.model().last_min_stroke, 100_000);
    assert_eq!(key.decide(70), Some(KeyEvent::Press(Keycode::KeyA)));
}

#[test]
fn steady_hold_after_press_emits_nothing() {
    let mut key = Key::new(Keycode::KeyA, Pin::P26);
    assert_eq!(key.decide(90), None);
    assert_eq!(key.decide(65), Some(KeyEvent::Press(Keycode::KeyA)));
    for _ in 0..100 {
        assert_eq!(key.decide(65), None);
        assert_eq!(key.state(), State::Trigger);
        assert_eq!(key.model().last_max_stroke, 350_000);
    }
}

#[test]
fn drop_to_the_release_threshold_emits_one_release() {
    let mut key = Key::new(Keycode::KeyA, Pin::P26);
    assert_eq!(key.decide(90), None);
    assert_eq!(key.decide(65), Some(KeyEvent::Press(Keycode::KeyA)));
    assert_eq!(key.decide(65), None);
    assert_eq!(key.decide(84), None);
    assert_eq!(key.model().last_max_stroke, 350_000);
    assert_eq!(key.decide(85), Some(KeyEvent::Release(Keycode::KeyA)));
    assert_eq!(key.state(), State::Release);
    assert_eq!(key.model().last_max_stroke, 0);
    assert_eq!(key.decide(85), None);
    assert_eq!(key.decide(85), None);
    assert_eq!(key.model().last_min_stroke, 150_000);
}

#[test]
fn partial_release_and_repress_trigger_again() {
    let mut key = Key::new(Keycode::KeyA, Pin::P26);
    assert_eq!(key.decide(100), None);
    assert_eq!(key.decide(20), Some(KeyEvent::Press(Keycode::KeyA)));
    assert_eq!(key.decide(10), None);
    assert_eq!(key.model().last_max_stroke, 900_000);
    assert_eq!(key.decide(30), Some(KeyEvent::Release(Keycode::KeyA)));
    assert_eq!(key.decide(35), None);
    assert_eq!(key.model().last_min_stroke, 650_000);
    assert_eq!(key.decide(15), Some(KeyEvent::Press(Keycode::KeyA)));
}

#[test]
fn dead_zone_bounds_the_press_threshold() {
    let mut key = Key::new(Keycode::KeyA, Pin::P26);
    assert_eq!(key.decide(10), None);
    assert_eq!(key.model().last_min_stroke, 900_000);
    assert_eq!(key.decide(4), None);
    assert_eq!(key.decide(3), Some(KeyEvent::Press(Keycode::KeyA)));
}

#[test]
fn dead_zone_bounds_the_release_threshold() {
    let mut key = Key::new(Keycode::KeyA, Pin::P26);
    assert_eq!(key.decide(100), None);
    assert_eq!(key.decide(80), Some(KeyEvent::Press(Keycode::KeyA)));
    assert_eq!(key.decide(90), None);
    assert_eq!(key.model().last_max_stroke, 100_000);
    assert_eq!(key.decide(96), None);
    assert_eq!(key.decide(97), Some(KeyEvent::Release(Keycode::KeyA)));
}

#[test]
fn samples_outside_the_range_are_held_inside_it() {
    let mut key = Key::new(Keycode::KeyA, Pin::P26);
    assert_eq!(key.calibrate(300, 200), Ok(()));
    assert_eq!(key.decide(65535), None);
    assert_eq!(key.model().last_min_stroke, 0);
    assert_eq!(key.decide(0), Some(KeyEvent::Press(Keycode::KeyA)));
    assert_eq!(key.decide(0), None);
    assert_eq!(key.model().last_max_stroke, 1_000_000);
    assert_eq!(key.decide(65535), Some(KeyEvent::Release(Keycode::KeyA)));
    assert_eq!(key.model().last_max_stroke, 0);
    assert_eq!(key.model().last_min_stroke, 1_000_000);
}

#[test]
fn events_alternate_over_a_long_run() {
    let mut key = Key::new(Keycode::KeyQ, Pin::P26);
    let mut events: Vec<KeyEvent> = Vec::new();
    let mut raw: u32 = 12345;
    for _ in 0..5000 {
        raw = (raw * 1103515245 + 12345) % 2147483648;
        let sample = ((raw >> 8) % 140) as u16;
        let before = key.state();
        let event = key.decide(sample);
        match event {
            Some(KeyEvent::Press(k)) => {
                assert_eq!(k, Keycode::KeyQ);
                assert_eq!(before, State::Release);
                assert_eq!(key.state(), State::Trigger);
            }
            Some(KeyEvent::Release(k)) => {
                assert_eq!(k, Keycode::KeyQ);
                assert_eq!(before, State::Trigger);
                assert_eq!(key.state(), State::Release);
            }
            None => assert_eq!(key.state(), before),
        }
        if let Some(e) = event {
            events.push(e);
        }
    }
    assert!(events.len() > 10);
    assert!(events[0].is_press());
    for pair in events.windows(2) {
        assert_ne!(pair[0].is_press(), pair[1].is_press());
    }
}

#[test]
fn key_without_trigger_stroke_chatters_in_the_dead_zone() {
    let mut key = Key::new(Keycode::KeyA, Pin::P26);
    key.set_strokes(0, 200_000, 30_000);
    assert_eq!(key.decide(100), Some(KeyEvent::Press(Keycode::KeyA)));
    assert_eq!(key.decide(100), Some(KeyEvent::Release(Keycode::KeyA)));
    assert_eq!(key.decide(100), Some(KeyEvent::Press(Keycode::KeyA)));
}

#[test]
fn strokes_beyond_the_range_do_not_overflow() {
    let mut key = Key::new(Keycode::KeyA, Pin::P26);
    key.set_strokes(u32::MAX, u32::MAX, 0);
    assert_eq!(key.decide(100), None);
    assert_eq!(key.decide(0), Some(KeyEvent::Press(Keycode::KeyA)));
    assert_eq!(key.decide(0), None);
    assert_eq!(key.decide(100), Some(KeyEvent::Release(Keycode::KeyA)));
    key.set_strokes(0, 0, u32::MAX);
    assert_eq!(key.decide(100), Some(KeyEvent::Press(Keycode::KeyA)));
    assert_eq!(key.decide(0), Some(KeyEvent::Release(Keycode::KeyA)));
}

#[test]
fn process_sends_a_report_only_with_an_event() {
    let mut key = Key::new(Keycode::KeyA, Pin::P26);
    let mut kb = Keyboard::new();
    assert_eq!(key.process(90, &mut kb), None);
    assert_eq!(kb.keycodes(), [0, 0, 0, 0, 0, 0]);
    assert_eq!(key.process(65, &mut kb), Some([0, 0, 0x04, 0, 0, 0, 0, 0]));
    assert_eq!(kb.keycodes(), [0x04, 0, 0, 0, 0, 0]);
    assert_eq!(key.process(65, &mut kb), None);
    assert_eq!(kb.keycodes(), [0x04, 0, 0, 0, 0, 0]);
    assert_eq!(key.process(85, &mut kb), Some([0, 0, 0, 0, 0, 0, 0, 0]));
    assert_eq!(kb.keycodes(), [0, 0, 0, 0, 0, 0]);
    assert_eq!(key.state(), State::Release);
}
