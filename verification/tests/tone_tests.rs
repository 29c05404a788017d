use mputest::tone::buzz_frequency_for;
use mputest::tone::map_to_frequency;
use mputest::tone::tone_step;
use mputest::tone::ToneState;
use mputest::tone::DEFAULT_MAX_BUZZ_VALUE;
use mputest::tone::DEFAULT_MIN_BUZZ_VALUE;

#[test]
fn intensity_at_or_below_the_minimum_is_silent() {
    assert_eq!(buzz_frequency_for(0, 100, 200), 0);
    assert_eq!(buzz_frequency_for(99, 100, 200), 0);
    assert_eq!(buzz_frequency_for(100, 100, 200), 0);
}

#[test]
fn intensity_at_the_maximum_hits_the_top_of_the_band() {
    assert_eq!(buzz_frequency_for(200, 100, 200), 2000);
    assert_eq!(buzz_frequency_for(5000, 100, 200), 2000);
    assert_eq!(map_to_frequency(10000, 300, 10000), 2000);
}

#[test]
fn intensity_at_the_midpoint_hits_the_middle_of_the_band() {
    assert_eq!(buzz_frequency_for(150, 100, 200), 1050);
    assert_eq!(buzz_frequency_for(5150, 300, 10000), 1050);
}

#[test]
fn equal_bounds_divide_by_nothing_and_stay_at_the_bottom() {
    assert_eq!(buzz_frequency_for(600, 500, 500), 100);
    assert_eq!(buzz_frequency_for(500, 500, 500), 0);
    assert_eq!(buzz_frequency_for(400, 500, 500), 0);
}

#[test]
fn mapping_is_linear_between_the_anchors() {
    // 20 steps into a 100-wide range: 20 * 1900 / 100 = 380 above the floor
    assert_eq!(map_to_frequency(120, 100, 200), 480);
    // values below the range clamp to the floor
    assert_eq!(map_to_frequency(50, 100, 200), 100);
}

#[test]
fn tone_step_commands_nothing_while_playback_is_disabled() {
    let mut state = ToneState::initial();
    assert_eq!(state.min_value, DEFAULT_MIN_BUZZ_VALUE);
    assert_eq!(state.max_value, DEFAULT_MAX_BUZZ_VALUE);
    assert!(!state.play_sound);
    let cmd = tone_step(&mut state, 5000, None, None, Some(true));
    assert_eq!(cmd, None);
    assert!(state.play_sound);
}

#[test]
fn tone_step_adopts_new_bounds_before_mapping() {
    let mut state = ToneState::initial();
    state.play_sound = true;
    let cmd = tone_step(&mut state, 150, Some(100), Some(200), None);
    assert_eq!(state.min_value, 100);
    assert_eq!(state.max_value, 200);
    assert_eq!(cmd, Some(1050));
}

#[test]
fn tone_step_silences_quiet_intensities() {
    let mut state = ToneState {
        min_value: 300,
        max_value: 10000,
        play_sound: true,
    };
    assert_eq!(tone_step(&mut state, 300, None, None, None), Some(0));
    assert_eq!(tone_step(&mut state, 0, None, None, None), Some(0));
}

#[test]
fn tone_step_applies_playback_updates_after_the_command() {
    let mut state = ToneState {
        min_value: 100,
        max_value: 200,
        play_sound: true,
    };
    // still playing this iteration, stops for the next one
    let cmd = tone_step(&mut state, 200, None, None, Some(false));
    assert_eq!(cmd, Some(2000));
    assert!(!state.play_sound);
    let cmd = tone_step(&mut state, 200, None, None, None);
    assert_eq!(cmd, None);
}
