//! The application state machine, driven through whole loop iterations.
use time_saver::custom_characters::MAN_STANDING;
use time_saver::encoder_interface::get;
use time_saver::encoder_interface::init_encoder;
use time_saver::state_machine::DEFAULT_MINUTES_TO_GO;
use time_saver::state_machine::TimeSaver;
use time_saver::state_machine::TimeSaverState;

#[test]
fn machine_starts_in_splash() {
    let machine = TimeSaver::new();
    assert_eq!(machine.state(), TimeSaverState::Splash);
    assert_eq!(machine.minutes_remaining(), 0);
}

#[test]
fn first_iteration_draws_the_greeting() {
    let mut machine = TimeSaver::new();
    let (mut count, _decoder) = init_encoder();
    let _ = machine.take_display_ops();
    machine.step(1, false, &mut count);
    assert_eq!(machine.state(), TimeSaverState::Splash);
    let screen = machine.display_screen();
    assert_eq!(&screen[..15], b"Save your time ");
    assert_eq!(screen[15], 3, "the filled heart glyph sits in the last cell");
    assert!(!machine.take_display_ops().is_empty());
}

#[test]
fn press_in_splash_enters_setting_with_defaults() {
    let mut machine = TimeSaver::new();
    let (mut count, _decoder) = init_encoder();
    machine.step(1, false, &mut count);
    machine.step(200, true, &mut count);
    assert_eq!(machine.state(), TimeSaverState::Setting);
    assert_eq!(machine.minutes_remaining(), DEFAULT_MINUTES_TO_GO);
    assert_eq!(get(&count), DEFAULT_MINUTES_TO_GO as i32 - 1);
}

#[test]
fn press_in_setting_enters_count_with_defaults() {
    let mut machine = TimeSaver::new();
    let (mut count, _decoder) = init_encoder();
    machine.step(1, false, &mut count);
    machine.step(200, true, &mut count);
    machine.step(400, true, &mut count);
    assert_eq!(machine.state(), TimeSaverState::Count);
    assert_eq!(machine.minutes_remaining(), DEFAULT_MINUTES_TO_GO);
    assert_eq!(get(&count), DEFAULT_MINUTES_TO_GO as i32 - 1);
}

#[test]
fn button_is_ignored_off_the_200ms_grid() {
    let mut machine = TimeSaver::new();
    let (mut count, _decoder) = init_encoder();
    machine.step(1, false, &mut count);
    machine.step(130, true, &mut count);
    assert_eq!(machine.state(), TimeSaverState::Splash);
}

#[test]
fn setting_reads_the_encoder_plus_one() {
    let mut machine = TimeSaver::new();
    let (mut count, _decoder) = init_encoder();
    machine.step(1, false, &mut count);
    machine.step(200, true, &mut count);
    time_saver::encoder_interface::set(&mut count, 41);
    machine.step(250, false, &mut count);
    assert_eq!(machine.minutes_remaining(), 42);
    let screen = machine.display_screen();
    assert_eq!(&screen[21..24], b" 42", "minutes sit right-aligned at row 1, column 5");
}

#[test]
fn setting_clamps_a_negative_encoder_to_one_minute() {
    let mut machine = TimeSaver::new();
    let (mut count, _decoder) = init_encoder();
    machine.step(1, false, &mut count);
    machine.step(200, true, &mut count);
    time_saver::encoder_interface::set(&mut count, -5);
    machine.step(250, false, &mut count);
    assert_eq!(machine.minutes_remaining(), 1);
    assert_eq!(get(&count), 0, "a negative count is reset");
}

#[test]
fn count_decrements_on_each_whole_minute() {
    let mut machine = TimeSaver::new();
    let (mut count, _decoder) = init_encoder();
    machine.step(1, false, &mut count);
    machine.step(200, true, &mut count);
    machine.step(400, true, &mut count);
    machine.step(60000, false, &mut count);
    assert_eq!(machine.state(), TimeSaverState::Count);
    assert_eq!(machine.minutes_remaining(), DEFAULT_MINUTES_TO_GO - 1);
    let screen = machine.display_screen();
    assert_eq!(&screen[16..23], b" 19 min");
}

#[test]
fn count_ignores_other_instants() {
    let mut machine = TimeSaver::new();
    let (mut count, _decoder) = init_encoder();
    machine.step(1, false, &mut count);
    machine.step(200, true, &mut count);
    machine.step(400, true, &mut count);
    machine.step(59_950, false, &mut count);
    assert_eq!(machine.minutes_remaining(), DEFAULT_MINUTES_TO_GO);
}

#[test]
fn countdown_exhaustion_becomes_alarm_on_the_same_tick() {
    let mut machine = TimeSaver::new();
    let (mut count, _decoder) = init_encoder();
    machine.step(1, false, &mut count);
    machine.step(200, true, &mut count);
    // Choose 1 minute: encoder 0, sampled at a 50 ms instant off the grid
    // of the button.
    time_saver::encoder_interface::set(&mut count, 0);
    machine.step(250, false, &mut count);
    assert_eq!(machine.minutes_remaining(), 1);
    machine.step(400, true, &mut count);
    assert_eq!(machine.state(), TimeSaverState::Count);
    machine.step(60000, false, &mut count);
    assert_eq!(machine.minutes_remaining(), 0);
    assert_eq!(machine.state(), TimeSaverState::Count);
    machine.step(120_000, false, &mut count);
    assert_eq!(machine.state(), TimeSaverState::Alarm, "alarm on that same tick, not later");
    assert_eq!(machine.minutes_remaining(), 0);
}

#[test]
fn alarm_blinks_the_backlight() {
    let mut machine = TimeSaver::new();
    let (mut count, _decoder) = init_encoder();
    machine.step(1, false, &mut count);
    machine.step(200, true, &mut count);
    time_saver::encoder_interface::set(&mut count, 0);
    machine.step(250, false, &mut count);
    machine.step(400, true, &mut count);
    machine.step(60000, false, &mut count);
    machine.step(120_000, false, &mut count);
    // Next iteration runs the alarm entry action and draws the banner.
    machine.step(120_001, false, &mut count);
    assert_eq!(machine.state(), TimeSaverState::Alarm);
    let screen = machine.display_screen();
    assert_eq!(&screen[2..14], b"TIME IS UP!!");
    // At a 500 ms instant the backlight toggles.
    let fx = machine.step(120_500, false, &mut count);
    assert!(fx.backlight_toggle);
    assert!(!fx.backlight_on);
}

#[test]
fn press_in_alarm_returns_to_splash_and_lights_the_backlight() {
    let mut machine = TimeSaver::new();
    let (mut count, _decoder) = init_encoder();
    machine.step(1, false, &mut count);
    machine.step(200, true, &mut count);
    time_saver::encoder_interface::set(&mut count, 0);
    machine.step(250, false, &mut count);
    machine.step(400, true, &mut count);
    machine.step(60000, false, &mut count);
    machine.step(120_000, false, &mut count);
    machine.step(120_001, false, &mut count);
    let fx = machine.step(120_600, true, &mut count);
    assert_eq!(machine.state(), TimeSaverState::Splash);
    assert!(fx.backlight_on);
}

#[test]
fn count_animates_the_walking_figure() {
    let mut machine = TimeSaver::new();
    let (mut count, _decoder) = init_encoder();
    machine.step(1, false, &mut count);
    machine.step(200, true, &mut count);
    machine.step(400, true, &mut count);
    // 60500 is on the 500 ms grid but on neither the 200 ms nor the
    // 60000 ms grid.
    let fx = machine.step(60_500, false, &mut count);
    assert_eq!(fx.animation_led, Some(true));
    let screen = machine.display_screen();
    assert_eq!(screen[31], MAN_STANDING);
    let fx2 = machine.step(61_500, false, &mut count);
    assert_eq!(fx2.animation_led, Some(false));
    assert_eq!(machine.minutes_remaining(), DEFAULT_MINUTES_TO_GO);
}
