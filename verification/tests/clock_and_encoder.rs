//! The millisecond clock and the encoder counter, driven as the interrupt
//! handlers and the main loop would drive them.
use time_saver::encoder_interface::Direction;
use time_saver::encoder_interface::apply_direction;
use time_saver::encoder_interface::get;
use time_saver::encoder_interface::handle_encoder_interrupt;
use time_saver::encoder_interface::init_encoder;
use time_saver::encoder_interface::reset;
use time_saver::millis;

#[test]
fn clock_read_before_init_fails() {
    let clock = millis::MillisecondClock::new();
    assert_eq!(millis::now(&clock), Err(millis::Error::ClockNotInitialized));
}

#[test]
fn clock_counts_resolution_per_tick() {
    let mut clock = millis::MillisecondClock::new();
    millis::init(&mut clock, 5);
    assert_eq!(millis::now(&clock), Ok(0));
    millis::tick(&mut clock);
    millis::tick(&mut clock);
    millis::tick(&mut clock);
    assert_eq!(millis::now(&clock), Ok(15));
}

#[test]
fn clock_with_other_resolution() {
    let mut clock = millis::MillisecondClock::new();
    millis::init(&mut clock, 7);
    for _ in 0..10 {
        millis::tick(&mut clock);
    }
    assert_eq!(millis::now(&clock), Ok(70));
}

#[test]
fn clock_tick_before_init_does_nothing() {
    let mut clock = millis::MillisecondClock::new();
    millis::tick(&mut clock);
    assert_eq!(millis::now(&clock), Err(millis::Error::ClockNotInitialized));
}

#[test]
fn clock_reinit_restarts() {
    let mut clock = millis::MillisecondClock::new();
    millis::init(&mut clock, 5);
    millis::tick(&mut clock);
    millis::init(&mut clock, 2);
    assert_eq!(millis::now(&clock), Ok(0));
    millis::tick(&mut clock);
    assert_eq!(millis::now(&clock), Ok(2));
}

#[test]
fn encoder_starts_at_zero() {
    let (count, _decoder) = init_encoder();
    assert_eq!(get(&count), 0);
}

#[test]
fn encoder_set_and_get() {
    let (mut count, _decoder) = init_encoder();
    time_saver::encoder_interface::set(&mut count, -42);
    assert_eq!(get(&count), -42);
}

#[test]
fn encoder_reset_then_get_is_zero() {
    let (mut count, _decoder) = init_encoder();
    time_saver::encoder_interface::set(&mut count, 1234);
    reset(&mut count);
    assert_eq!(get(&count), 0);
}

#[test]
fn one_clockwise_direction_raises_count_by_one() {
    let (mut count, _decoder) = init_encoder();
    apply_direction(&mut count, Direction::NoRotation);
    apply_direction(&mut count, Direction::Clockwise);
    apply_direction(&mut count, Direction::NoRotation);
    assert_eq!(get(&count), 1);
}

#[test]
fn one_anticlockwise_direction_lowers_count_by_one() {
    let (mut count, _decoder) = init_encoder();
    apply_direction(&mut count, Direction::Anticlockwise);
    assert_eq!(get(&count), -1);
}

#[test]
fn no_rotation_leaves_count_unchanged() {
    let (mut count, _decoder) = init_encoder();
    time_saver::encoder_interface::set(&mut count, 7);
    apply_direction(&mut count, Direction::NoRotation);
    apply_direction(&mut count, Direction::NoRotation);
    assert_eq!(get(&count), 7);
}

#[test]
fn count_wraps_at_the_range_ends() {
    let (mut count, _decoder) = init_encoder();
    time_saver::encoder_interface::set(&mut count, i32::MAX);
    apply_direction(&mut count, Direction::Clockwise);
    assert_eq!(get(&count), i32::MIN);
    time_saver::encoder_interface::set(&mut count, i32::MIN);
    apply_direction(&mut count, Direction::Anticlockwise);
    assert_eq!(get(&count), i32::MAX);
}

#[test]
fn pin_edges_of_one_clockwise_detent_raise_count_by_one() {
    // Drive the real quadrature decoder through the edge sequence of one
    // clockwise detent: DT falls first, then CLK follows.
    let (mut count, mut decoder) = init_encoder();
    handle_encoder_interrupt(&mut count, &mut decoder, false, true);
    handle_encoder_interrupt(&mut count, &mut decoder, false, true);
    handle_encoder_interrupt(&mut count, &mut decoder, false, false);
    assert_eq!(get(&count), 1);
}

#[test]
fn contradictory_pin_edges_leave_count_unchanged() {
    // Both pins high on every sample: the decoder never sees a detent.
    let (mut count, mut decoder) = init_encoder();
    for _ in 0..8 {
        handle_encoder_interrupt(&mut count, &mut decoder, true, true);
    }
    assert_eq!(get(&count), 0);
}
