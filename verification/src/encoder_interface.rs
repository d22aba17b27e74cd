//! The rotary-encoder counter.
//!
//! A signed count of detents, stepped by quadrature decode results that the
//! pin-edge interrupt handler feeds in, and read, overwritten or reset by the
//! main loop. The quadrature decoding itself is the outside decoder's job;
//! this module owns only the counting.
use vstd::prelude::*;

verus! {

/// What one quadrature decode step reported.
#[derive(Clone, Copy, Debug, PartialEq, Eq, Structural)]
pub enum Direction {
    /// One detent in the clockwise sense.
    Clockwise,
    /// One detent in the counter-clockwise sense.
    Anticlockwise,
    /// No complete detent (an intermediate or contradictory edge).
    NoRotation,
}

/// Which encoder pin raised the edge interrupt; the interrupt handler needs
/// it to clear the right pending flag before decoding.
#[derive(Clone, Copy, Debug, PartialEq, Eq, Structural)]
pub enum InterruptedPin {
    DtPin,
    ClkPin,
}

/// The shared signed counter. 32 bits tolerate years of continuous turning.
#[derive(Clone, Copy, Debug, PartialEq, Eq, Structural)]
pub struct EncoderCount {
    value: i32,
}

impl EncoderCount {
    /// The current count.
    pub closed spec fn value(self) -> i32 {
        self.value
    }
}

/// The quadrature decoder of the outside encoder crate. Its phase state is
/// opaque here: which direction a step reports is its business alone.
#[verifier::external_type_specification]
#[verifier::external_body]
pub struct ExStandardMode(rotary_encoder_embedded::standard::StandardMode);

/// Relies on rotary_encoder_embedded::standard::StandardMode::new: a fresh
/// quadrature decoder that has seen no pin edges yet.
#[verifier::external_body]
fn new_decoder() -> rotary_encoder_embedded::standard::StandardMode {
    rotary_encoder_embedded::standard::StandardMode::new()
}

/// Relies on rotary_encoder_embedded::standard::StandardMode::update: one
/// quadrature decode step over the two sampled pin levels. What it reports
/// depends on the decoder's accumulated phase state, so no more exact
/// contract can be stated; `handle_encoder_interrupt` holds whatever it says.
#[verifier::external_body]
fn decode_step(
    decoder: &mut rotary_encoder_embedded::standard::StandardMode,
    dt_value: bool,
    clk_value: bool,
) -> (direction: Direction) {
    match decoder.update(dt_value, clk_value) {
        rotary_encoder_embedded::Direction::Clockwise => Direction::Clockwise,
        rotary_encoder_embedded::Direction::Anticlockwise => Direction::Anticlockwise,
        rotary_encoder_embedded::Direction::None => Direction::NoRotation,
    }
}

/// The count after one decode step: up one detent, down one detent, or
/// unchanged. The counter wraps at the i32 range ends.
pub open spec fn spec_apply(v: i32, direction: Direction) -> i32 {
    match direction {
        Direction::Clockwise => vstd::wrapping::i32_specs::wrapping_add(v, 1),
        Direction::Anticlockwise => vstd::wrapping::i32_specs::wrapping_sub(v, 1),
        Direction::NoRotation => v,
    }
}

/// The count after a whole sequence of decode steps.
pub open spec fn spec_apply_all(v: i32, directions: Seq<Direction>) -> i32
    decreases directions.len(),
{
    if directions.len() == 0 {
        v
    } else {
        spec_apply_all(spec_apply(v, directions.first()), directions.drop_first())
    }
}

/// How many entries of the sequence equal the given direction.
pub open spec fn count_direction(directions: Seq<Direction>, direction: Direction) -> nat
    decreases directions.len(),
{
    if directions.len() == 0 {
        0
    } else {
        count_direction(directions.drop_first(), direction) + if directions.first()
            == direction {
            1nat
        } else {
            0nat
        }
    }
}

/// What `get` returns.
pub open spec fn spec_get(count: EncoderCount) -> i32 {
    count.value()
}

/// What the counter is after `reset`.
pub closed spec fn spec_reset(count: EncoderCount) -> EncoderCount {
    EncoderCount { value: 0 }
}

/// A zeroed counter and a fresh decoder for the two encoder pins; the caller
/// arms both pins for edge interrupts and stores all of it in the shared
/// interrupt state.
pub fn init_encoder() -> (r: (EncoderCount, rotary_encoder_embedded::standard::StandardMode))
    ensures
        r.0.value() == 0,
{
    (EncoderCount { value: 0 }, new_decoder())
}

/// Non-blocking read of the current count.
pub fn get(count: &EncoderCount) -> (v: i32)
    ensures
        v == spec_get(*count),
{
    count.value
}

/// Non-blocking overwrite of the count.
pub fn set(count: &mut EncoderCount, v: i32)
    ensures
        final(count).value() == v,
{
    count.value = v;
}

/// Reset the count to zero.
pub fn reset(count: &mut EncoderCount)
    ensures
        *final(count) == spec_reset(*old(count)),
        final(count).value() == 0,
{
    set(count, 0);
}

/// Step the counter by one decode result.
pub fn apply_direction(count: &mut EncoderCount, direction: Direction)
    ensures
        final(count).value() == spec_apply(old(count).value(), direction),
{
    match direction {
        Direction::Clockwise => {
            count.value = count.value.wrapping_add(1);
        },
        Direction::Anticlockwise => {
            count.value = count.value.wrapping_sub(1);
        },
        Direction::NoRotation => {},
    }
}

/// The pin-edge interrupt body, after the pending flag is cleared: run one
/// decode step on the sampled pin levels and step the counter by whatever
/// direction the decoder reported.
pub fn handle_encoder_interrupt(
    count: &mut EncoderCount,
    decoder: &mut rotary_encoder_embedded::standard::StandardMode,
    dt_value: bool,
    clk_value: bool,
)
    ensures
        exists|d: Direction| final(count).value() == #[trigger] spec_apply(
            old(count).value(),
            d,
        ),
{
    let direction = decode_step(decoder, dt_value, clk_value);
    apply_direction(count, direction);
}

/// A decode-step sequence with no complete detent leaves the count unchanged.
pub proof fn lemma_no_detent_keeps_count(v: i32, directions: Seq<Direction>)
    requires
        count_direction(directions, Direction::Clockwise) == 0,
        count_direction(directions, Direction::Anticlockwise) == 0,
    ensures
        spec_apply_all(v, directions) == v,
    decreases directions.len(),
{
    if directions.len() > 0 {
        assert(directions.first() == Direction::NoRotation);
        lemma_no_detent_keeps_count(v, directions.drop_first());
    }
}

/// One full clockwise detent — a decode-step sequence the decoder classifies
/// as exactly one clockwise step and no counter-clockwise one — raises the
/// count by exactly 1 (stated away from the wrap at i32::MAX).
pub proof fn lemma_one_clockwise_detent(v: i32, directions: Seq<Direction>)
    requires
        count_direction(directions, Direction::Clockwise) == 1,
        count_direction(directions, Direction::Anticlockwise) == 0,
        v < i32::MAX,
    ensures
        spec_apply_all(v, directions) == v + 1,
    decreases directions.len(),
{
    let first = directions.first();
    if first == Direction::Clockwise {
        lemma_no_detent_keeps_count((v + 1) as i32, directions.drop_first());
    } else {
        assert(first == Direction::NoRotation);
        lemma_one_clockwise_detent(v, directions.drop_first());
    }
}

/// One full counter-clockwise detent lowers the count by exactly 1 (stated
/// away from the wrap at i32::MIN).
pub proof fn lemma_one_anticlockwise_detent(v: i32, directions: Seq<Direction>)
    requires
        count_direction(directions, Direction::Anticlockwise) == 1,
        count_direction(directions, Direction::Clockwise) == 0,
        v > i32::MIN,
    ensures
        spec_apply_all(v, directions) == v - 1,
    decreases directions.len(),
{
    let first = directions.first();
    if first == Direction::Anticlockwise {
        lemma_no_detent_keeps_count((v - 1) as i32, directions.drop_first());
    } else {
        assert(first == Direction::NoRotation);
        lemma_one_anticlockwise_detent(v, directions.drop_first());
    }
}

/// Resetting and then reading gives 0, whatever the count was before.
pub proof fn lemma_reset_then_get(count: EncoderCount)
    ensures
        spec_get(spec_reset(count)) == 0,
{
}

} // verus!
