//! A focus-timer firmware core: a monotonic millisecond clock fed by a
//! periodic timer interrupt, a signed rotation counter fed by quadrature
//! decode steps from pin-edge interrupts, a character-LCD command encoder,
//! and the application state machine that polls both and drives the display.
//!
//! Everything here is pure logic over plain values; the hardware (pins,
//! timers, the interrupt controller, the quadrature decoder) lives outside
//! and exchanges plain values with these modules.
pub mod custom_characters;
pub mod encoder_interface;
pub mod lcd1602;
pub mod millis;
pub mod state_machine;
pub mod text_format;
