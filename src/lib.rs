//! Driver logic for the Texas Instruments LP5009 / LP5012 LED controllers.
//!
//! The library decides which register frames go to which chip address; the
//! bus transactions, the enable line and the delays are performed by the
//! caller, step by step, through a [`Session`].

mod address;
mod controller;
mod error;
mod mode;
mod model;
mod registers;
mod session;

pub use address::{
    address_byte, lemma_address_encoding, Address, BROADCAST_ADDRESS, INDEPENDENT_BASE,
};
pub use controller::{
    clamped_factor, color_plan, enable_plan, lemma_set_without_transport, mono_plan, reset_plan,
    scaled_value, Controller, ControllerView, FULL_BRIGHTNESS, MIN_BRIGHTNESS,
};
pub use error::Error;
pub use mode::{ColorMode, DefaultMode, MonochromaticMode};
pub use model::{
    chip_offset, get_led_address_offset, pin_count, resolve_led, resolved_led, Model,
};
pub use registers::{
    config_byte, config_value, flag_bit, CHIP_EN, DEVICE_CONFIG0, DEVICE_CONFIG1,
    LED_BRIGHTNESS_BASE, OUT_COLOR_BASE, RESET, RESET_VALUE,
};
pub use session::{fault_of, plan_view, settled, Session, SessionView, Step, StepView};
