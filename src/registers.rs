//! Register map of the LP50xx and the packing of the configuration byte.

use vstd::prelude::*;

verus! {

/// DEVICE_CONFIG0: holds the chip enable bit.
pub const DEVICE_CONFIG0: u8 = 0x00;

/// DEVICE_CONFIG1: the global configuration bits.
pub const DEVICE_CONFIG1: u8 = 0x01;

/// First LED_BRIGHTNESS register; one per RGB channel.
pub const LED_BRIGHTNESS_BASE: u8 = 0x07;

/// First OUT_COLOR register; one per output pin, three per RGB channel.
pub const OUT_COLOR_BASE: u8 = 0x0B;

/// RESET register.
pub const RESET: u8 = 0x17;

/// Value that, written to RESET, restores the power-on defaults.
pub const RESET_VALUE: u8 = 0xFF;

/// Chip enable bit of DEVICE_CONFIG0.
pub const CHIP_EN: u8 = 0b01000000;

/// Weight of a flag whose bit has weight `weight`: the weight where the flag
/// is set, else 0.
pub open spec fn flag_bit(flag: bool, weight: int) -> int {
    if flag {
        weight
    } else {
        0
    }
}

/// The DEVICE_CONFIG1 byte: log_scale at bit 5, power_save at bit 4,
/// auto_incr at bit 3, pwm_dithering at bit 2, max_current_option at bit 1,
/// global_off at bit 0.
pub open spec fn config_byte(
    log_scale: bool,
    power_save: bool,
    auto_incr: bool,
    pwm_dithering: bool,
    max_current_option: bool,
    global_off: bool,
) -> int {
    flag_bit(log_scale, 32) + flag_bit(power_save, 16) + flag_bit(auto_incr, 8) + flag_bit(
        pwm_dithering,
        4,
    ) + flag_bit(max_current_option, 2) + flag_bit(global_off, 1)
}

/// Packs the six configuration flags into the DEVICE_CONFIG1 byte.
pub fn config_value(
    log_scale: bool,
    power_save: bool,
    auto_incr: bool,
    pwm_dithering: bool,
    max_current_option: bool,
    global_off: bool,
) -> (r: u8)
    ensures
        r == config_byte(
            log_scale,
            power_save,
            auto_incr,
            pwm_dithering,
            max_current_option,
            global_off,
        ),
{
    let mut value: u8 = 0;
    if log_scale {
        value = value + 32;
    }
    if power_save {
        value = value + 16;
    }
    if auto_incr {
        value = value + 8;
    }
    if pwm_dithering {
        value = value + 4;
    }
    if max_current_option {
        value = value + 2;
    }
    if global_off {
        value = value + 1;
    }
    value
}

} // verus!
