//! Device variants and the continuous addressing of daisy-chained chips.

use vstd::prelude::*;

use crate::address::Address;

verus! {

/// Supported Texas Instruments LP50xx models.
#[derive(Clone, Copy, Debug, PartialEq, Eq, Structural)]
pub enum Model {
    /// 9 pin controller
    LP5009,
    /// 12 pin controller
    LP5012,
}

/// Number of LED outputs of a model.
pub open spec fn pin_count(model: Model) -> nat {
    match model {
        Model::LP5009 => 9,
        Model::LP5012 => 12,
    }
}

impl Model {
    /// The pin count of the model.
    pub fn get_pin_count(&self) -> (r: u8)
        ensures
            r == pin_count(*self),
    {
        match *self {
            Model::LP5009 => 9,
            Model::LP5012 => 12,
        }
    }
}

/// Which chip of a chain (counted from 0) drives the 1-based LED `led`, when
/// each chip has `n` outputs and the chain has at most three chips.
pub open spec fn chip_offset(led: int, n: int) -> int {
    if led <= n {
        0
    } else if led <= 2 * n {
        1
    } else {
        2
    }
}

/// The chip offset for the given 1-based LED index and model: LEDs `1..=n`
/// are on the first chip, `n+1..=2n` on the second, the rest on the third.
pub fn get_led_address_offset(led_index: u8, model: Model) -> (r: u8)
    ensures
        r == chip_offset(led_index as int, pin_count(model) as int),
        led_index <= pin_count(model) ==> r == 0,
        pin_count(model) < led_index <= 2 * pin_count(model) ==> r == 1,
        2 * pin_count(model) < led_index ==> r == 2,
{
    let length = model.get_pin_count();
    if led_index <= length {
        return 0;
    }
    if led_index <= length * 2 {
        return 1;
    }
    2
}

/// Chip address and 1-based pin of an LED, as the driver resolves them: with
/// continuous addressing the flat index is split over the chain; otherwise
/// the active address is used and the index is the pin.
pub open spec fn resolved_led(led: u8, model: Model, continuous: bool, active: Address) -> (
    Address,
    int,
) {
    if continuous {
        let offset = chip_offset(led as int, pin_count(model) as int);
        (Address::Independent(offset as u8), led - offset * pin_count(model))
    } else {
        (active, led as int)
    }
}

/// Resolves a 1-based LED index into the chip address and the 1-based pin
/// on that chip.
pub fn resolve_led(led: u8, model: Model, continuous: bool, active: Address) -> (r: (Address, u8))
    requires
        led >= 1,
        !continuous ==> led <= pin_count(model),
    ensures
        r.0 == resolved_led(led, model, continuous, active).0,
        r.1 == resolved_led(led, model, continuous, active).1,
        1 <= r.1,
        !continuous ==> r.1 <= pin_count(model),
        continuous ==> r.0.is_valid(),
{
    if continuous {
        let offset = get_led_address_offset(led, model);
        let pin = led - offset * model.get_pin_count();
        (Address::Independent(offset), pin)
    } else {
        (active, led)
    }
}

} // verus!
