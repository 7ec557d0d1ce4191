//! The mode-typed driver logic: addressing settings, lifecycle plans and
//! channel plans.

use vstd::prelude::*;

use core::marker::PhantomData;

use crate::address::Address;
use crate::mode::{ColorMode, DefaultMode, MonochromaticMode};
use crate::model::{Model, pin_count, resolve_led, resolved_led};
use crate::registers::{
    config_byte,
    config_value,
    CHIP_EN,
    DEVICE_CONFIG0,
    DEVICE_CONFIG1,
    LED_BRIGHTNESS_BASE,
    OUT_COLOR_BASE,
    RESET,
    RESET_VALUE,
};
use crate::error::Error;
use crate::session::{Step, StepView, plan_view, settled};

verus! {

/// Brightness factor that stands for 100%, in thousandths.
pub const FULL_BRIGHTNESS: u16 = 1000;

/// Smallest brightness factor, 1%, in thousandths.
pub const MIN_BRIGHTNESS: u16 = 10;

/// The settings of a driver.
pub ghost struct ControllerView {
    /// Whether LED indices run on over daisy-chained chips.
    pub continuous_addressing: bool,
    /// The chip that channel operations address when continuous addressing
    /// is off.
    pub active_address: Address,
    /// The device variant.
    pub model: Model,
    /// Brightness factor of the monochromatic mode, in thousandths.
    pub brightness_factor: nat,
}

/// The brightness factor in thousandths, clamped into 1%..=100%.
pub open spec fn clamped_factor(permille: int) -> nat {
    if permille < MIN_BRIGHTNESS {
        MIN_BRIGHTNESS as nat
    } else if permille > FULL_BRIGHTNESS {
        FULL_BRIGHTNESS as nat
    } else {
        permille as nat
    }
}

/// `value` scaled by `factor` thousandths, rounded to the nearest integer
/// (halves up).
pub open spec fn scaled_value(value: int, factor: int) -> int {
    (value * factor + 500) / 1000
}

/// Frames that set RGB channel `channel` (1-based): its brightness, then its
/// three colours.
pub open spec fn color_plan(address: Address, channel: int, brightness: u8, rgb: Seq<u8>) -> Seq<
    StepView,
> {
    let i = channel - 1;
    seq![
        StepView::Write(address, seq![(LED_BRIGHTNESS_BASE + i) as u8, brightness]),
        StepView::Write(address, seq![(OUT_COLOR_BASE + 3 * i) as u8, rgb[0], rgb[1], rgb[2]]),
    ]
}

/// The frame that sets LED `led` (1-based) to `value` under the settings `c`.
pub open spec fn mono_plan(c: ControllerView, led: u8, value: u8) -> Seq<StepView> {
    let (address, pin) = resolved_led(led, c.model, c.continuous_addressing, c.active_address);
    seq![
        StepView::Write(
            address,
            seq![
                (OUT_COLOR_BASE + pin - 1) as u8,
                scaled_value(value as int, c.brightness_factor as int) as u8,
            ],
        ),
    ]
}

/// Reset: the reset frame to all chips, then a pulse on the enable line.
pub open spec fn reset_plan() -> Seq<StepView> {
    seq![
        StepView::Write(Address::Broadcast, seq![RESET, RESET_VALUE]),
        StepView::DelayMs(1),
        StepView::EnableLow,
        StepView::DelayMs(10),
        StepView::EnableHigh,
        StepView::DelayMs(10),
    ]
}

/// Enable: a pulse on the enable line, then the chip enable bit to all chips.
pub open spec fn enable_plan() -> Seq<StepView> {
    seq![
        StepView::EnableLow,
        StepView::DelayMs(1),
        StepView::EnableHigh,
        StepView::DelayMs(10),
        StepView::Write(Address::Broadcast, seq![DEVICE_CONFIG0, CHIP_EN]),
    ]
}

/// The driver logic of an LP5009 or LP5012 (or a chain of them), typed by its
/// display mode.
pub struct Controller<MODE> {
    continuous_addressing: bool,
    active_address: Address,
    model: Model,
    brightness_factor: u16,
    mode: PhantomData<MODE>,
}

impl<MODE> Controller<MODE> {
    pub closed spec fn view(&self) -> ControllerView {
        ControllerView {
            continuous_addressing: self.continuous_addressing,
            active_address: self.active_address,
            model: self.model,
            brightness_factor: self.brightness_factor as nat,
        }
    }

    #[verifier::type_invariant]
    closed spec fn inv(&self) -> bool {
        MIN_BRIGHTNESS <= self.brightness_factor <= FULL_BRIGHTNESS
    }

    /// Whether continuous addressing is on.
    pub fn continuous_addressing(&self) -> (r: bool)
        ensures
            r == self@.continuous_addressing,
    {
        self.continuous_addressing
    }

    /// The active chip address.
    pub fn active_address(&self) -> (r: Address)
        ensures
            r == self@.active_address,
    {
        self.active_address
    }

    /// The device variant.
    pub fn model(&self) -> (r: Model)
        ensures
            r == self@.model,
    {
        self.model
    }

    /// Switches to color mode, which suits RGB LEDs.
    pub fn into_color_mode(self) -> (r: Controller<ColorMode>)
        ensures
            r@ == (ControllerView { brightness_factor: FULL_BRIGHTNESS as nat, ..self@ }),
    {
        self.into_mode::<ColorMode>()
    }

    /// Switches to monochromatic mode, which suits single-colour LEDs.
    pub fn into_monochromatic_mode(self) -> (r: Controller<MonochromaticMode>)
        ensures
            r@ == (ControllerView { brightness_factor: FULL_BRIGHTNESS as nat, ..self@ }),
    {
        self.into_mode::<MonochromaticMode>()
    }

    fn into_mode<MODE2>(self) -> (r: Controller<MODE2>)
        ensures
            r@ == (ControllerView { brightness_factor: FULL_BRIGHTNESS as nat, ..self@ }),
    {
        Controller {
            continuous_addressing: self.continuous_addressing,
            active_address: self.active_address,
            model: self.model,
            brightness_factor: FULL_BRIGHTNESS,
            mode: PhantomData,
        }
    }

    /// The steps of a reset: the reset frame to all chips, then the enable
    /// line low and high again, with settle delays.
    pub fn reset(&self) -> (r: Vec<Step>)
        ensures
            plan_view(r@) == reset_plan(),
    {
        let r = vec![
            Step::Write(Address::Broadcast, vec![RESET, RESET_VALUE]),
            Step::DelayMs(1),
            Step::EnableLow,
            Step::DelayMs(10),
            Step::EnableHigh,
            Step::DelayMs(10),
        ];
        assert(plan_view(r@) =~= reset_plan());
        r
    }

    /// The steps that bring the chips out of shutdown: the enable line low and
    /// high, then the chip enable bit to all chips. Channel operations need
    /// this to have run first.
    pub fn enable(&self) -> (r: Vec<Step>)
        ensures
            plan_view(r@) == enable_plan(),
    {
        let r = vec![
            Step::EnableLow,
            Step::DelayMs(1),
            Step::EnableHigh,
            Step::DelayMs(10),
            Step::Write(Address::Broadcast, vec![DEVICE_CONFIG0, CHIP_EN]),
        ];
        assert(plan_view(r@) =~= enable_plan());
        r
    }

    /// The step that writes the global configuration to all chips.
    pub fn configure(
        &self,
        log_scale: bool,
        power_save: bool,
        auto_incr: bool,
        pwm_dithering: bool,
        max_current_option: bool,
        global_off: bool,
    ) -> (r: Vec<Step>)
        ensures
            plan_view(r@) == seq![
                StepView::Write(
                    Address::Broadcast,
                    seq![
                        DEVICE_CONFIG1,
                        config_byte(
                            log_scale,
                            power_save,
                            auto_incr,
                            pwm_dithering,
                            max_current_option,
                            global_off,
                        ) as u8,
                    ],
                ),
            ],
    {
        let value = config_value(
            log_scale,
            power_save,
            auto_incr,
            pwm_dithering,
            max_current_option,
            global_off,
        );
        let r = vec![Step::Write(Address::Broadcast, vec![DEVICE_CONFIG1, value])];
        assert(plan_view(r@) =~= seq![
            StepView::Write(Address::Broadcast, seq![DEVICE_CONFIG1, value]),
        ]);
        r
    }
}

impl Controller<DefaultMode> {
    /// Driver logic for the given model: continuous addressing on, the
    /// broadcast address active, full brightness.
    pub fn new(model: Model) -> (r: Controller<DefaultMode>)
        ensures
            r@ == (ControllerView {
                continuous_addressing: true,
                active_address: Address::Broadcast,
                model,
                brightness_factor: FULL_BRIGHTNESS as nat,
            }),
    {
        Controller {
            continuous_addressing: true,
            active_address: Address::Broadcast,
            model,
            brightness_factor: FULL_BRIGHTNESS,
            mode: PhantomData,
        }
    }

    /// Turns continuous addressing on or off.
    pub fn set_continuous_addressing(&mut self, state: bool)
        ensures
            final(self)@ == (ControllerView { continuous_addressing: state, ..old(self)@ }),
    {
        proof {
            use_type_invariant(&*self);
        }
        self.continuous_addressing = state;
    }

    /// Sets the chip that channel operations address while continuous
    /// addressing is off: Broadcast, or a strapped selector 0b00 to 0b11.
    pub fn set_active_address(&mut self, address: Address)
        ensures
            final(self)@ == (ControllerView { active_address: address, ..old(self)@ }),
    {
        proof {
            use_type_invariant(&*self);
        }
        self.active_address = address;
    }
}

impl Controller<ColorMode> {
    /// The steps that set RGB channel `channel` (1-based): its brightness,
    /// then its red, green and blue values, both to the active address.
    pub fn set(&self, channel: u8, value: (u8, [u8; 3])) -> (r: Vec<Step>)
        requires
            1 <= channel,
            OUT_COLOR_BASE + 3 * (channel - 1) <= u8::MAX,
        ensures
            plan_view(r@) == color_plan(self@.active_address, channel as int, value.0, value.1@),
    {
        let (brightness, rgb) = value;
        let i = channel - 1;
        let bright_addr = LED_BRIGHTNESS_BASE + i;
        let color_addr = OUT_COLOR_BASE + i * 3;
        let r = vec![
            Step::Write(self.active_address, vec![bright_addr, brightness]),
            Step::Write(self.active_address, vec![color_addr, rgb[0], rgb[1], rgb[2]]),
        ];
        assert(plan_view(r@) =~= color_plan(self@.active_address, channel as int, brightness, rgb@));
        r
    }
}

impl Controller<MonochromaticMode> {
    /// Sets the brightness factor that dims every output, in thousandths:
    /// at most 1000 (100%), at least 10 (1%).
    pub fn set_brightness_factor(&mut self, factor: u16)
        ensures
            final(self)@ == (ControllerView {
                brightness_factor: clamped_factor(factor as int),
                ..old(self)@
            }),
    {
        let clamped = if factor < MIN_BRIGHTNESS {
            MIN_BRIGHTNESS
        } else if factor > FULL_BRIGHTNESS {
            FULL_BRIGHTNESS
        } else {
            factor
        };
        self.brightness_factor = clamped;
    }

    /// The brightness factor, in thousandths.
    pub fn brightness_factor(&self) -> (r: u16)
        ensures
            r == self@.brightness_factor,
            MIN_BRIGHTNESS <= r <= FULL_BRIGHTNESS,
    {
        proof {
            use_type_invariant(self);
        }
        self.brightness_factor
    }

    /// The step that sets LED `led` (1-based) to `value` scaled by the
    /// brightness factor, at the chip that the LED resolves to.
    pub fn set(&self, led: u8, value: u8) -> (r: Vec<Step>)
        requires
            1 <= led,
            !self@.continuous_addressing ==> led <= pin_count(self@.model),
        ensures
            plan_view(r@) == mono_plan(self@, led, value),
    {
        proof {
            use_type_invariant(self);
        }
        let (address, pin) = resolve_led(
            led,
            self.model,
            self.continuous_addressing,
            self.active_address,
        );
        let factor = self.brightness_factor as u32;
        assert(value as u32 * factor <= 255 * 1000) by (nonlinear_arith)
            requires
                factor <= 1000,
        ;
        let scaled = ((value as u32 * factor + 500) / 1000) as u8;
        let r = vec![Step::Write(address, vec![OUT_COLOR_BASE + (pin - 1), scaled])];
        assert(plan_view(r@) =~= mono_plan(self@, led, value));
        r
    }
}

/// With neither a blocking bus nor a callback configured, setting a channel
/// (in color mode) or an LED (in monochromatic mode) fails with
/// `NoInterfaceDefined` before any step is handed out.
pub proof fn lemma_set_without_transport(
    c: ControllerView,
    channel: int,
    brightness: u8,
    rgb: Seq<u8>,
    led: u8,
    value: u8,
)
    requires
        rgb.len() == 3,
    ensures
        ({
            let run = settled(color_plan(c.active_address, channel, brightness, rgb), false, 0);
            run.finished() && run.next == 0 && run.result() == Err::<(), Error>(
                Error::NoInterfaceDefined,
            )
        }),
        ({
            let run = settled(mono_plan(c, led, value), false, 0);
            run.finished() && run.next == 0 && run.result() == Err::<(), Error>(
                Error::NoInterfaceDefined,
            )
        }),
{
}

} // verus!
