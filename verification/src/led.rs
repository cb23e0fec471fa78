//! SNLED27351 LED driver core: brightness scaling, gamma correction,
//! and the register writes that set LED colors and initialize a chip.
//!
//! The SPI transfers and chip-select handling stay with the caller;
//! this module computes exactly which bytes go to which register page.

use vstd::prelude::*;
use vstd::arithmetic::div_mod::{lemma_div_by_multiple, lemma_div_is_ordered};
use vstd::arithmetic::mul::{
    lemma_mul_inequality, lemma_mul_is_commutative, lemma_mul_upper_bound,
};

verus! {

/// Command bit for a register write.
pub const WRITE_CMD: u8 = 0;
/// Command pattern bits present in every header byte.
pub const PATTERN_CMD: u8 = 2 << 4;

/// Register page selecting LED on/off control.
pub const PAGE_LED_CONTROL: u8 = 0x00;
/// Register page holding the PWM duty registers.
pub const PAGE_PWM: u8 = 0x01;
/// Register page holding the function registers.
pub const PAGE_FUNCTION: u8 = 0x03;
/// Register page holding the current tune registers.
pub const PAGE_CURRENT_TUNE: u8 = 0x04;

/// Software shutdown register.
pub const REG_SOFTWARE_SHUTDOWN: u8 = 0x00;
/// Shutdown value: driver off.
pub const SOFTWARE_SHUTDOWN_SSD_SHUTDOWN: u8 = 0x00;
/// Shutdown value: normal operation.
pub const SOFTWARE_SHUTDOWN_SSD_NORMAL: u8 = 0x01;
/// Pull-down/pull-up configuration register.
pub const REG_PULLDOWNUP: u8 = 0x13;
/// Pull-down/pull-up value enabling all.
pub const PULLDOWNUP_ALL_ENABLED: u8 = 0xAA;
/// Scan phase register.
pub const REG_SCAN_PHASE: u8 = 0x14;
/// Scan phase value for 12-channel operation.
pub const SCAN_PHASE_12_CHANNEL: u8 = 0x00;
/// First slew rate control register.
pub const REG_SLEW_RATE_CONTROL_MODE_1: u8 = 0x15;
/// Slew rate value enabling phase delay.
pub const SLEW_RATE_CONTROL_MODE_1_PDP_ENABLE: u8 = 1 << 2;
/// Second slew rate control register.
pub const REG_SLEW_RATE_CONTROL_MODE_2: u8 = 0x16;
/// Slew rate value enabling slow slew.
pub const SLEW_RATE_CONTROL_MODE_2_SSL_ENABLE: u8 = 1 << 6;
/// Software sleep register.
pub const REG_SOFTWARE_SLEEP: u8 = 0x1A;
/// Sleep value: sleep disabled.
pub const SOFTWARE_SLEEP_DISABLE: u8 = 0x00;

/// Number of LED control registers per chip.
pub const LED_CONTROL_REGISTER_COUNT: usize = 0x18;
/// Number of PWM registers per chip.
pub const PWM_REGISTER_COUNT: usize = 0xC0;
/// Number of current tune registers per chip.
pub const CURRENT_TUNE_REGISTER_COUNT: usize = 0x0C;
/// Number of SNLED27351 chips chained on the bus.
pub const DRIVER_COUNT: usize = 2;

/// Mapping of an RGB LED to SNLED driver channels.
#[derive(Clone, Copy, Debug, PartialEq, Eq, Structural)]
pub struct SnledLed {
    /// Blue channel register on the driver.
    pub blue: u8,
    /// Index of the driver chip controlling this LED.
    pub driver: u8,
    /// Green channel register on the driver.
    pub green: u8,
    /// Red channel register on the driver.
    pub red: u8,
}

/// One register write: `data` bytes to register `reg` of page `page`
/// on driver chip `driver`.
#[derive(Debug, PartialEq, Eq)]
pub struct RegWrite {
    /// Bytes to write, in order.
    pub data: Vec<u8>,
    /// Index of the driver chip addressed.
    pub driver: u8,
    /// Register page.
    pub page: u8,
    /// First register address.
    pub reg: u8,
}

/// Gamma correction (exponent two): `(v * v + 127) / 255`.
pub open spec fn spec_gamma2(v: int) -> int {
    (v * v + 127) / 255
}

/// Brightness scaling: `(v * brightness + 127) / 255`.
pub open spec fn spec_scale(brightness: int, v: int) -> int {
    (v * brightness + 127) / 255
}

/// The global brightness byte for a percentage: `(min(p, 100) * 255) / 100`.
pub open spec fn spec_percent_brightness(p: int) -> int {
    (if p > 100 {
        100int
    } else {
        p
    }) * 255 / 100
}

/// A channel value after brightness scaling and gamma correction.
pub open spec fn spec_channel(brightness: int, v: int) -> int {
    spec_gamma2(spec_scale(brightness, v))
}

/// Apply a gamma 2.0 correction curve.
pub fn gamma2(value: u8) -> (r: u8)
    ensures
        r as int == spec_gamma2(value as int),
{
    proof {
        lemma_mul_upper_bound(value as int, 255, value as int, 255);
        lemma_mul_inequality(0, value as int, value as int);
    }
    let x: u16 = value as u16;
    let y: u16 = (x * x + 127) / 255;
    y as u8
}

/// The header byte pair of a register write frame: the command and
/// page bits, then the register address.
pub fn write_header(page: u8, reg: u8) -> (h: (u8, u8))
    ensures
        h.0 == (WRITE_CMD | PATTERN_CMD | (page & 0x0F)),
        h.1 == reg,
{
    (WRITE_CMD | PATTERN_CMD | (page & 0x0F), reg)
}

/// A vector of `n` copies of `b`.
fn filled_bytes(n: usize, b: u8) -> (v: Vec<u8>)
    ensures
        v@ == Seq::new(n as nat, |i: int| b),
{
    let mut v: Vec<u8> = Vec::new();
    let mut i: usize = 0;
    while i < n
        invariant
            i <= n,
            v@.len() == i,
            forall|j: int| 0 <= j < i ==> v@[j] == b,
        decreases n - i,
    {
        v.push(b);
        i = i + 1;
    }
    proof {
        assert(v@ =~= Seq::new(n as nat, |i: int| b));
    }
    v
}

/// SNLED27351 control core: the LED map and global brightness, and
/// the register writes each operation produces.
pub struct Snled27351 {
    /// Global brightness applied to all channel values.
    global_brightness: u8,
    /// Mapping of logical LEDs to driver channels.
    leds: Vec<SnledLed>,
}

impl Snled27351 {
    /// Global brightness applied to all channel values.
    pub closed spec fn spec_global_brightness(self) -> u8 {
        self.global_brightness
    }

    /// The LED map.
    pub closed spec fn spec_leds(self) -> Seq<SnledLed> {
        self.leds@
    }

    /// The three PWM writes that set one LED to an already-scaled
    /// color.
    pub open spec fn led_rgb_writes_ok(
        led: SnledLed,
        red: int,
        green: int,
        blue: int,
        w: Seq<RegWrite>,
    ) -> bool {
        &&& w.len() == 3
        &&& w[0].driver == led.driver && w[0].page == PAGE_PWM && w[0].reg == led.red
        &&& w[0].data@ == seq![red as u8]
        &&& w[1].driver == led.driver && w[1].page == PAGE_PWM && w[1].reg == led.green
        &&& w[1].data@ == seq![green as u8]
        &&& w[2].driver == led.driver && w[2].page == PAGE_PWM && w[2].reg == led.blue
        &&& w[2].data@ == seq![blue as u8]
    }

    /// Create a driver core with full global brightness.
    pub fn new(leds: Vec<SnledLed>) -> (d: Self)
        ensures
            d.spec_global_brightness() == 255u8,
            d.spec_leds() == leds@,
    {
        Snled27351 { global_brightness: 255, leds }
    }

    /// Number of LEDs in the map.
    pub fn led_count(&self) -> (n: usize)
        ensures
            n == self.spec_leds().len(),
    {
        self.leds.len()
    }

    /// Scale a channel value by the global brightness.
    pub fn scale(&self, value: u8) -> (r: u8)
        ensures
            r as int == spec_scale(self.spec_global_brightness() as int, value as int),
    {
        proof {
            lemma_mul_upper_bound(value as int, 255, self.global_brightness as int, 255);
            lemma_mul_inequality(0, value as int, self.global_brightness as int);
        }
        let p: u32 = (value as u32) * (self.global_brightness as u32);
        let y: u32 = (p + 127) / 255;
        y as u8
    }

    /// Apply brightness scaling and gamma correction to a color.
    pub fn scaled_rgb(&self, red: u8, green: u8, blue: u8) -> (rgb: (u8, u8, u8))
        ensures
            rgb.0 as int == spec_channel(self.spec_global_brightness() as int, red as int),
            rgb.1 as int == spec_channel(self.spec_global_brightness() as int, green as int),
            rgb.2 as int == spec_channel(self.spec_global_brightness() as int, blue as int),
    {
        (gamma2(self.scale(red)), gamma2(self.scale(green)), gamma2(self.scale(blue)))
    }

    /// Set the global brightness as a percentage of full scale.
    pub fn set_global_brightness_percent(&mut self, percent: u8)
        ensures
            final(self).spec_leds() == old(self).spec_leds(),
            final(self).spec_global_brightness() as int == spec_percent_brightness(percent as int),
    {
        let p: u16 = if percent > 100 {
            100
        } else {
            percent as u16
        };
        let b: u16 = p * 255 / 100;
        self.global_brightness = b as u8;
    }

    /// Prepare an RGB value for a given brightness percentage: the
    /// global brightness takes the percentage, and the color is scaled
    /// and gamma-corrected under it.
    pub fn prepare_color(&mut self, red: u8, green: u8, blue: u8, brightness: u8) -> (rgb: (
        u8,
        u8,
        u8,
    ))
        ensures
            final(self).spec_leds() == old(self).spec_leds(),
            final(self).spec_global_brightness() as int == spec_percent_brightness(
                brightness as int,
            ),
            rgb.0 as int == spec_channel(final(self).spec_global_brightness() as int, red as int),
            rgb.1 as int == spec_channel(final(self).spec_global_brightness() as int, green as int),
            rgb.2 as int == spec_channel(final(self).spec_global_brightness() as int, blue as int),
    {
        let clamped = if brightness > 100 {
            100
        } else {
            brightness
        };
        self.set_global_brightness_percent(clamped);
        self.scaled_rgb(red, green, blue)
    }

    /// The register writes that set one LED by index to a color at a
    /// brightness percentage.  An index outside the map changes
    /// nothing and writes nothing.
    pub fn set_color(&mut self, led_index: usize, red: u8, green: u8, blue: u8, brightness: u8)
        -> (w: Vec<RegWrite>)
        ensures
            final(self).spec_leds() == old(self).spec_leds(),
            led_index >= old(self).spec_leds().len() ==> w@.len() == 0 && *final(self) == *old(
                self,
            ),
            led_index < old(self).spec_leds().len() ==> {
                &&& final(self).spec_global_brightness() as int == spec_percent_brightness(
                    brightness as int,
                )
                &&& Snled27351::led_rgb_writes_ok(
                    old(self).spec_leds()[led_index as int],
                    spec_channel(final(self).spec_global_brightness() as int, red as int),
                    spec_channel(final(self).spec_global_brightness() as int, green as int),
                    spec_channel(final(self).spec_global_brightness() as int, blue as int),
                    w@,
                )
            },
    {
        if led_index >= self.leds.len() {
            return Vec::new();
        }
        let led: SnledLed = *self.leds.get(led_index).unwrap();
        let rgb = self.prepare_color(red, green, blue, brightness);
        led_rgb_writes(led, rgb.0, rgb.1, rgb.2)
    }

    /// The register writes that set every LED in the map to one color
    /// at a brightness percentage, in map order.
    pub fn set_color_all(&mut self, red: u8, green: u8, blue: u8, brightness: u8) -> (w: Vec<
        RegWrite,
    >)
        ensures
            final(self).spec_leds() == old(self).spec_leds(),
            old(self).spec_leds().len() == 0 ==> w@.len() == 0 && *final(self) == *old(self),
            old(self).spec_leds().len() > 0 ==> {
                &&& final(self).spec_global_brightness() as int == spec_percent_brightness(
                    brightness as int,
                )
                &&& w@.len() == 3 * old(self).spec_leds().len()
                &&& forall|i: int|
                    0 <= i < old(self).spec_leds().len()
                        ==> Snled27351::led_rgb_writes_ok(
                        old(self).spec_leds()[i],
                        spec_channel(final(self).spec_global_brightness() as int, red as int),
                        spec_channel(final(self).spec_global_brightness() as int, green as int),
                        spec_channel(final(self).spec_global_brightness() as int, blue as int),
                        #[trigger] w@.subrange(3 * i, 3 * i + 3),
                    )
            },
    {
        if self.leds.len() == 0 {
            return Vec::new();
        }
        let clamped = if brightness > 100 {
            100
        } else {
            brightness
        };
        let rgb = self.prepare_color(red, green, blue, clamped);
        let mut w: Vec<RegWrite> = Vec::new();
        let n = self.leds.len();
        let mut i: usize = 0;
        while i < n
            invariant
                i <= n,
                n == self.spec_leds().len(),
                w@.len() == 3 * i,
                forall|k: int|
                    0 <= k < i ==> Snled27351::led_rgb_writes_ok(
                        self.spec_leds()[k],
                        rgb.0 as int,
                        rgb.1 as int,
                        rgb.2 as int,
                        #[trigger] w@.subrange(3 * k, 3 * k + 3),
                    ),
            decreases n - i,
        {
            let led: SnledLed = *self.leds.get(i).unwrap();
            let ghost w_before = w@;
            let mut triple = led_rgb_writes(led, rgb.0, rgb.1, rgb.2);
            w.append(&mut triple);
            proof {
                assert forall|k: int| 0 <= k < i + 1 implies Snled27351::led_rgb_writes_ok(
                    self.spec_leds()[k],
                    rgb.0 as int,
                    rgb.1 as int,
                    rgb.2 as int,
                    #[trigger] w@.subrange(3 * k, 3 * k + 3),
                ) by {
                    if k < i {
                        assert(w@.subrange(3 * k, 3 * k + 3) =~= w_before.subrange(
                            3 * k,
                            3 * k + 3,
                        ));
                    } else {
                        assert(w@.subrange(3 * k, 3 * k + 3) =~= w@.subrange(
                            w_before.len() as int,
                            w@.len() as int,
                        ));
                    }
                }
            }
            i = i + 1;
        }
        w
    }

    /// The delay per soft-start step and the brightness percentages of
    /// the ramp, from zero up to the target, one per step.
    pub fn softstart_plan(brightness: u8, steps: u8, ramp_time_ms: u32) -> (plan: (u64, Vec<u8>))
        ensures
            plan.0 as int == spec_softstart_delay(ramp_time_ms as int, spec_ramp_steps(steps as int)),
            plan.1@.len() == spec_ramp_steps(steps as int) + 1,
            forall|i: int|
                0 <= i <= spec_ramp_steps(steps as int) ==> #[trigger] plan.1@[i] as int == (
                spec_clamp_percent(brightness as int) * i) / spec_ramp_steps(steps as int),
    {
        let target: u32 = if brightness > 100 {
            100
        } else {
            brightness as u32
        };
        let s: u32 = if steps >= 1 {
            steps as u32
        } else {
            1
        };
        let q: u32 = ramp_time_ms / s;
        let delay_ms: u64 = if q > 0 {
            q as u64
        } else {
            1
        };
        let mut levels: Vec<u8> = Vec::new();
        let mut step: u32 = 0;
        while step <= s
            invariant
                step <= s + 1,
                s >= 1,
                s <= 255,
                target <= 100,
                levels@.len() == step,
                forall|i: int|
                    0 <= i < step ==> #[trigger] levels@[i] as int == (target as int * i) / s as int,
            decreases s - step + 1,
        {
            proof {
                lemma_mul_upper_bound(target as int, 100, step as int, 255);
                lemma_mul_inequality(0, target as int, step as int);
                lemma_mul_is_commutative(target as int, step as int);
                lemma_mul_inequality(step as int, s as int, target as int);
                lemma_mul_is_commutative(s as int, target as int);
                lemma_div_is_ordered(
                    target as int * step as int,
                    target as int * s as int,
                    s as int,
                );
                lemma_div_by_multiple(target as int, s as int);
            }
            let percent: u32 = (target * step) / s;
            proof {
                assert(percent <= 100);
            }
            levels.push(percent as u8);
            step = step + 1;
        }
        (delay_ms, levels)
    }

    /// The register writes that initialize one driver chip: leave
    /// shutdown, configure scanning and slew rate, enable every LED
    /// control bit, zero all PWM duties, set the current tune, and
    /// return to normal operation.
    pub fn init_driver_writes(index: u8, chip_current_tune: u8) -> (w: Vec<RegWrite>)
        ensures
            w@.len() == 10,
            forall|i: int| 0 <= i < 10 ==> #[trigger] w@[i].driver == index,
            w@[0].page == PAGE_FUNCTION && w@[0].reg == REG_SOFTWARE_SHUTDOWN && w@[0].data@
                == seq![SOFTWARE_SHUTDOWN_SSD_SHUTDOWN],
            w@[1].page == PAGE_FUNCTION && w@[1].reg == REG_PULLDOWNUP && w@[1].data@
                == seq![PULLDOWNUP_ALL_ENABLED],
            w@[2].page == PAGE_FUNCTION && w@[2].reg == REG_SCAN_PHASE && w@[2].data@
                == seq![SCAN_PHASE_12_CHANNEL],
            w@[3].page == PAGE_FUNCTION && w@[3].reg == REG_SLEW_RATE_CONTROL_MODE_1 && w@[3].data@
                == seq![SLEW_RATE_CONTROL_MODE_1_PDP_ENABLE],
            w@[4].page == PAGE_FUNCTION && w@[4].reg == REG_SLEW_RATE_CONTROL_MODE_2 && w@[4].data@
                == seq![SLEW_RATE_CONTROL_MODE_2_SSL_ENABLE],
            w@[5].page == PAGE_FUNCTION && w@[5].reg == REG_SOFTWARE_SLEEP && w@[5].data@
                == seq![SOFTWARE_SLEEP_DISABLE],
            w@[6].page == PAGE_LED_CONTROL && w@[6].reg == 0u8 && w@[6].data@ == Seq::new(
                LED_CONTROL_REGISTER_COUNT as nat,
                |i: int| 0xFFu8,
            ),
            w@[7].page == PAGE_PWM && w@[7].reg == 0u8 && w@[7].data@ == Seq::new(
                PWM_REGISTER_COUNT as nat,
                |i: int| 0u8,
            ),
            w@[8].page == PAGE_CURRENT_TUNE && w@[8].reg == 0u8 && w@[8].data@ == Seq::new(
                CURRENT_TUNE_REGISTER_COUNT as nat,
                |i: int| chip_current_tune,
            ),
            w@[9].page == PAGE_FUNCTION && w@[9].reg == REG_SOFTWARE_SHUTDOWN && w@[9].data@
                == seq![SOFTWARE_SHUTDOWN_SSD_NORMAL],
    {
        let mut w: Vec<RegWrite> = Vec::new();
        w.push(single_write(index, PAGE_FUNCTION, REG_SOFTWARE_SHUTDOWN, SOFTWARE_SHUTDOWN_SSD_SHUTDOWN));
        w.push(single_write(index, PAGE_FUNCTION, REG_PULLDOWNUP, PULLDOWNUP_ALL_ENABLED));
        w.push(single_write(index, PAGE_FUNCTION, REG_SCAN_PHASE, SCAN_PHASE_12_CHANNEL));
        w.push(single_write(index, PAGE_FUNCTION, REG_SLEW_RATE_CONTROL_MODE_1, SLEW_RATE_CONTROL_MODE_1_PDP_ENABLE));
        w.push(single_write(index, PAGE_FUNCTION, REG_SLEW_RATE_CONTROL_MODE_2, SLEW_RATE_CONTROL_MODE_2_SSL_ENABLE));
        w.push(single_write(index, PAGE_FUNCTION, REG_SOFTWARE_SLEEP, SOFTWARE_SLEEP_DISABLE));
        w.push(RegWrite {
            data: filled_bytes(LED_CONTROL_REGISTER_COUNT, 0xFF),
            driver: index,
            page: PAGE_LED_CONTROL,
            reg: 0,
        });
        w.push(RegWrite {
            data: filled_bytes(PWM_REGISTER_COUNT, 0),
            driver: index,
            page: PAGE_PWM,
            reg: 0,
        });
        w.push(RegWrite {
            data: filled_bytes(CURRENT_TUNE_REGISTER_COUNT, chip_current_tune),
            driver: index,
            page: PAGE_CURRENT_TUNE,
            reg: 0,
        });
        w.push(single_write(index, PAGE_FUNCTION, REG_SOFTWARE_SHUTDOWN, SOFTWARE_SHUTDOWN_SSD_NORMAL));
        w
    }
}

/// Steps of the soft-start ramp: at least one.
pub open spec fn spec_ramp_steps(steps: int) -> int {
    if steps >= 1 {
        steps
    } else {
        1
    }
}

/// A brightness percentage clamped to 100.
pub open spec fn spec_clamp_percent(p: int) -> int {
    if p > 100 {
        100
    } else {
        p
    }
}

/// The delay per soft-start step: the ramp time split over the steps,
/// at least one millisecond.
pub open spec fn spec_softstart_delay(ramp_time_ms: int, steps: int) -> int {
    if ramp_time_ms / steps > 0 {
        ramp_time_ms / steps
    } else {
        1
    }
}

/// One single-byte register write.
fn single_write(driver: u8, page: u8, reg: u8, value: u8) -> (w: RegWrite)
    ensures
        w.driver == driver,
        w.page == page,
        w.reg == reg,
        w.data@ == seq![value],
{
    let mut data: Vec<u8> = Vec::new();
    data.push(value);
    proof {
        assert(data@ =~= seq![value]);
    }
    RegWrite { data, driver, page, reg }
}

/// The register writes that set one LED to an already-scaled color.
fn led_rgb_writes(led: SnledLed, red: u8, green: u8, blue: u8) -> (w: Vec<RegWrite>)
    ensures
        Snled27351::led_rgb_writes_ok(led, red as int, green as int, blue as int, w@),
{
    let mut w: Vec<RegWrite> = Vec::new();
    w.push(single_write(led.driver, PAGE_PWM, led.red, red));
    w.push(single_write(led.driver, PAGE_PWM, led.green, green));
    w.push(single_write(led.driver, PAGE_PWM, led.blue, blue));
    w
}

} // verus!
