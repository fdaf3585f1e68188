//! Reset and clock control: the clock tree and the peripheral clock gates.

use vstd::prelude::*;

pub mod flags;
pub mod clock;
pub mod bring_up;
pub mod plan;
pub mod steps;

pub use self::flags::{CFGR_HPrescaler, CFGR_PPrescaler1, CFGR_PPrescaler2};
use self::flags::{CR_HSERDY, CR_HSIRDY};
pub use self::clock::{Bus, Clock};
pub use self::bring_up::{bring_up_outcome, system_init, Outcome};
pub use self::plan::ClockPlan;
pub use self::steps::{ClockBringUp, Phase, Progress, Step};

use crate::chip::Chip;
use crate::ErrorKind;
use crate::peripheral::{lemma_single_setting, InitError, Peripheral, Setting};
use crate::registers::{all_set, lemma_update_twice, update, update_bits};

verus! {

/// Frequency of the internal high-speed oscillator
pub const HSI_FREQUENCY: u32 = 16_000_000;

/// Lowest frequency accepted from an external oscillator
pub const HSE_MIN: u32 = 4_000_000;

/// Highest frequency accepted from an external oscillator
pub const HSE_MAX: u32 = 26_000_000;

/// Lowest frequency accepted at the input of the PLL
pub const PLL_INPUT_MIN: u32 = 1_000_000;

/// Highest frequency accepted at the input of the PLL
pub const PLL_INPUT_MAX: u32 = 2_000_000;

/// Lowest frequency of the voltage-controlled oscillator
pub const VCO_MIN: u32 = 192_000_000;

/// Highest frequency of the voltage-controlled oscillator
pub const VCO_MAX: u32 = 432_000_000;

/// Highest frequency of the main PLL output
pub const PLL_OUTPUT_MAX: u32 = 120_000_000;

/// Highest frequency of the auxiliary PLL output, which clocks USB OTG
pub const USB_MAX: u32 = 48_000_000;

/// Number of polls a busy-wait makes before it gives up
pub const WAIT_BUDGET: u32 = 0x500;

/// Image of the reset and clock control registers.
///
/// In `control` the ready flags, and in `config` the switch status, are set by
/// hardware alone.
#[derive(Clone, Copy, PartialEq, Eq, Structural, Debug)]
pub struct RCCRegisters {
    pub control: u32,
    pub pll_config: u32,
    pub config: u32,
    pub clock_interrupt: u32,
    pub ahb1_reset: u32,
    pub ahb2_reset: u32,
    pub ahb3_reset: u32,
    pub apb1_reset: u32,
    pub apb2_reset: u32,
    pub ahb1_clock_enable: u32,
    pub ahb2_clock_enable: u32,
    pub ahb3_clock_enable: u32,
    pub apb1_clock_enable: u32,
    pub apb2_clock_enable: u32,
    pub ahb1_lowpower_clock: u32,
    pub ahb2_lowpower_clock: u32,
    pub ahb3_lowpower_clock: u32,
    pub apb1_lowpower_clock: u32,
    pub apb2_lowpower_clock: u32,
    pub backup_domain_control: u32,
    pub control_and_status: u32,
    pub spread_spectrum: u32,
    pub pll_i2s_cfg: u32,
}

/// The oscillator that feeds the clock tree.
#[derive(Clone, Copy, PartialEq, Eq, Structural, Debug)]
pub enum ClockSelection {
    /// An external oscillator of the given frequency, in hertz
    HSE(u32),
    /// The internal oscillator
    HSI,
}

/// The phase-locked loop: off, or on with the input divider M, the feedback
/// multiplier N, the main output divider P and the auxiliary output divider Q.
#[derive(Clone, Copy, PartialEq, Eq, Structural, Debug)]
pub enum PLL {
    Off,
    On(u8, u16, u8, u8),
}

/// Why the clock tree could not be configured.
#[derive(Clone, Copy, PartialEq, Eq, Structural, Debug)]
pub enum ClockError {
    /// The external oscillator does not run between 4 and 26 MHz.
    OscillatorOutOfRange,
    /// One of M, N and Q is below 2.
    DividerTooSmall,
    /// P is none of 2, 4, 6 and 8.
    OutputDividerIllegal,
    /// The PLL input does not lie between 1 and 2 MHz.
    PllInputOutOfRange,
    /// The voltage-controlled oscillator does not lie between 192 and 432 MHz.
    VcoOutOfRange,
    /// The main PLL output exceeds 120 MHz.
    PllOutputTooHigh,
    /// The auxiliary PLL output exceeds 48 MHz.
    UsbClockTooHigh,
    /// The selected oscillator did not become ready.
    OscillatorNotReady,
    /// The PLL did not lock.
    PllNotReady,
    /// The system clock switch did not take effect.
    SwitchNotReady,
}

impl ClockError {
    pub open spec fn spec_kind(self) -> ErrorKind {
        match self {
            ClockError::OscillatorNotReady | ClockError::PllNotReady | ClockError::SwitchNotReady =>
                ErrorKind::HardwareTimeout,
            _ => ErrorKind::Validation,
        }
    }

    /// The class of the error.
    #[verifier::when_used_as_spec(spec_kind)]
    pub fn kind(self) -> (kind: ErrorKind)
        ensures
            kind == self.spec_kind(),
    {
        match self {
            ClockError::OscillatorNotReady | ClockError::PllNotReady | ClockError::SwitchNotReady =>
                ErrorKind::HardwareTimeout,
            _ => ErrorKind::Validation,
        }
    }

    pub open spec fn spec_message(self) -> Seq<char> {
        match self {
            ClockError::OscillatorOutOfRange => "External clock speed out of range ([4; 26] MHz)."@,
            ClockError::DividerTooSmall => "M, N and Q must be > 2."@,
            ClockError::OutputDividerIllegal => "P must be 2, 4, 6 or 8."@,
            ClockError::PllInputOutOfRange => "PLL input must be in [1; 2]MHz."@,
            ClockError::VcoOutOfRange => "VCO output must be in [192; 432]MHz."@,
            ClockError::PllOutputTooHigh => "PLL output clock must not exceed 120MHz."@,
            ClockError::UsbClockTooHigh => "USB OTG output clock must not exceed 48MHz."@,
            ClockError::OscillatorNotReady => "Failed to initialize the clock."@,
            ClockError::PllNotReady => "Failed to lock the PLL."@,
            ClockError::SwitchNotReady => "Failed to switch the system clock."@,
        }
    }

    /// The error in words.
    pub fn message(self) -> (text: &'static str)
        ensures
            text@ == self.spec_message(),
    {
        match self {
            ClockError::OscillatorOutOfRange => "External clock speed out of range ([4; 26] MHz).",
            ClockError::DividerTooSmall => "M, N and Q must be > 2.",
            ClockError::OutputDividerIllegal => "P must be 2, 4, 6 or 8.",
            ClockError::PllInputOutOfRange => "PLL input must be in [1; 2]MHz.",
            ClockError::VcoOutOfRange => "VCO output must be in [192; 432]MHz.",
            ClockError::PllOutputTooHigh => "PLL output clock must not exceed 120MHz.",
            ClockError::UsbClockTooHigh => "USB OTG output clock must not exceed 48MHz.",
            ClockError::OscillatorNotReady => "Failed to initialize the clock.",
            ClockError::PllNotReady => "Failed to lock the PLL.",
            ClockError::SwitchNotReady => "Failed to switch the system clock.",
        }
    }
}

impl ClockSelection {
    /// Frequency of the oscillator, in hertz.
    pub open spec fn frequency(self) -> int {
        match self {
            ClockSelection::HSI => HSI_FREQUENCY as int,
            ClockSelection::HSE(clk) => clk as int,
        }
    }

    /// The oscillator runs at a frequency the hardware accepts.
    pub open spec fn in_range(self) -> bool {
        match self {
            ClockSelection::HSI => true,
            ClockSelection::HSE(clk) => HSE_MIN <= clk <= HSE_MAX,
        }
    }

    /// Flag of the control register by which hardware reports the oscillator
    /// ready.
    pub open spec fn spec_ready_flag(self) -> u32 {
        match self {
            ClockSelection::HSI => CR_HSIRDY,
            ClockSelection::HSE(_) => CR_HSERDY,
        }
    }

    #[verifier::when_used_as_spec(spec_ready_flag)]
    pub fn ready_flag(self) -> (flag: u32)
        ensures
            flag == self.spec_ready_flag(),
    {
        match self {
            ClockSelection::HSI => CR_HSIRDY,
            ClockSelection::HSE(_) => CR_HSERDY,
        }
    }
}

impl PLL {
    /// Frequency at the input of the PLL, fed from a source of `source` hertz.
    pub open spec fn input(self, source: int) -> int {
        match self {
            PLL::Off => source,
            PLL::On(m, _, _, _) => source / (m as int),
        }
    }

    /// Frequency of the voltage-controlled oscillator.
    pub open spec fn vco(self, source: int) -> int {
        match self {
            PLL::Off => source,
            PLL::On(_, n, _, _) => self.input(source) * (n as int),
        }
    }

    /// Frequency of the main output, which becomes the system clock.
    pub open spec fn output(self, source: int) -> int {
        match self {
            PLL::Off => source,
            PLL::On(_, _, p, _) => self.vco(source) / (p as int),
        }
    }

    /// Frequency of the auxiliary output.
    pub open spec fn auxiliary(self, source: int) -> int {
        match self {
            PLL::Off => source,
            PLL::On(_, _, _, q) => self.vco(source) / (q as int),
        }
    }

    /// The first rule the configuration breaks when fed with `source` hertz, if
    /// any: the dividers, then the input, the voltage-controlled oscillator, the
    /// main output and the auxiliary output.
    pub open spec fn violation(self, source: int) -> Option<ClockError> {
        match self {
            PLL::Off => None,
            PLL::On(m, n, p, q) => {
                if m < 2 || n < 2 || q < 2 {
                    Some(ClockError::DividerTooSmall)
                } else if p != 2 && p != 4 && p != 6 && p != 8 {
                    Some(ClockError::OutputDividerIllegal)
                } else if !(PLL_INPUT_MIN <= self.input(source) <= PLL_INPUT_MAX) {
                    Some(ClockError::PllInputOutOfRange)
                } else if !(VCO_MIN <= self.vco(source) <= VCO_MAX) {
                    Some(ClockError::VcoOutOfRange)
                } else if self.output(source) > PLL_OUTPUT_MAX {
                    Some(ClockError::PllOutputTooHigh)
                } else if self.auxiliary(source) > USB_MAX {
                    Some(ClockError::UsbClockTooHigh)
                } else {
                    None
                }
            },
        }
    }
}

/// The first rule that the oscillator and the PLL break together, if any. The
/// oscillator is looked at first.
pub open spec fn clock_violation(clksrc: ClockSelection, pll: PLL) -> Option<ClockError> {
    if !clksrc.in_range() {
        Some(ClockError::OscillatorOutOfRange)
    } else {
        pll.violation(clksrc.frequency())
    }
}

/// The system clock that the oscillator and the PLL give, in hertz.
pub open spec fn system_frequency(clksrc: ClockSelection, pll: PLL) -> int {
    pll.output(clksrc.frequency())
}

/// Checks the oscillator and the PLL against the ranges of the hardware and
/// computes the system clock they give.
pub fn resolve(clksrc: ClockSelection, pll: PLL) -> (resolved: Result<u32, ClockError>)
    ensures
        match clock_violation(clksrc, pll) {
            Some(error) => resolved == Err::<u32, ClockError>(error),
            None => resolved matches Ok(frequency) && frequency == system_frequency(clksrc, pll),
        },
{
    let source: u32 = match clksrc {
        ClockSelection::HSI => HSI_FREQUENCY,
        ClockSelection::HSE(clk) => {
            if clk < HSE_MIN || HSE_MAX < clk {
                return Err(ClockError::OscillatorOutOfRange);
            }
            clk
        },
    };
    match pll {
        PLL::Off => Ok(source),
        PLL::On(m, n, p, q) => {
            if m < 2 || n < 2 || q < 2 {
                return Err(ClockError::DividerTooSmall);
            }
            if p != 2 && p != 4 && p != 6 && p != 8 {
                return Err(ClockError::OutputDividerIllegal);
            }
            let input: u32 = source / (m as u32);
            if input < PLL_INPUT_MIN || PLL_INPUT_MAX < input {
                return Err(ClockError::PllInputOutOfRange);
            }
            assert(input * n <= 2_000_000 * 65_535) by (nonlinear_arith)
                requires
                    input <= 2_000_000,
                    n <= 65_535,
            ;
            let vco: u64 = (input as u64) * (n as u64);
            if vco < VCO_MIN as u64 || (VCO_MAX as u64) < vco {
                return Err(ClockError::VcoOutOfRange);
            }
            let output: u64 = vco / (p as u64);
            let auxiliary: u64 = vco / (q as u64);
            if (PLL_OUTPUT_MAX as u64) < output {
                return Err(ClockError::PllOutputTooHigh);
            }
            if (USB_MAX as u64) < auxiliary {
                return Err(ClockError::UsbClockTooHigh);
            }
            Ok(output as u32)
        },
    }
}

/// The resolved system clock: unknown until the clock tree has been configured,
/// and changed only by a configuration that succeeds.
#[derive(Clone, Copy, Debug)]
pub struct ClockTree {
    sysclock: Option<u32>,
}

impl ClockTree {
    /// The system clock, in hertz, once the clock tree has been configured.
    pub closed spec fn frequency(self) -> Option<u32> {
        self.sysclock
    }

    /// The state before any configuration.
    pub fn new() -> (tree: ClockTree)
        ensures
            tree.frequency() == None::<u32>,
    {
        ClockTree { sysclock: None }
    }

    /// The system clock, in hertz, once the clock tree has been configured.
    pub fn sysclock(&self) -> (frequency: Option<u32>)
        ensures
            frequency == self.frequency(),
    {
        self.sysclock
    }

    pub(crate) fn commit(&mut self, frequency: u32)
        ensures
            final(self).frequency() == Some(frequency),
    {
        self.sysclock = Some(frequency);
    }
}

/// Polls `status` until it reports true, at most [`WAIT_BUDGET`] times. The
/// result is what the last poll reported.
pub fn wait_for<F: Fn() -> bool>(status: &F) -> (ret: bool)
    requires
        call_requires(*status, ()),
    ensures
        call_ensures(*status, (), ret),
{
    let mut ret: bool = false;
    let mut timeout_cnt: u32 = WAIT_BUDGET;
    while !ret && timeout_cnt != 0
        invariant
            call_requires(*status, ()),
            timeout_cnt <= WAIT_BUDGET,
            timeout_cnt == WAIT_BUDGET ==> !ret,
            timeout_cnt == WAIT_BUDGET || call_ensures(*status, (), ret),
        decreases timeout_cnt,
    {
        ret = status();
        timeout_cnt -= 1;
    }
    ret
}

impl RCCRegisters {
    /// The clock enable register of `bus`.
    pub open spec fn enable(self, bus: Bus) -> u32 {
        match bus {
            Bus::AHB1 => self.ahb1_clock_enable,
            Bus::AHB2 => self.ahb2_clock_enable,
            Bus::AHB3 => self.ahb3_clock_enable,
            Bus::APB1 => self.apb1_clock_enable,
            Bus::APB2 => self.apb2_clock_enable,
        }
    }

    /// The registers with `value` in the clock enable register of `bus`.
    pub open spec fn with_enable(self, bus: Bus, value: u32) -> RCCRegisters {
        match bus {
            Bus::AHB1 => RCCRegisters { ahb1_clock_enable: value, ..self },
            Bus::AHB2 => RCCRegisters { ahb2_clock_enable: value, ..self },
            Bus::AHB3 => RCCRegisters { ahb3_clock_enable: value, ..self },
            Bus::APB1 => RCCRegisters { apb1_clock_enable: value, ..self },
            Bus::APB2 => RCCRegisters { apb2_clock_enable: value, ..self },
        }
    }

    /// The clock of the peripheral behind `gate` runs.
    pub open spec fn gate_open(self, gate: Clock) -> bool {
        all_set(self.enable(gate.bus()), gate.mask())
    }

    /// The registers with the bit of `gate` set, where `open`, or cleared, and
    /// every other bit as it is.
    pub open spec fn with_gate(self, gate: Clock, open: bool) -> RCCRegisters {
        self.with_enable(
            gate.bus(),
            update_bits(self.enable(gate.bus()), if open { gate.mask() } else { 0 }, gate.mask()),
        )
    }

    /// Tells whether the clock of the peripheral behind `gate` runs.
    pub fn is_gate_open(&self, gate: Clock) -> (open: bool)
        ensures
            open == self.gate_open(gate),
    {
        let enable: u32 = match gate.bus() {
            Bus::AHB1 => self.ahb1_clock_enable,
            Bus::AHB2 => self.ahb2_clock_enable,
            Bus::AHB3 => self.ahb3_clock_enable,
            Bus::APB1 => self.apb1_clock_enable,
            Bus::APB2 => self.apb2_clock_enable,
        };
        let mask: u32 = gate.mask();
        (enable & mask) == mask
    }
}

/// The field of the configuration register that holds the AHB prescaler.
pub open spec fn hpre_field(config: u32) -> int {
    (config as int / 16) % 16
}

/// The field of the configuration register that holds the APB1 prescaler.
pub open spec fn ppre1_field(config: u32) -> int {
    (config as int / 1024) % 8
}

/// The field of the configuration register that holds the APB2 prescaler.
pub open spec fn ppre2_field(config: u32) -> int {
    (config as int / 8192) % 8
}

/// The division a prescaler field stands for, `top` being the value of its top
/// bit: none while the top bit is clear, else the number that the lower bits
/// select from the list 2, 4, 8, 16, 64, 128, 256, 512.
pub open spec fn prescaler_divisor(field: int, top: int) -> int {
    if field < top {
        1
    } else {
        let index = field - top;
        if index == 0 {
            2
        } else if index == 1 {
            4
        } else if index == 2 {
            8
        } else if index == 3 {
            16
        } else if index == 4 {
            64
        } else if index == 5 {
            128
        } else if index == 6 {
            256
        } else {
            512
        }
    }
}

/// The frequency that reaches a peripheral on `bus` when the system clock runs
/// at `sysclock` hertz and the configuration register holds `config`: the
/// system clock divided by the AHB prescaler and then, on an APB bus, by the
/// prescaler of that bus.
pub open spec fn bus_frequency(sysclock: u32, config: u32, bus: Bus) -> int {
    let hclk = sysclock as int / prescaler_divisor(hpre_field(config), 8);
    match bus {
        Bus::APB1 => hclk / prescaler_divisor(ppre1_field(config), 4),
        Bus::APB2 => hclk / prescaler_divisor(ppre2_field(config), 4),
        _ => hclk,
    }
}

/// The frequency that reaches the peripheral behind `gate`, as far as the
/// system clock is known.
pub open spec fn peripheral_clock(sysclock: Option<u32>, config: u32, gate: Clock) -> Option<u32> {
    match sysclock {
        None => None,
        Some(sysclock) => Some(bus_frequency(sysclock, config, gate.bus()) as u32),
    }
}

fn divisor(field: u32, top: u32) -> (divisor: u32)
    requires
        field < 2 * top,
        top == 8 || top == 4,
    ensures
        divisor == prescaler_divisor(field as int, top as int),
        1 <= divisor <= 512,
{
    if field < top {
        1
    } else {
        let index: u32 = field - top;
        if index == 0 {
            2
        } else if index == 1 {
            4
        } else if index == 2 {
            8
        } else if index == 3 {
            16
        } else if index == 4 {
            64
        } else if index == 5 {
            128
        } else if index == 6 {
            256
        } else {
            512
        }
    }
}

proof fn lemma_prescaler_fields(config: u32)
    by (bit_vector)
    ensures
        (config >> 4) & 0xF == (config / 16) % 16,
        (config >> 10) & 0x7 == (config / 1024) % 8,
        (config >> 13) & 0x7 == (config / 8192) % 8,
{
}

/// The clock gate of one peripheral.
#[derive(Clone, Copy, PartialEq, Eq, Structural, Debug)]
pub struct RCCPeripheral {
    pub clock: Clock,
}

impl RCCPeripheral {
    /// Opens the clock gate, where `v`, or closes it.
    pub fn set_clock(&self, rcc: &mut RCCRegisters, v: bool)
        ensures
            *final(rcc) == old(rcc).with_gate(self.clock, v),
    {
        let mask: u32 = self.clock.mask();
        let bit: u32 = if v {
            mask
        } else {
            0
        };
        match self.clock.bus() {
            Bus::AHB1 => update(&mut rcc.ahb1_clock_enable, bit, mask),
            Bus::AHB2 => update(&mut rcc.ahb2_clock_enable, bit, mask),
            Bus::AHB3 => update(&mut rcc.ahb3_clock_enable, bit, mask),
            Bus::APB1 => update(&mut rcc.apb1_clock_enable, bit, mask),
            Bus::APB2 => update(&mut rcc.apb2_clock_enable, bit, mask),
        }
    }

    /// The frequency, in hertz, that reaches the peripheral of this clock gate;
    /// none as long as the clock tree has not been configured.
    pub fn get_clock(&self, tree: &ClockTree, rcc: &RCCRegisters) -> (clock: Option<u32>)
        ensures
            clock == peripheral_clock(tree.frequency(), rcc.config, self.clock),
    {
        let sysclock: u32 = match tree.sysclock() {
            None => {
                return None;
            },
            Some(sysclock) => sysclock,
        };
        let config: u32 = rcc.config;
        proof {
            lemma_prescaler_fields(config);
        }
        let hclk: u32 = sysclock / divisor((config >> 4) & 0xF, 8);
        let clock: u32 = match self.clock.bus() {
            Bus::APB1 => hclk / divisor((config >> 10) & 0x7, 4),
            Bus::APB2 => hclk / divisor((config >> 13) & 0x7, 4),
            _ => hclk,
        };
        Some(clock)
    }

    /// Closes the clock gate.
    pub fn deinit(&self, chip: &mut Chip)
        ensures
            *final(chip) == (Chip { rcc: old(chip).rcc.with_gate(self.clock, false), ..*old(chip) }),
    {
        self.set_clock(&mut chip.rcc, false);
    }
}

impl Peripheral for RCCPeripheral {
    /// The clock gate is opened.
    open spec fn init_settings(&self) -> Seq<Setting> {
        seq![Setting::Gate(self.clock)]
    }

    /// Opening a gate cannot fail.
    open spec fn init_result(&self) -> Result<(), InitError> {
        Ok(())
    }

    fn init(&self, chip: &mut Chip) -> (result: Result<(), InitError>) {
        proof {
            lemma_single_setting(*chip, Setting::Gate(self.clock));
        }
        self.set_clock(&mut chip.rcc, true);
        Ok(())
    }
}

/// Opening a clock gate that is open, or closing one that is closed, changes
/// nothing.
pub proof fn lemma_gate_twice(rcc: RCCRegisters, gate: Clock, open: bool)
    ensures
        rcc.with_gate(gate, open).with_gate(gate, open) == rcc.with_gate(gate, open),
{
    let bits = if open {
        gate.mask()
    } else {
        0
    };
    lemma_update_twice(rcc.enable(gate.bus()), bits, gate.mask());
}

/// A clock gate is open after it has been opened and closed after it has been
/// closed, and every other clock gate is as it was.
pub proof fn lemma_gate_set(rcc: RCCRegisters, gate: Clock, open: bool, other: Clock)
    ensures
        rcc.with_gate(gate, open).gate_open(gate) == open,
        other.spec_code() != gate.spec_code() ==> rcc.with_gate(gate, open).gate_open(other)
            == rcc.gate_open(other),
        rcc.with_gate(gate, open).config == rcc.config,
        rcc.with_gate(gate, open).control == rcc.control,
        rcc.with_gate(gate, open).pll_config == rcc.pll_config,
{
    lemma_gate_bit(rcc.enable(gate.bus()), gate.bit(), other.bit());
}

proof fn lemma_gate_bit(enable: u32, bit: u32, other: u32)
    by (bit_vector)
    requires
        bit < 32,
        other < 32,
    ensures
        update_bits(enable, 1u32 << bit, 1u32 << bit) & (1u32 << bit) == 1u32 << bit,
        update_bits(enable, 0, 1u32 << bit) & (1u32 << bit) != 1u32 << bit,
        other != bit ==> update_bits(enable, 1u32 << bit, 1u32 << bit) & (1u32 << other) == enable
            & (1u32 << other),
        other != bit ==> update_bits(enable, 0, 1u32 << bit) & (1u32 << other) == enable & (1u32
            << other),
{
}

/// What reaches a peripheral depends on the resolved system clock, the three
/// prescaler fields and the bus of the peripheral, and on nothing else: not on
/// the other bits of the configuration register, nor on which gate of the bus is
/// asked for.
pub proof fn lemma_peripheral_clock_is_pure(
    sysclock: Option<u32>,
    config: u32,
    gate: Clock,
    other_config: u32,
    other_gate: Clock,
)
    requires
        hpre_field(config) == hpre_field(other_config),
        ppre1_field(config) == ppre1_field(other_config),
        ppre2_field(config) == ppre2_field(other_config),
        gate.bus() == other_gate.bus(),
    ensures
        peripheral_clock(sysclock, config, gate) == peripheral_clock(
            sysclock,
            other_config,
            other_gate,
        ),
{
}

impl RCCRegisters {
    /// The image with every register at zero.
    pub open spec fn blank() -> RCCRegisters {
        RCCRegisters {
            control: 0,
            pll_config: 0,
            config: 0,
            clock_interrupt: 0,
            ahb1_reset: 0,
            ahb2_reset: 0,
            ahb3_reset: 0,
            apb1_reset: 0,
            apb2_reset: 0,
            ahb1_clock_enable: 0,
            ahb2_clock_enable: 0,
            ahb3_clock_enable: 0,
            apb1_clock_enable: 0,
            apb2_clock_enable: 0,
            ahb1_lowpower_clock: 0,
            ahb2_lowpower_clock: 0,
            ahb3_lowpower_clock: 0,
            apb1_lowpower_clock: 0,
            apb2_lowpower_clock: 0,
            backup_domain_control: 0,
            control_and_status: 0,
            spread_spectrum: 0,
            pll_i2s_cfg: 0,
        }
    }
}

impl Default for RCCRegisters {
    /// The image with every register at zero.
    fn default() -> (image: RCCRegisters)
        ensures
            image == RCCRegisters::blank(),
    {
        RCCRegisters {
            control: 0,
            pll_config: 0,
            config: 0,
            clock_interrupt: 0,
            ahb1_reset: 0,
            ahb2_reset: 0,
            ahb3_reset: 0,
            apb1_reset: 0,
            apb2_reset: 0,
            ahb1_clock_enable: 0,
            ahb2_clock_enable: 0,
            ahb3_clock_enable: 0,
            apb1_clock_enable: 0,
            apb2_clock_enable: 0,
            ahb1_lowpower_clock: 0,
            ahb2_lowpower_clock: 0,
            ahb3_lowpower_clock: 0,
            apb1_lowpower_clock: 0,
            apb2_lowpower_clock: 0,
            backup_domain_control: 0,
            control_and_status: 0,
            spread_spectrum: 0,
            pll_i2s_cfg: 0,
        }
    }
}

} // verus!
