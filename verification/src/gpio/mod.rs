//! General-purpose input and output: ports and their pins.

use vstd::prelude::*;

use crate::chip::{Chip, Port};
use crate::peripheral::{
    lemma_settings_in_a_row, lemma_single_setting, InitError, Peripheral, Setting,
};
use crate::rcc::RCCPeripheral;
use crate::registers::{all_set16, is_set16, update, update16, update_bits, update_bits16};

verus! {

/// The internal peripheral a pin is routed to.
#[derive(Clone, Copy, PartialEq, Eq, Structural, Debug)]
pub enum AlternateFunction {
    AF0,
    AF1,
    AF2,
    AF3,
    AF4,
    AF5,
    AF6,
    AF7,
    AF8,
    AF9,
    AF10,
    AF11,
    AF12,
    AF13,
    AF14,
    AF15,
}

impl AlternateFunction {
    /// The function as it stands in the alternate function registers.
    pub open spec fn spec_code(self) -> u32 {
        match self {
            AlternateFunction::AF0 => 0,
            AlternateFunction::AF1 => 1,
            AlternateFunction::AF2 => 2,
            AlternateFunction::AF3 => 3,
            AlternateFunction::AF4 => 4,
            AlternateFunction::AF5 => 5,
            AlternateFunction::AF6 => 6,
            AlternateFunction::AF7 => 7,
            AlternateFunction::AF8 => 8,
            AlternateFunction::AF9 => 9,
            AlternateFunction::AF10 => 10,
            AlternateFunction::AF11 => 11,
            AlternateFunction::AF12 => 12,
            AlternateFunction::AF13 => 13,
            AlternateFunction::AF14 => 14,
            AlternateFunction::AF15 => 15,
        }
    }

    #[verifier::when_used_as_spec(spec_code)]
    pub fn code(self) -> (code: u32)
        ensures
            code == self.spec_code(),
    {
        match self {
            AlternateFunction::AF0 => 0,
            AlternateFunction::AF1 => 1,
            AlternateFunction::AF2 => 2,
            AlternateFunction::AF3 => 3,
            AlternateFunction::AF4 => 4,
            AlternateFunction::AF5 => 5,
            AlternateFunction::AF6 => 6,
            AlternateFunction::AF7 => 7,
            AlternateFunction::AF8 => 8,
            AlternateFunction::AF9 => 9,
            AlternateFunction::AF10 => 10,
            AlternateFunction::AF11 => 11,
            AlternateFunction::AF12 => 12,
            AlternateFunction::AF13 => 13,
            AlternateFunction::AF14 => 14,
            AlternateFunction::AF15 => 15,
        }
    }
}

/// How an output drives its pin.
#[derive(Clone, Copy, PartialEq, Eq, Structural, Debug)]
pub enum OutputType {
    PushPull,
    OpenDrain,
}

impl OutputType {
    /// The type as it stands in the output type register.
    pub open spec fn spec_code(self) -> u16 {
        match self {
            OutputType::PushPull => 0,
            OutputType::OpenDrain => 1,
        }
    }

    #[verifier::when_used_as_spec(spec_code)]
    pub fn code(self) -> (code: u16)
        ensures
            code == self.spec_code(),
    {
        match self {
            OutputType::PushPull => 0,
            OutputType::OpenDrain => 1,
        }
    }
}

/// The electrical mode of a pin: an input; an output, with its type and the
/// level it starts at; routed to an internal peripheral, with the function and
/// the output type; or analog.
#[derive(Clone, Copy, PartialEq, Eq, Structural, Debug)]
pub enum Mode {
    In,
    Out(OutputType, bool),
    AlternateFunction(AlternateFunction, OutputType),
    Analog,
}

impl Mode {
    /// The mode as it stands in the mode register.
    pub open spec fn spec_code(self) -> u32 {
        match self {
            Mode::In => 0,
            Mode::Out(_, _) => 1,
            Mode::AlternateFunction(_, _) => 2,
            Mode::Analog => 3,
        }
    }

    /// The output type the mode asks for; push-pull where it names none.
    pub open spec fn spec_output_type(self) -> u16 {
        match self {
            Mode::Out(otype, _) => otype.code(),
            Mode::AlternateFunction(_, otype) => otype.code(),
            _ => 0,
        }
    }

    /// The alternate function the mode asks for; the first where it names none.
    pub open spec fn spec_function(self) -> u32 {
        match self {
            Mode::AlternateFunction(af, _) => af.code(),
            _ => 0,
        }
    }

    /// The level an output starts at; low for every other mode.
    pub open spec fn spec_level(self) -> bool {
        match self {
            Mode::Out(_, state) => state,
            _ => false,
        }
    }

    #[verifier::when_used_as_spec(spec_code)]
    pub fn code(self) -> (code: u32)
        ensures
            code == self.spec_code(),
    {
        match self {
            Mode::In => 0,
            Mode::Out(_, _) => 1,
            Mode::AlternateFunction(_, _) => 2,
            Mode::Analog => 3,
        }
    }

    #[verifier::when_used_as_spec(spec_output_type)]
    pub fn output_type(self) -> (code: u16)
        ensures
            code == self.spec_output_type(),
            code <= 1,
    {
        match self {
            Mode::Out(otype, _) => otype.code(),
            Mode::AlternateFunction(_, otype) => otype.code(),
            _ => 0,
        }
    }

    #[verifier::when_used_as_spec(spec_function)]
    pub fn function(self) -> (code: u32)
        ensures
            code == self.spec_function(),
            code <= 15,
    {
        match self {
            Mode::AlternateFunction(af, _) => af.code(),
            _ => 0,
        }
    }

    #[verifier::when_used_as_spec(spec_level)]
    pub fn level(self) -> (high: bool)
        ensures
            high == self.spec_level(),
    {
        match self {
            Mode::Out(_, state) => state,
            _ => false,
        }
    }
}

/// The slew rate of an output.
#[derive(Clone, Copy, PartialEq, Eq, Structural, Debug)]
pub enum Frequency {
    F2MHz,
    F20MHz,
    F50MHz,
    F100MHz,
}

impl Frequency {
    /// The speed as it stands in the output speed register.
    pub open spec fn spec_code(self) -> u32 {
        match self {
            Frequency::F2MHz => 0,
            Frequency::F20MHz => 1,
            Frequency::F50MHz => 2,
            Frequency::F100MHz => 3,
        }
    }

    #[verifier::when_used_as_spec(spec_code)]
    pub fn code(self) -> (code: u32)
        ensures
            code == self.spec_code(),
    {
        match self {
            Frequency::F2MHz => 0,
            Frequency::F20MHz => 1,
            Frequency::F50MHz => 2,
            Frequency::F100MHz => 3,
        }
    }
}

/// The resistors that pull a pin.
#[derive(Clone, Copy, PartialEq, Eq, Structural, Debug)]
pub enum PullSide {
    NoPull,
    Up,
    Down,
    Both,
}

impl PullSide {
    /// The pull as it stands in the pull-up/pull-down register.
    pub open spec fn spec_code(self) -> u32 {
        match self {
            PullSide::NoPull => 0,
            PullSide::Up => 1,
            PullSide::Down => 2,
            PullSide::Both => 3,
        }
    }

    #[verifier::when_used_as_spec(spec_code)]
    pub fn code(self) -> (code: u32)
        ensures
            code == self.spec_code(),
    {
        match self {
            PullSide::NoPull => 0,
            PullSide::Up => 1,
            PullSide::Down => 2,
            PullSide::Both => 3,
        }
    }
}

/// Image of the registers of one port. `input_data` is read-only; `bit_set`
/// and `bit_reset` are write-only.
#[derive(Clone, Copy, PartialEq, Eq, Structural, Debug)]
pub struct PortRegisters {
    pub mode: u32,
    pub output_type: u16,
    pub output_speed: u32,
    pub pu_pd: u32,
    pub input_data: u16,
    pub output_data: u16,
    pub bit_set: u16,
    pub bit_reset: u16,
    pub lock: u16,
    pub lock_key: u16,
    pub alternate_function_low: u32,
    pub alternate_function_high: u32,
}

/// Highest pin number of a port
pub const LAST_PIN: u32 = 15;

/// The bit of `pin` in a register that holds one bit for each pin.
pub open spec fn pin_mask(pin: u32) -> u16 {
    1u16 << pin
}

/// Position of the field of `pin` in a register that holds two bits for each
/// pin.
pub open spec fn pair_shift(pin: u32) -> u32 {
    (pin * 2) as u32
}

/// Position of the field of `pin` in the alternate function register that holds
/// it: four bits for each pin, the first eight pins in the low register and the
/// others in the high one.
pub open spec fn nibble_shift(pin: u32) -> u32 {
    ((pin * 4) % 32) as u32
}

impl PortRegisters {
    /// The registers with `pin` set up for `mode`, `speed` and `pull_side` and
    /// the fields of every other pin as they are.
    pub open spec fn configured(
        self,
        pin: u32,
        mode: Mode,
        speed: Frequency,
        pull_side: PullSide,
    ) -> PortRegisters {
        let one = pin_mask(pin);
        let pair = pair_shift(pin);
        let nibble = nibble_shift(pin);
        let function = update_bits(
            if pin < 8 {
                self.alternate_function_low
            } else {
                self.alternate_function_high
            },
            mode.function() << nibble,
            0xFu32 << nibble,
        );
        PortRegisters {
            output_type: update_bits16(self.output_type, mode.output_type() << pin, one),
            output_speed: update_bits(self.output_speed, speed.code() << pair, 3u32 << pair),
            pu_pd: update_bits(self.pu_pd, pull_side.code() << pair, 3u32 << pair),
            output_data: update_bits16(
                self.output_data,
                if mode.level() {
                    one
                } else {
                    0
                },
                one,
            ),
            alternate_function_low: if pin < 8 {
                function
            } else {
                self.alternate_function_low
            },
            alternate_function_high: if pin < 8 {
                self.alternate_function_high
            } else {
                function
            },
            mode: update_bits(self.mode, mode.code() << pair, 3u32 << pair),
            ..self
        }
    }

    /// The registers after `pin` has been driven high, where `command`, or low:
    /// the request stands in the set or the reset register and the output data
    /// follow it.
    pub open spec fn driven(self, pin: u32, command: bool) -> PortRegisters {
        let one = pin_mask(pin);
        if command {
            PortRegisters {
                bit_set: one,
                output_data: update_bits16(self.output_data, one, one),
                ..self
            }
        } else {
            PortRegisters {
                bit_reset: one,
                output_data: update_bits16(self.output_data, 0, one),
                ..self
            }
        }
    }

    /// The level read at `pin`.
    pub open spec fn input_level(self, pin: u32) -> bool {
        all_set16(self.input_data, pin_mask(pin))
    }

    /// The level that `pin` is told to drive.
    pub open spec fn output_level(self, pin: u32) -> bool {
        all_set16(self.output_data, pin_mask(pin))
    }
}

/// One of the ports, with its clock gate.
#[derive(Clone, Copy, PartialEq, Eq, Structural, Debug)]
pub struct PortPeripheral {
    pub port: Port,
    pub clock: RCCPeripheral,
}

impl Peripheral for PortPeripheral {
    /// The clock gate of the port is opened.
    open spec fn init_settings(&self) -> Seq<Setting> {
        self.clock.init_settings()
    }

    open spec fn init_result(&self) -> Result<(), InitError> {
        self.clock.init_result()
    }

    fn init(&self, chip: &mut Chip) -> (result: Result<(), InitError>) {
        self.clock.init(chip)
    }
}

/// One pin of a port and the way it is to be set up.
#[derive(Clone, Copy, Debug)]
pub struct PinPeripheral<'a> {
    pub port: &'a PortPeripheral,
    pub pin: u32,
    pub mode: Mode,
    pub speed: Frequency,
    pub pull_side: PullSide,
}

impl<'a> Peripheral for PinPeripheral<'a> {
    /// The clock gate of the port is opened and the pin is set up as the
    /// handle says; nothing is written for a pin number above 15.
    open spec fn init_settings(&self) -> Seq<Setting> {
        if self.pin > LAST_PIN {
            Seq::empty()
        } else {
            self.port.init_settings() + seq![
                Setting::Pin(self.port.port, self.pin, self.mode, self.speed, self.pull_side),
            ]
        }
    }

    /// A pin number above 15 is refused.
    open spec fn init_result(&self) -> Result<(), InitError> {
        if self.pin > LAST_PIN {
            Err(InitError::InvalidPin)
        } else {
            Ok(())
        }
    }

    fn init(&self, chip: &mut Chip) -> (result: Result<(), InitError>) {
        if LAST_PIN < self.pin {
            assert(self.init_settings().len() == 0);
            return Err(InitError::InvalidPin);
        }
        match self.port.init(chip) {
            Err(error) => {
                return Err(error);
            },
            Ok(()) => {},
        }

        let mode: u32 = self.mode.code();
        let otype: u16 = self.mode.output_type();
        let af: u32 = self.mode.function();
        let state: bool = self.mode.level();

        let onebit_mask: u16 = 1u16 << self.pin;
        let twobit_shift: u32 = self.pin * 2;
        let twobit_mask: u32 = 3u32 << twobit_shift;

        let mut af_shift: u32 = self.pin * 4;
        if af_shift >= 32 {
            af_shift -= 32;
        }
        let af_mask: u32 = 0xFu32 << af_shift;

        let registers = chip.port_mut(self.port.port);
        update16(&mut registers.output_type, otype << self.pin, onebit_mask);
        update(&mut registers.output_speed, self.speed.code() << twobit_shift, twobit_mask);
        update(&mut registers.pu_pd, self.pull_side.code() << twobit_shift, twobit_mask);
        if state {
            update16(&mut registers.output_data, 1u16 << self.pin, onebit_mask);
        } else {
            update16(&mut registers.output_data, 0, onebit_mask);
        }
        if self.pin < 8 {
            update(&mut registers.alternate_function_low, af << af_shift, af_mask);
        } else {
            update(&mut registers.alternate_function_high, af << af_shift, af_mask);
        }
        update(&mut registers.mode, mode << twobit_shift, twobit_mask);

        proof {
            let own = Setting::Pin(self.port.port, self.pin, self.mode, self.speed, self.pull_side);
            lemma_settings_in_a_row(*old(chip), self.port.init_settings(), seq![own]);
            lemma_single_setting(old(chip).with_settings(self.port.init_settings()), own);
        }
        Ok(())
    }
}

/// A pin in service as an input.
pub struct In<'a> {
    periph: &'a PinPeripheral<'a>,
}

impl<'a> In<'a> {
    #[verifier::type_invariant]
    spec fn valid(self) -> bool {
        self.periph.pin <= LAST_PIN
    }

    /// The pin behind the input.
    pub closed spec fn pin(self) -> PinPeripheral<'a> {
        *self.periph
    }

    /// Initializes the pin and hands it out as an input; fails where the
    /// initialization fails.
    pub fn from(f: &'a PinPeripheral<'a>, chip: &mut Chip) -> (input: Result<In<'a>, InitError>)
        ensures
            *final(chip) == old(chip).with_settings(f.init_settings()),
            match f.init_result() {
                Ok(()) => input is Ok && input->Ok_0.pin() == *f,
                Err(error) => input matches Err(e) && e == error,
            },
    {
        match f.init(chip) {
            Err(msg) => Err(msg),
            Ok(()) => Ok(In { periph: f }),
        }
    }

    /// The level read at the pin.
    pub fn read(&self, chip: &Chip) -> (high: bool)
        ensures
            high == chip.port(self.pin().port.port).input_level(self.pin().pin),
    {
        proof {
            use_type_invariant(self);
        }
        let mask: u16 = 1u16 << self.periph.pin;
        is_set16(chip.port_ref(self.periph.port.port).input_data, mask)
    }
}

/// A pin in service as an output.
pub struct Out<'a> {
    periph: &'a PinPeripheral<'a>,
}

impl<'a> Out<'a> {
    #[verifier::type_invariant]
    spec fn valid(self) -> bool {
        self.periph.pin <= LAST_PIN
    }

    /// The pin behind the output.
    pub closed spec fn pin(self) -> PinPeripheral<'a> {
        *self.periph
    }

    /// Initializes the pin and hands it out as an output; fails where the
    /// initialization fails.
    pub fn from(f: &'a PinPeripheral<'a>, chip: &mut Chip) -> (output: Result<Out<'a>, InitError>)
        ensures
            *final(chip) == old(chip).with_settings(f.init_settings()),
            match f.init_result() {
                Ok(()) => output is Ok && output->Ok_0.pin() == *f,
                Err(error) => output matches Err(e) && e == error,
            },
    {
        match f.init(chip) {
            Err(msg) => Err(msg),
            Ok(()) => Ok(Out { periph: f }),
        }
    }

    /// The level that the pin is told to drive.
    pub fn get_command(&self, chip: &Chip) -> (high: bool)
        ensures
            high == chip.port(self.pin().port.port).output_level(self.pin().pin),
    {
        proof {
            use_type_invariant(self);
        }
        let mask: u16 = 1u16 << self.periph.pin;
        is_set16(chip.port_ref(self.periph.port.port).output_data, mask)
    }

    /// Drives the pin high, where `command`, or low, and returns the level that
    /// the pin is then told to drive, which is `command`.
    pub fn write(&mut self, chip: &mut Chip, command: bool) -> (high: bool)
        ensures
            final(self).pin() == old(self).pin(),
            *final(chip) == old(chip).with_port(
                old(self).pin().port.port,
                old(chip).port(old(self).pin().port.port).driven(old(self).pin().pin, command),
            ),
            high == command,
    {
        proof {
            use_type_invariant(&*self);
        }
        let pin: u32 = self.periph.pin;
        let mask: u16 = 1u16 << pin;
        let registers = chip.port_mut(self.periph.port.port);
        proof {
            lemma_driven_level(registers.output_data, pin);
        }
        if command {
            registers.bit_set = mask;
            update16(&mut registers.output_data, mask, mask);
        } else {
            registers.bit_reset = mask;
            update16(&mut registers.output_data, 0, mask);
        }
        is_set16(registers.output_data, mask)
    }
}

proof fn lemma_driven_level(output_data: u16, pin: u32)
    by (bit_vector)
    requires
        pin <= 15,
    ensures
        update_bits16(output_data, 1u16 << pin, 1u16 << pin) & (1u16 << pin) == 1u16 << pin,
        update_bits16(output_data, 0, 1u16 << pin) & (1u16 << pin) != 1u16 << pin,
{
}

/// The field of `pin` in a register that holds two bits for each pin.
pub open spec fn pair_field(register: u32, pin: u32) -> u32 {
    (register >> pair_shift(pin)) & 3
}

impl PortRegisters {
    /// The mode that `pin` is in, as the mode register holds it.
    pub open spec fn pin_mode(self, pin: u32) -> u32 {
        pair_field(self.mode, pin)
    }

    /// The speed of `pin`, as the output speed register holds it.
    pub open spec fn pin_speed(self, pin: u32) -> u32 {
        pair_field(self.output_speed, pin)
    }

    /// The pull of `pin`, as the pull-up/pull-down register holds it.
    pub open spec fn pin_pull(self, pin: u32) -> u32 {
        pair_field(self.pu_pd, pin)
    }

    /// `pin` drives as an open drain.
    pub open spec fn pin_open_drain(self, pin: u32) -> bool {
        all_set16(self.output_type, pin_mask(pin))
    }

    /// The alternate function of `pin`, as the alternate function registers
    /// hold it.
    pub open spec fn pin_function(self, pin: u32) -> u32 {
        ((if pin < 8 {
            self.alternate_function_low
        } else {
            self.alternate_function_high
        }) >> nibble_shift(pin)) & 0xF
    }
}

/// A pin that has been set up reads back as it was set up, and the registers
/// that hold no setting are as they were.
pub proof fn lemma_configured_pin(
    registers: PortRegisters,
    pin: u32,
    mode: Mode,
    speed: Frequency,
    pull_side: PullSide,
)
    requires
        pin <= LAST_PIN,
    ensures
        ({
            let after = registers.configured(pin, mode, speed, pull_side);
            &&& after.pin_mode(pin) == mode.code()
            &&& after.pin_speed(pin) == speed.code()
            &&& after.pin_pull(pin) == pull_side.code()
            &&& after.pin_open_drain(pin) == (mode.output_type() == 1)
            &&& after.pin_function(pin) == mode.function()
            &&& after.output_level(pin) == mode.level()
            &&& after.input_data == registers.input_data
            &&& after.bit_set == registers.bit_set
            &&& after.bit_reset == registers.bit_reset
            &&& after.lock == registers.lock
            &&& after.lock_key == registers.lock_key
        }),
{
    lemma_pair_written(registers.mode, pin, mode.code(), pin);
    lemma_pair_written(registers.output_speed, pin, speed.code(), pin);
    lemma_pair_written(registers.pu_pd, pin, pull_side.code(), pin);
    lemma_bit_written(registers.output_type, pin, mode.output_type(), pin);
    lemma_bit_written(registers.output_data, pin, if mode.level() {
        1
    } else {
        0
    }, pin);
    lemma_nibble_written(registers.alternate_function_low, pin, mode.function(), pin);
    lemma_nibble_written(registers.alternate_function_high, pin, mode.function(), pin);
}

/// Setting a pin up leaves every other pin of the port as it was.
pub proof fn lemma_configured_leaves_other_pins(
    registers: PortRegisters,
    pin: u32,
    mode: Mode,
    speed: Frequency,
    pull_side: PullSide,
    other: u32,
)
    requires
        pin <= LAST_PIN,
        other <= LAST_PIN,
        other != pin,
    ensures
        ({
            let after = registers.configured(pin, mode, speed, pull_side);
            &&& after.pin_mode(other) == registers.pin_mode(other)
            &&& after.pin_speed(other) == registers.pin_speed(other)
            &&& after.pin_pull(other) == registers.pin_pull(other)
            &&& after.pin_open_drain(other) == registers.pin_open_drain(other)
            &&& after.pin_function(other) == registers.pin_function(other)
            &&& after.output_level(other) == registers.output_level(other)
        }),
{
    lemma_pair_written(registers.mode, pin, mode.code(), other);
    lemma_pair_written(registers.output_speed, pin, speed.code(), other);
    lemma_pair_written(registers.pu_pd, pin, pull_side.code(), other);
    lemma_bit_written(registers.output_type, pin, mode.output_type(), other);
    lemma_bit_written(registers.output_data, pin, if mode.level() {
        1
    } else {
        0
    }, other);
    lemma_nibble_written(registers.alternate_function_low, pin, mode.function(), other);
    lemma_nibble_written(registers.alternate_function_high, pin, mode.function(), other);
}

proof fn lemma_pair_written(register: u32, pin: u32, code: u32, other: u32)
    by (bit_vector)
    requires
        pin <= 15,
        other <= 15,
        code <= 3,
    ensures
        other == pin ==> (update_bits(
            register,
            code << ((pin * 2) as u32),
            3u32 << ((pin * 2) as u32),
        ) >> ((other * 2) as u32)) & 3 == code,
        other != pin ==> (update_bits(
            register,
            code << ((pin * 2) as u32),
            3u32 << ((pin * 2) as u32),
        ) >> ((other * 2) as u32)) & 3 == (register >> ((other * 2) as u32)) & 3,
{
}

proof fn lemma_bit_written(register: u16, pin: u32, code: u16, other: u32)
    by (bit_vector)
    requires
        pin <= 15,
        other <= 15,
        code <= 1,
    ensures
        other == pin ==> (update_bits16(register, code << pin, 1u16 << pin) & (1u16 << other)
            == 1u16 << other) == (code == 1),
        other == pin ==> (update_bits16(register, if code == 1 {
            1u16 << pin
        } else {
            0
        }, 1u16 << pin) & (1u16 << other) == 1u16 << other) == (code == 1),
        other != pin ==> update_bits16(register, code << pin, 1u16 << pin) & (1u16 << other)
            == register & (1u16 << other),
        other != pin ==> update_bits16(register, if code == 1 {
            1u16 << pin
        } else {
            0
        }, 1u16 << pin) & (1u16 << other) == register & (1u16 << other),
{
}

proof fn lemma_nibble_written(register: u32, pin: u32, code: u32, other: u32)
    by (bit_vector)
    requires
        pin <= 15,
        other <= 15,
        code <= 15,
    ensures
        other == pin ==> (update_bits(
            register,
            code << (((pin * 4) % 32) as u32),
            0xFu32 << (((pin * 4) % 32) as u32),
        ) >> (((other * 4) % 32) as u32)) & 0xF == code,
        other != pin && (other < 8) == (pin < 8) ==> (update_bits(
            register,
            code << (((pin * 4) % 32) as u32),
            0xFu32 << (((pin * 4) % 32) as u32),
        ) >> (((other * 4) % 32) as u32)) & 0xF == (register >> (((other * 4) % 32) as u32))
            & 0xF,
{
}

impl PortRegisters {
    /// The image with every register at zero.
    pub open spec fn blank() -> PortRegisters {
        PortRegisters {
            mode: 0,
            output_type: 0,
            output_speed: 0,
            pu_pd: 0,
            input_data: 0,
            output_data: 0,
            bit_set: 0,
            bit_reset: 0,
            lock: 0,
            lock_key: 0,
            alternate_function_low: 0,
            alternate_function_high: 0,
        }
    }
}

impl Default for PortRegisters {
    /// The image with every register at zero.
    fn default() -> (image: PortRegisters)
        ensures
            image == PortRegisters::blank(),
    {
        PortRegisters {
            mode: 0,
            output_type: 0,
            output_speed: 0,
            pu_pd: 0,
            input_data: 0,
            output_data: 0,
            bit_set: 0,
            bit_reset: 0,
            lock: 0,
            lock_key: 0,
            alternate_function_low: 0,
            alternate_function_high: 0,
        }
    }
}

} // verus!
