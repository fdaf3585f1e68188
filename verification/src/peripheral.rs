//! The initialization protocol that every peripheral follows.

use vstd::prelude::*;

use crate::chip::{Chip, Line, Port};
use crate::gpio::{
    nibble_shift, pair_shift, pin_mask, Frequency, Mode, PortRegisters, PullSide, LAST_PIN,
};
use crate::rcc::{Clock, RCCRegisters};
use crate::registers::{
    lemma_update_disjoint, lemma_update_disjoint16, lemma_update_overrides,
    lemma_update_overrides16,
};
use crate::usart::USARTRegisters;

verus! {

/// Why a peripheral could not be initialized.
#[derive(Clone, Copy, PartialEq, Eq, Structural, Debug)]
pub enum InitError {
    /// A pin number above 15.
    InvalidPin,
}

impl InitError {
    pub open spec fn spec_message(self) -> Seq<char> {
        match self {
            InitError::InvalidPin => "Invalid pin number"@,
        }
    }

    /// The error in words.
    pub fn message(self) -> (text: &'static str)
        ensures
            text@ == self.spec_message(),
    {
        match self {
            InitError::InvalidPin => "Invalid pin number",
        }
    }
}

/// One thing an initialization sets in the registers. Each setting writes
/// values that do not depend on what the registers held.
#[derive(Clone, Copy, PartialEq, Eq, Structural, Debug)]
pub enum Setting {
    /// The clock gate is opened.
    Gate(Clock),
    /// The pin of the port is set up for a mode, a speed and a pull.
    Pin(Port, u32, Mode, Frequency, PullSide),
    /// The third and the first control register of the serial line are written.
    Controls(Line, u16, u16),
}

impl Chip {
    /// The chip with `setting` made. A pin above 15 does not exist, and setting
    /// it up changes nothing.
    pub open spec fn with_setting(self, setting: Setting) -> Chip {
        match setting {
            Setting::Gate(gate) => Chip { rcc: self.rcc.with_gate(gate, true), ..self },
            Setting::Pin(port, pin, mode, speed, pull_side) => if pin <= LAST_PIN {
                self.with_port(port, self.port(port).configured(pin, mode, speed, pull_side))
            } else {
                self
            },
            Setting::Controls(line, control3, control1) => self.with_usart(
                line,
                USARTRegisters { control3, control1, ..self.usart(line) },
            ),
        }
    }

    /// The chip with `settings` made one after the other.
    pub open spec fn with_settings(self, settings: Seq<Setting>) -> Chip
        decreases settings.len(),
    {
        if settings.len() == 0 {
            self
        } else {
            self.with_setting(settings[0]).with_settings(settings.drop_first())
        }
    }
}

impl Setting {
    /// The two settings write the same bits: the same gate, the same pin of the
    /// same port, or the control registers of the same line.
    pub open spec fn same_target(self, other: Setting) -> bool {
        match (self, other) {
            (Setting::Gate(a), Setting::Gate(b)) => a.spec_code() == b.spec_code(),
            (Setting::Pin(port, pin, _, _, _), Setting::Pin(other_port, other_pin, _, _, _)) => port
                == other_port && pin == other_pin,
            (Setting::Controls(line, _, _), Setting::Controls(other_line, _, _)) => line
                == other_line,
            _ => false,
        }
    }
}

/// A hardware object that can be brought into service.
///
/// `init` first initializes what the peripheral depends on, in the order the
/// peripheral declares, and stops at the first of them that fails, leaving what
/// the earlier ones wrote. Only then does it write its own registers. What it
/// writes and what it reports follow from the handle alone.
pub trait Peripheral {
    /// What `init` sets in the registers, in order.
    spec fn init_settings(&self) -> Seq<Setting>;

    /// What `init` reports.
    spec fn init_result(&self) -> Result<(), InitError>;

    /// Brings the peripheral, and what it depends on, into service.
    fn init(&self, chip: &mut Chip) -> (result: Result<(), InitError>)
        ensures
            *final(chip) == old(chip).with_settings(self.init_settings()),
            result == self.init_result(),
    ;
}

/// What an initialization comes to: the settings it makes, in order, and what
/// it reports.
pub struct Course {
    pub settings: Seq<Setting>,
    pub result: Result<(), InitError>,
}

impl Course {
    /// The course that makes no setting and succeeds.
    pub open spec fn nothing() -> Course {
        Course { settings: Seq::empty(), result: Ok(()) }
    }

    /// This course followed by `next`, which is not entered when this one has
    /// failed.
    pub open spec fn followed_by(self, next: Course) -> Course {
        match self.result {
            Ok(()) => Course { settings: self.settings + next.settings, result: next.result },
            Err(_) => self,
        }
    }
}

/// The course of initializing `peripheral`.
pub open spec fn course_of<P: Peripheral>(peripheral: &P) -> Course {
    Course { settings: peripheral.init_settings(), result: peripheral.init_result() }
}

/// The course of initializing a peripheral that may be absent: nothing is done
/// for an absent one, and that is no failure.
pub open spec fn optional_course<P: Peripheral>(peripheral: Option<&P>) -> Course {
    match peripheral {
        Some(peripheral) => course_of(peripheral),
        None => Course::nothing(),
    }
}

/// Initializes `peripheral` where there is one.
pub fn init_optional<P: Peripheral>(peripheral: Option<&P>, chip: &mut Chip) -> (result: Result<
    (),
    InitError,
>)
    ensures
        *final(chip) == old(chip).with_settings(optional_course(peripheral).settings),
        result == optional_course(peripheral).result,
{
    match peripheral {
        Some(peripheral) => peripheral.init(chip),
        None => Ok(()),
    }
}

/// Making the settings `first` and then the settings `second` is making the
/// settings of the two lists put together.
pub proof fn lemma_settings_in_a_row(chip: Chip, first: Seq<Setting>, second: Seq<Setting>)
    ensures
        chip.with_settings(first + second) == chip.with_settings(first).with_settings(second),
    decreases first.len(),
{
    if first.len() == 0 {
        assert(first + second =~= second);
    } else {
        assert((first + second).drop_first() =~= first.drop_first() + second);
        lemma_settings_in_a_row(chip.with_setting(first[0]), first.drop_first(), second);
    }
}

/// A list of one setting makes that setting.
pub proof fn lemma_single_setting(chip: Chip, setting: Setting)
    ensures
        chip.with_settings(seq![setting]) == chip.with_setting(setting),
{
    let settings = seq![setting];
    assert(settings.drop_first().len() == 0);
    assert(chip.with_setting(settings[0]).with_settings(settings.drop_first()) == chip.with_setting(
        setting,
    ));
}

/// A setting made after another on the same target leaves nothing of the
/// first.
proof fn lemma_later_setting_wins(chip: Chip, first: Setting, second: Setting)
    requires
        first.same_target(second),
    ensures
        chip.with_setting(first).with_setting(second) == chip.with_setting(second),
{
    match (first, second) {
        (Setting::Gate(a), Setting::Gate(b)) => {
            lemma_update_overrides(chip.rcc.enable(a.bus()), a.mask(), b.mask(), a.mask());
        },
        (
            Setting::Pin(port, pin, mode, speed, pull_side),
            Setting::Pin(_, _, other_mode, other_speed, other_pull_side),
        ) => {
            if pin <= LAST_PIN {
                let registers = chip.port(port);
                let one = pin_mask(pin);
                let pair = pair_shift(pin);
                let nibble = nibble_shift(pin);
                lemma_update_overrides16(
                    registers.output_type,
                    mode.output_type() << pin,
                    other_mode.output_type() << pin,
                    one,
                );
                lemma_update_overrides(
                    registers.output_speed,
                    speed.code() << pair,
                    other_speed.code() << pair,
                    3u32 << pair,
                );
                lemma_update_overrides(
                    registers.pu_pd,
                    pull_side.code() << pair,
                    other_pull_side.code() << pair,
                    3u32 << pair,
                );
                lemma_update_overrides16(registers.output_data, if mode.level() {
                    one
                } else {
                    0
                }, if other_mode.level() {
                    one
                } else {
                    0
                }, one);
                lemma_update_overrides(
                    registers.alternate_function_low,
                    mode.function() << nibble,
                    other_mode.function() << nibble,
                    0xFu32 << nibble,
                );
                lemma_update_overrides(
                    registers.alternate_function_high,
                    mode.function() << nibble,
                    other_mode.function() << nibble,
                    0xFu32 << nibble,
                );
                lemma_update_overrides(
                    registers.mode,
                    mode.code() << pair,
                    other_mode.code() << pair,
                    3u32 << pair,
                );
            }
        },
        _ => {},
    }
}

proof fn lemma_gates_commute(rcc: RCCRegisters, gate: Clock, other: Clock)
    requires
        gate.spec_code() != other.spec_code(),
    ensures
        rcc.with_gate(gate, true).with_gate(other, true) == rcc.with_gate(other, true).with_gate(
            gate,
            true,
        ),
{
    if gate.bus() == other.bus() {
        lemma_gate_masks_disjoint(gate.bit(), other.bit());
        lemma_update_disjoint(
            rcc.enable(gate.bus()),
            gate.mask(),
            gate.mask(),
            other.mask(),
            other.mask(),
        );
    }
}

proof fn lemma_pins_commute(
    registers: PortRegisters,
    pin: u32,
    mode: Mode,
    speed: Frequency,
    pull_side: PullSide,
    other_pin: u32,
    other_mode: Mode,
    other_speed: Frequency,
    other_pull_side: PullSide,
)
    requires
        pin <= LAST_PIN,
        other_pin <= LAST_PIN,
        pin != other_pin,
    ensures
        registers.configured(pin, mode, speed, pull_side).configured(
            other_pin,
            other_mode,
            other_speed,
            other_pull_side,
        ) == registers.configured(other_pin, other_mode, other_speed, other_pull_side).configured(
            pin,
            mode,
            speed,
            pull_side,
        ),
{
    let one = pin_mask(pin);
    let pair = pair_shift(pin);
    let nibble = nibble_shift(pin);
    let other_one = pin_mask(other_pin);
    let other_pair = pair_shift(other_pin);
    let other_nibble = nibble_shift(other_pin);
    lemma_pin_masks_disjoint(pin, other_pin);
    lemma_update_disjoint16(
        registers.output_type,
        mode.output_type() << pin,
        one,
        other_mode.output_type() << other_pin,
        other_one,
    );
    lemma_update_disjoint(
        registers.output_speed,
        speed.code() << pair,
        3u32 << pair,
        other_speed.code() << other_pair,
        3u32 << other_pair,
    );
    lemma_update_disjoint(
        registers.pu_pd,
        pull_side.code() << pair,
        3u32 << pair,
        other_pull_side.code() << other_pair,
        3u32 << other_pair,
    );
    lemma_update_disjoint16(registers.output_data, if mode.level() {
        one
    } else {
        0
    }, one, if other_mode.level() {
        other_one
    } else {
        0
    }, other_one);
    if (pin < 8) == (other_pin < 8) {
        lemma_update_disjoint(
            registers.alternate_function_low,
            mode.function() << nibble,
            0xFu32 << nibble,
            other_mode.function() << other_nibble,
            0xFu32 << other_nibble,
        );
        lemma_update_disjoint(
            registers.alternate_function_high,
            mode.function() << nibble,
            0xFu32 << nibble,
            other_mode.function() << other_nibble,
            0xFu32 << other_nibble,
        );
    }
    lemma_update_disjoint(
        registers.mode,
        mode.code() << pair,
        3u32 << pair,
        other_mode.code() << other_pair,
        3u32 << other_pair,
    );
}

proof fn lemma_ports_apart(
    chip: Chip,
    port: Port,
    registers: PortRegisters,
    other: Port,
    other_registers: PortRegisters,
)
    requires
        port != other,
    ensures
        chip.with_port(port, registers).port(other) == chip.port(other),
        chip.with_port(port, registers).with_port(other, other_registers) == chip.with_port(
            other,
            other_registers,
        ).with_port(port, registers),
{
}

proof fn lemma_port_replaced(chip: Chip, port: Port, first: PortRegisters, second: PortRegisters)
    ensures
        chip.with_port(port, first).port(port) == first,
        chip.with_port(port, first).with_port(port, second) == chip.with_port(port, second),
{
}

proof fn lemma_pin_settings_commute(
    chip: Chip,
    port: Port,
    pin: u32,
    mode: Mode,
    speed: Frequency,
    pull_side: PullSide,
    other_port: Port,
    other_pin: u32,
    other_mode: Mode,
    other_speed: Frequency,
    other_pull_side: PullSide,
)
    requires
        port != other_port || pin != other_pin,
    ensures
        chip.with_setting(Setting::Pin(port, pin, mode, speed, pull_side)).with_setting(
            Setting::Pin(other_port, other_pin, other_mode, other_speed, other_pull_side),
        ) == chip.with_setting(
            Setting::Pin(other_port, other_pin, other_mode, other_speed, other_pull_side),
        ).with_setting(Setting::Pin(port, pin, mode, speed, pull_side)),
{
    if pin <= LAST_PIN && other_pin <= LAST_PIN {
        let first = chip.port(port).configured(pin, mode, speed, pull_side);
        let second = chip.port(other_port).configured(
            other_pin,
            other_mode,
            other_speed,
            other_pull_side,
        );
        if port == other_port {
            lemma_pins_commute(
                chip.port(port),
                pin,
                mode,
                speed,
                pull_side,
                other_pin,
                other_mode,
                other_speed,
                other_pull_side,
            );
            lemma_port_replaced(
                chip,
                port,
                first,
                first.configured(other_pin, other_mode, other_speed, other_pull_side),
            );
            lemma_port_replaced(
                chip,
                port,
                second,
                second.configured(pin, mode, speed, pull_side),
            );
        } else {
            lemma_ports_apart(chip, port, first, other_port, second);
            lemma_ports_apart(chip, other_port, second, port, first);
        }
    }
}

proof fn lemma_gate_commutes(chip: Chip, gate: Clock, other: Setting)
    requires
        !(other is Gate),
    ensures
        chip.with_setting(Setting::Gate(gate)).with_setting(other) == chip.with_setting(
            other,
        ).with_setting(Setting::Gate(gate)),
{
}

proof fn lemma_controls_commute(chip: Chip, line: Line, control3: u16, control1: u16, other: Setting)
    requires
        !Setting::Controls(line, control3, control1).same_target(other),
        !(other is Gate),
    ensures
        chip.with_setting(Setting::Controls(line, control3, control1)).with_setting(other)
            == chip.with_setting(other).with_setting(Setting::Controls(line, control3, control1)),
{
}

/// Settings on different targets can be made in either order.
proof fn lemma_settings_commute(chip: Chip, first: Setting, second: Setting)
    requires
        !first.same_target(second),
    ensures
        chip.with_setting(first).with_setting(second) == chip.with_setting(second).with_setting(
            first,
        ),
{
    match first {
        Setting::Gate(gate) => match second {
            Setting::Gate(other) => {
                lemma_gates_commute(chip.rcc, gate, other);
            },
            _ => {
                lemma_gate_commutes(chip, gate, second);
            },
        },
        Setting::Pin(port, pin, mode, speed, pull_side) => match second {
            Setting::Gate(other) => {
                lemma_gate_commutes(chip, other, first);
            },
            Setting::Pin(other_port, other_pin, other_mode, other_speed, other_pull_side) => {
                lemma_pin_settings_commute(
                    chip,
                    port,
                    pin,
                    mode,
                    speed,
                    pull_side,
                    other_port,
                    other_pin,
                    other_mode,
                    other_speed,
                    other_pull_side,
                );
            },
            Setting::Controls(line, control3, control1) => {
                lemma_controls_commute(chip, line, control3, control1, first);
            },
        },
        Setting::Controls(line, control3, control1) => match second {
            Setting::Gate(other) => {
                lemma_gate_commutes(chip, other, first);
            },
            _ => {
                lemma_controls_commute(chip, line, control3, control1, second);
            },
        },
    }
}

proof fn lemma_gate_masks_disjoint(bit: u32, other: u32)
    by (bit_vector)
    requires
        bit < 32,
        other < 32,
        bit != other,
    ensures
        (1u32 << bit) & (1u32 << other) == 0,
{
}

proof fn lemma_pin_masks_disjoint(pin: u32, other: u32)
    by (bit_vector)
    requires
        pin <= 15,
        other <= 15,
        pin != other,
    ensures
        (1u16 << pin) & (1u16 << other) == 0,
        (3u32 << ((pin * 2) as u32)) & (3u32 << ((other * 2) as u32)) == 0,
        (pin < 8) == (other < 8) ==> (0xFu32 << (((pin * 4) % 32) as u32)) & (0xFu32 << (((other
            * 4) % 32) as u32)) == 0,
{
}

/// A setting made before a list that holds a setting on the same target leaves
/// no trace.
proof fn lemma_setting_is_overwritten(chip: Chip, setting: Setting, settings: Seq<Setting>, at: int)
    requires
        0 <= at < settings.len(),
        setting.same_target(settings[at]),
    ensures
        chip.with_setting(setting).with_settings(settings) == chip.with_settings(settings),
    decreases settings.len(),
{
    let head = settings[0];
    let rest = settings.drop_first();
    if setting.same_target(head) {
        lemma_later_setting_wins(chip, setting, head);
    } else {
        lemma_settings_commute(chip, setting, head);
        lemma_setting_is_overwritten(chip.with_setting(head), setting, rest, at - 1);
    }
}

proof fn lemma_prefix_is_overwritten(chip: Chip, settings: Seq<Setting>, count: int)
    requires
        0 <= count <= settings.len(),
    ensures
        chip.with_settings(settings.take(count)).with_settings(settings) == chip.with_settings(
            settings,
        ),
    decreases count,
{
    if count == 0 {
        assert(settings.take(0).len() == 0);
    } else {
        let shorter = settings.take(count - 1);
        let last = settings[count - 1];
        assert(settings.take(count) =~= shorter + seq![last]);
        lemma_settings_in_a_row(chip, shorter, seq![last]);
        lemma_single_setting(chip.with_settings(shorter), last);
        lemma_setting_is_overwritten(chip.with_settings(shorter), last, settings, count - 1);
        lemma_prefix_is_overwritten(chip, settings, count - 1);
    }
}

/// Making a list of settings a second time changes nothing.
pub proof fn lemma_settings_twice(chip: Chip, settings: Seq<Setting>)
    ensures
        chip.with_settings(settings).with_settings(settings) == chip.with_settings(settings),
{
    assert(settings.take(settings.len() as int) =~= settings);
    lemma_prefix_is_overwritten(chip, settings, settings.len() as int);
}

/// The chip after `peripheral` has been initialized `times` times in a row,
/// the first time on `chip`.
pub open spec fn initialized_times<P: Peripheral>(peripheral: &P, chip: Chip, times: nat) -> Chip
    decreases times,
{
    if times == 0 {
        chip
    } else {
        initialized_times(peripheral, chip, (times - 1) as nat).with_settings(
            peripheral.init_settings(),
        )
    }
}

/// However often a peripheral is initialized, the chip ends as one
/// initialization leaves it. Every call reports the same, since what `init`
/// reports does not depend on the chip.
pub proof fn lemma_init_is_idempotent<P: Peripheral>(peripheral: &P, chip: Chip, times: nat)
    requires
        times >= 1,
    ensures
        initialized_times(peripheral, chip, times) == chip.with_settings(
            peripheral.init_settings(),
        ),
    decreases times,
{
    if times > 1 {
        lemma_init_is_idempotent(peripheral, chip, (times - 1) as nat);
        lemma_settings_twice(chip, peripheral.init_settings());
    } else {
        assert(initialized_times(peripheral, chip, 0) == chip);
    }
}

} // verus!
