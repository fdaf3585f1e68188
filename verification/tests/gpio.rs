use stm32f2_hal::chip::{Chip, Port};
use stm32f2_hal::gpio::{
    AlternateFunction, Frequency, In, Mode, Out, OutputType, PinPeripheral, PortPeripheral,
    PortRegisters, PullSide,
};
use stm32f2_hal::peripheral::{InitError, Peripheral};
use stm32f2_hal::rcc::{Clock, RCCPeripheral};

fn port_a() -> PortPeripheral {
    PortPeripheral { port: Port::A, clock: RCCPeripheral { clock: Clock::GPIOA } }
}

fn port_b() -> PortPeripheral {
    PortPeripheral { port: Port::B, clock: RCCPeripheral { clock: Clock::GPIOB } }
}

#[test]
fn port_init_opens_its_clock_gate() {
    let mut chip = Chip::default();
    assert_eq!(port_b().init(&mut chip), Ok(()));
    assert_eq!(chip.rcc.ahb1_clock_enable, 0x0000_0002);
    let mut expected = Chip::default();
    expected.rcc.ahb1_clock_enable = 0x0000_0002;
    assert_eq!(chip, expected);
}

#[test]
fn output_pin_is_set_up_in_every_register() {
    let port = port_a();
    let pin = PinPeripheral {
        port: &port,
        pin: 5,
        mode: Mode::Out(OutputType::PushPull, true),
        speed: Frequency::F50MHz,
        pull_side: PullSide::Up,
    };
    let mut chip = Chip::default();
    assert_eq!(pin.init(&mut chip), Ok(()));

    let mut expected = Chip::default();
    expected.rcc.ahb1_clock_enable = 0x0000_0001;
    expected.gpioa = PortRegisters {
        mode: 0x0000_0400,
        output_type: 0x0000,
        output_speed: 0x0000_0800,
        pu_pd: 0x0000_0400,
        output_data: 0x0020,
        ..PortRegisters::default()
    };
    assert_eq!(chip, expected);
}

#[test]
fn alternate_function_of_a_high_pin_goes_to_the_high_register() {
    let port = port_b();
    let pin = PinPeripheral {
        port: &port,
        pin: 10,
        mode: Mode::AlternateFunction(AlternateFunction::AF7, OutputType::OpenDrain),
        speed: Frequency::F100MHz,
        pull_side: PullSide::NoPull,
    };
    let mut chip = Chip::default();
    assert_eq!(pin.init(&mut chip), Ok(()));

    let mut expected = Chip::default();
    expected.rcc.ahb1_clock_enable = 0x0000_0002;
    expected.gpiob = PortRegisters {
        mode: 0x0020_0000,
        output_type: 0x0400,
        output_speed: 0x0030_0000,
        alternate_function_high: 0x0000_0700,
        ..PortRegisters::default()
    };
    assert_eq!(chip, expected);
}

#[test]
fn alternate_function_of_a_low_pin_goes_to_the_low_register() {
    let port = port_a();
    let pin = PinPeripheral {
        port: &port,
        pin: 7,
        mode: Mode::AlternateFunction(AlternateFunction::AF15, OutputType::PushPull),
        speed: Frequency::F20MHz,
        pull_side: PullSide::Both,
    };
    let mut chip = Chip::default();
    assert_eq!(pin.init(&mut chip), Ok(()));
    assert_eq!(chip.gpioa.alternate_function_low, 0xF000_0000);
    assert_eq!(chip.gpioa.alternate_function_high, 0);
    assert_eq!(chip.gpioa.mode, 0x0000_8000);
    assert_eq!(chip.gpioa.output_speed, 0x0000_4000);
    assert_eq!(chip.gpioa.pu_pd, 0x0000_C000);
}

#[test]
fn setting_a_pin_up_leaves_the_other_pins_alone() {
    let port = port_a();
    let pin = PinPeripheral {
        port: &port,
        pin: 3,
        mode: Mode::In,
        speed: Frequency::F2MHz,
        pull_side: PullSide::Down,
    };
    let mut chip = Chip::default();
    chip.gpioa = PortRegisters {
        mode: 0xFFFF_FFFF,
        output_type: 0xFFFF,
        output_speed: 0xFFFF_FFFF,
        pu_pd: 0xFFFF_FFFF,
        input_data: 0x1234,
        output_data: 0xFFFF,
        bit_set: 0,
        bit_reset: 0,
        lock: 0x00FF,
        lock_key: 1,
        alternate_function_low: 0xFFFF_FFFF,
        alternate_function_high: 0xFFFF_FFFF,
    };
    assert_eq!(pin.init(&mut chip), Ok(()));
    assert_eq!(
        chip.gpioa,
        PortRegisters {
            mode: 0xFFFF_FF3F,
            output_type: 0xFFF7,
            output_speed: 0xFFFF_FF3F,
            pu_pd: 0xFFFF_FFBF,
            input_data: 0x1234,
            output_data: 0xFFF7,
            bit_set: 0,
            bit_reset: 0,
            lock: 0x00FF,
            lock_key: 1,
            alternate_function_low: 0xFFFF_0FFF,
            alternate_function_high: 0xFFFF_FFFF,
        }
    );
}

#[test]
fn analog_pin_15_uses_the_top_fields() {
    let port = port_a();
    let pin = PinPeripheral {
        port: &port,
        pin: 15,
        mode: Mode::Analog,
        speed: Frequency::F100MHz,
        pull_side: PullSide::Up,
    };
    let mut chip = Chip::default();
    assert_eq!(pin.init(&mut chip), Ok(()));
    assert_eq!(chip.gpioa.mode, 0xC000_0000);
    assert_eq!(chip.gpioa.output_speed, 0xC000_0000);
    assert_eq!(chip.gpioa.pu_pd, 0x4000_0000);
    assert_eq!(chip.gpioa.output_type, 0);
    assert_eq!(chip.gpioa.alternate_function_high, 0);
}

#[test]
fn pin_number_above_15_is_refused_before_anything_is_written() {
    let port = port_a();
    for number in [16u32, 17, 31, 32, u32::MAX] {
        let pin = PinPeripheral {
            port: &port,
            pin: number,
            mode: Mode::Out(OutputType::OpenDrain, true),
            speed: Frequency::F100MHz,
            pull_side: PullSide::Both,
        };
        let mut chip = Chip::default();
        assert_eq!(pin.init(&mut chip), Err(InitError::InvalidPin));
        assert_eq!(chip, Chip::default());
    }
    assert_eq!(InitError::InvalidPin.message(), "Invalid pin number");
}

#[test]
fn init_again_changes_nothing() {
    let port = port_b();
    let pin = PinPeripheral {
        port: &port,
        pin: 9,
        mode: Mode::AlternateFunction(AlternateFunction::AF4, OutputType::OpenDrain),
        speed: Frequency::F50MHz,
        pull_side: PullSide::Up,
    };
    let mut chip = Chip::default();
    chip.gpiob.mode = 0x5555_5555;
    chip.gpiob.alternate_function_high = 0x1234_5678;
    assert_eq!(pin.init(&mut chip), Ok(()));
    let once = chip;
    for _ in 0..5 {
        assert_eq!(pin.init(&mut chip), Ok(()));
        assert_eq!(chip, once);
    }
}

#[test]
fn pins_that_share_a_port_can_be_set_up_in_any_order() {
    let port = port_a();
    let tx = PinPeripheral {
        port: &port,
        pin: 2,
        mode: Mode::AlternateFunction(AlternateFunction::AF7, OutputType::PushPull),
        speed: Frequency::F50MHz,
        pull_side: PullSide::NoPull,
    };
    let rx = PinPeripheral {
        port: &port,
        pin: 3,
        mode: Mode::AlternateFunction(AlternateFunction::AF7, OutputType::PushPull),
        speed: Frequency::F50MHz,
        pull_side: PullSide::Up,
    };
    let mut one = Chip::default();
    tx.init(&mut one).unwrap();
    rx.init(&mut one).unwrap();
    let mut other = Chip::default();
    rx.init(&mut other).unwrap();
    tx.init(&mut other).unwrap();
    assert_eq!(one, other);
    assert_eq!(one.gpioa.mode, 0x0000_00A0);
    assert_eq!(one.gpioa.alternate_function_low, 0x0000_7700);
    assert_eq!(one.gpioa.output_speed, 0x0000_00A0);
    assert_eq!(one.gpioa.pu_pd, 0x0000_0040);
    assert_eq!(one.rcc.ahb1_clock_enable, 0x0000_0001);
}

#[test]
fn output_follows_what_is_written_to_it() {
    let port = port_a();
    let pin = PinPeripheral {
        port: &port,
        pin: 12,
        mode: Mode::Out(OutputType::PushPull, false),
        speed: Frequency::F2MHz,
        pull_side: PullSide::NoPull,
    };
    let mut chip = Chip::default();
    let mut out = match Out::from(&pin, &mut chip) {
        Ok(out) => out,
        Err(_) => panic!("a valid pin was refused"),
    };
    assert_eq!(chip.gpioa.mode, 0x0100_0000);
    assert!(!out.get_command(&chip));

    assert!(out.write(&mut chip, true));
    assert_eq!(chip.gpioa.bit_set, 0x1000);
    assert_eq!(chip.gpioa.output_data, 0x1000);
    assert!(out.get_command(&chip));

    assert!(!out.write(&mut chip, false));
    assert_eq!(chip.gpioa.bit_reset, 0x1000);
    assert_eq!(chip.gpioa.output_data, 0x0000);
    assert!(!out.get_command(&chip));
}

#[test]
fn output_leaves_the_other_pins_of_the_port_alone() {
    let port = port_a();
    let pin = PinPeripheral {
        port: &port,
        pin: 0,
        mode: Mode::Out(OutputType::PushPull, true),
        speed: Frequency::F2MHz,
        pull_side: PullSide::NoPull,
    };
    let mut chip = Chip::default();
    chip.gpioa.output_data = 0xAAAA;
    let mut out = match Out::from(&pin, &mut chip) {
        Ok(out) => out,
        Err(_) => panic!("a valid pin was refused"),
    };
    assert_eq!(chip.gpioa.output_data, 0xAAAB);
    assert!(!out.write(&mut chip, false));
    assert_eq!(chip.gpioa.output_data, 0xAAAA);
}

#[test]
fn output_is_not_handed_out_for_a_pin_that_does_not_exist() {
    let port = port_a();
    let pin = PinPeripheral {
        port: &port,
        pin: 16,
        mode: Mode::Out(OutputType::PushPull, false),
        speed: Frequency::F2MHz,
        pull_side: PullSide::NoPull,
    };
    let mut chip = Chip::default();
    assert!(matches!(Out::from(&pin, &mut chip), Err(InitError::InvalidPin)));
    assert!(matches!(In::from(&pin, &mut chip), Err(InitError::InvalidPin)));
    assert_eq!(chip, Chip::default());
}

#[test]
fn input_reads_the_level_at_its_pin() {
    let port = port_b();
    let pin = PinPeripheral {
        port: &port,
        pin: 5,
        mode: Mode::In,
        speed: Frequency::F2MHz,
        pull_side: PullSide::Up,
    };
    let mut chip = Chip::default();
    let input = match In::from(&pin, &mut chip) {
        Ok(input) => input,
        Err(_) => panic!("a valid pin was refused"),
    };
    assert_eq!(chip.gpiob.pu_pd, 0x0000_0400);
    assert!(!input.read(&chip));
    chip.gpiob.input_data = 0x0020;
    assert!(input.read(&chip));
    chip.gpiob.input_data = 0xFFDF;
    assert!(!input.read(&chip));
    chip.gpioa.input_data = 0x0020;
    assert!(!input.read(&chip));
}
