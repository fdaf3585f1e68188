use std::cell::Cell;

use stm32f2_hal::flash::FlashRegisters;
use stm32f2_hal::rcc::{
    resolve, system_init, wait_for, CFGR_HPrescaler, CFGR_PPrescaler1, CFGR_PPrescaler2, Clock,
    ClockBringUp, ClockError, ClockSelection, ClockTree, Phase, Progress, RCCPeripheral,
    RCCRegisters, PLL, WAIT_BUDGET,
};
use stm32f2_hal::ErrorKind;

const HSIRDY: u32 = 0x0000_0002;
const HSERDY: u32 = 0x0002_0000;
const PLLRDY: u32 = 0x0200_0000;
const SWS_HSI: u32 = 0x0;
const SWS_HSE: u32 = 0x4;
const SWS_PLL: u32 = 0x8;

/// Registers of hardware that reports every stage ready and the system clock
/// running from the source behind `status`.
fn ready(status: u32) -> RCCRegisters {
    let mut rcc = RCCRegisters::default();
    rcc.control = HSIRDY | HSERDY | PLLRDY;
    rcc.config = status;
    rcc
}

fn configure(
    rcc: &mut RCCRegisters,
    clksrc: ClockSelection,
    pll: PLL,
) -> (Result<u32, ClockError>, FlashRegisters, ClockTree) {
    let mut flash = FlashRegisters::default();
    let mut tree = ClockTree::new();
    let result = system_init(
        rcc,
        &mut flash,
        &mut tree,
        clksrc,
        pll,
        CFGR_HPrescaler::Div1,
        CFGR_PPrescaler1::Div1,
        CFGR_PPrescaler2::Div1,
    );
    (result, flash, tree)
}

#[test]
fn resolve_gives_the_frequency_of_the_pll_output() {
    assert_eq!(
        resolve(ClockSelection::HSE(8_000_000), PLL::On(8, 336, 4, 7)),
        Ok(84_000_000)
    );
}

#[test]
fn resolve_without_pll_gives_the_oscillator() {
    assert_eq!(resolve(ClockSelection::HSI, PLL::Off), Ok(16_000_000));
    assert_eq!(resolve(ClockSelection::HSE(4_000_000), PLL::Off), Ok(4_000_000));
    assert_eq!(resolve(ClockSelection::HSE(26_000_000), PLL::Off), Ok(26_000_000));
}

#[test]
fn resolve_divides_before_it_multiplies() {
    // 25 MHz / 13 = 1_923_076 Hz; times 100 = 192_307_600 Hz; / 2 = 96_153_800 Hz
    assert_eq!(
        resolve(ClockSelection::HSE(25_000_000), PLL::On(13, 100, 2, 5)),
        Ok(96_153_800)
    );
}

#[test]
fn external_oscillator_and_pll_bring_the_tree_to_84_mhz() {
    let mut rcc = ready(SWS_PLL);
    let mut flash = FlashRegisters::default();
    let mut tree = ClockTree::new();
    let result = system_init(
        &mut rcc,
        &mut flash,
        &mut tree,
        ClockSelection::HSE(8_000_000),
        PLL::On(8, 336, 4, 7),
        CFGR_HPrescaler::Div1,
        CFGR_PPrescaler1::Div4,
        CFGR_PPrescaler2::Div2,
    );
    assert_eq!(result, Ok(84_000_000));
    assert_eq!(tree.sysclock(), Some(84_000_000));
    assert_eq!(rcc.control, 0x0303_0003);
    assert_eq!(rcc.pll_config, 0x0741_5408);
    assert_eq!(rcc.config, 0x0000_940A);
    assert_eq!(rcc.clock_interrupt, 0);
    assert_eq!(flash.access_control, 0x0000_0703);

    let apb1 = RCCPeripheral { clock: Clock::USART2 };
    let apb2 = RCCPeripheral { clock: Clock::USART1 };
    let ahb = RCCPeripheral { clock: Clock::GPIOA };
    assert_eq!(apb1.get_clock(&tree, &rcc), Some(21_000_000));
    assert_eq!(apb2.get_clock(&tree, &rcc), Some(42_000_000));
    assert_eq!(ahb.get_clock(&tree, &rcc), Some(84_000_000));
}

#[test]
fn input_divider_of_one_is_refused_and_nothing_is_written() {
    let before = ready(SWS_PLL);
    let mut rcc = before;
    let (result, flash, tree) =
        configure(&mut rcc, ClockSelection::HSE(8_000_000), PLL::On(1, 336, 4, 7));
    assert_eq!(result, Err(ClockError::DividerTooSmall));
    assert_eq!(result.unwrap_err().kind(), ErrorKind::Validation);
    assert_eq!(rcc, before);
    assert_eq!(flash, FlashRegisters::default());
    assert_eq!(tree.sysclock(), None);
}

#[test]
fn vco_outside_its_range_is_refused_and_nothing_is_written() {
    for n in [2u16, 100, 191, 433, 500, 65_535] {
        let before = ready(SWS_PLL);
        let mut rcc = before;
        let (result, flash, tree) =
            configure(&mut rcc, ClockSelection::HSE(8_000_000), PLL::On(8, n, 4, 7));
        assert_eq!(result, Err(ClockError::VcoOutOfRange));
        assert_eq!(result.unwrap_err().kind(), ErrorKind::Validation);
        assert_eq!(rcc, before);
        assert_eq!(flash, FlashRegisters::default());
        assert_eq!(tree.sysclock(), None);
    }
}

#[test]
fn vco_at_the_ends_of_its_range_is_accepted() {
    assert_eq!(
        resolve(ClockSelection::HSE(8_000_000), PLL::On(8, 192, 2, 4)),
        Ok(96_000_000)
    );
    assert_eq!(
        resolve(ClockSelection::HSE(8_000_000), PLL::On(8, 432, 4, 9)),
        Ok(108_000_000)
    );
}

#[test]
fn each_rule_has_its_error() {
    let hse = ClockSelection::HSE(8_000_000);
    assert_eq!(
        resolve(ClockSelection::HSE(3_999_999), PLL::Off),
        Err(ClockError::OscillatorOutOfRange)
    );
    assert_eq!(
        resolve(ClockSelection::HSE(26_000_001), PLL::Off),
        Err(ClockError::OscillatorOutOfRange)
    );
    assert_eq!(resolve(hse, PLL::On(8, 1, 4, 7)), Err(ClockError::DividerTooSmall));
    assert_eq!(resolve(hse, PLL::On(8, 336, 4, 1)), Err(ClockError::DividerTooSmall));
    assert_eq!(resolve(hse, PLL::On(0, 336, 4, 7)), Err(ClockError::DividerTooSmall));
    assert_eq!(resolve(hse, PLL::On(8, 336, 3, 7)), Err(ClockError::OutputDividerIllegal));
    assert_eq!(resolve(hse, PLL::On(8, 336, 0, 7)), Err(ClockError::OutputDividerIllegal));
    assert_eq!(resolve(hse, PLL::On(8, 336, 10, 7)), Err(ClockError::OutputDividerIllegal));
    assert_eq!(resolve(hse, PLL::On(2, 336, 4, 7)), Err(ClockError::PllInputOutOfRange));
    assert_eq!(resolve(hse, PLL::On(9, 336, 4, 7)), Err(ClockError::PllInputOutOfRange));
    assert_eq!(resolve(hse, PLL::On(8, 191, 4, 7)), Err(ClockError::VcoOutOfRange));
    assert_eq!(resolve(hse, PLL::On(8, 336, 2, 7)), Err(ClockError::PllOutputTooHigh));
    assert_eq!(resolve(hse, PLL::On(8, 336, 4, 6)), Err(ClockError::UsbClockTooHigh));
}

#[test]
fn the_first_rule_broken_is_the_one_reported() {
    // the oscillator counts before the PLL
    assert_eq!(
        resolve(ClockSelection::HSE(1), PLL::On(1, 1, 1, 1)),
        Err(ClockError::OscillatorOutOfRange)
    );
    // the dividers count before the output divider
    assert_eq!(
        resolve(ClockSelection::HSI, PLL::On(1, 336, 3, 7)),
        Err(ClockError::DividerTooSmall)
    );
    // the main output counts before the auxiliary one
    assert_eq!(
        resolve(ClockSelection::HSE(8_000_000), PLL::On(8, 336, 2, 2)),
        Err(ClockError::PllOutputTooHigh)
    );
}

#[test]
fn internal_oscillator_alone_runs_at_16_mhz() {
    let mut rcc = ready(SWS_HSI);
    let (result, flash, tree) = configure(&mut rcc, ClockSelection::HSI, PLL::Off);
    assert_eq!(result, Ok(16_000_000));
    assert_eq!(tree.sysclock(), Some(16_000_000));
    // the internal oscillator is on, the external one and the PLL are off
    assert_eq!(rcc.control, HSIRDY | HSERDY | PLLRDY | 0x1);
    assert_eq!(rcc.pll_config, 0x2400_3010);
    assert_eq!(rcc.config, 0);
    assert_eq!(flash.access_control, 0x0000_0703);
}

#[test]
fn external_oscillator_alone_switches_to_it() {
    let mut rcc = ready(SWS_HSE);
    let (result, _, tree) = configure(&mut rcc, ClockSelection::HSE(12_000_000), PLL::Off);
    assert_eq!(result, Ok(12_000_000));
    assert_eq!(tree.sysclock(), Some(12_000_000));
    assert_eq!(rcc.control, HSIRDY | HSERDY | PLLRDY | 0x1_0001);
    assert_eq!(rcc.config, SWS_HSE | 0x1);
}

#[test]
fn reset_clears_what_software_had_set() {
    let mut rcc = ready(SWS_HSI);
    rcc.control |= 0x010D_0000; // external oscillator, bypass, security system and PLL on
    rcc.config |= 0xFFFF_FFF3;
    rcc.pll_config = 0x1234_5678;
    rcc.clock_interrupt = 0x0000_3F00;
    let (result, _, _) = configure(&mut rcc, ClockSelection::HSI, PLL::Off);
    assert_eq!(result, Ok(16_000_000));
    assert_eq!(rcc.control, HSIRDY | HSERDY | PLLRDY | 0x1);
    assert_eq!(rcc.config, 0);
    assert_eq!(rcc.pll_config, 0x2400_3010);
    assert_eq!(rcc.clock_interrupt, 0);
}

#[test]
fn oscillator_that_stays_down_times_out_after_the_first_stage() {
    let mut rcc = RCCRegisters::default();
    rcc.control = HSIRDY;
    let (result, flash, tree) = configure(&mut rcc, ClockSelection::HSE(8_000_000), PLL::Off);
    assert_eq!(result, Err(ClockError::OscillatorNotReady));
    assert_eq!(result.unwrap_err().kind(), ErrorKind::HardwareTimeout);
    assert_eq!(rcc.control, HSIRDY | 0x1_0001);
    assert_eq!(rcc.pll_config, 0x2400_3010);
    assert_eq!(flash, FlashRegisters::default());
    assert_eq!(tree.sysclock(), None);
}

#[test]
fn pll_that_does_not_lock_times_out_after_the_second_stage() {
    let mut rcc = RCCRegisters::default();
    rcc.control = HSIRDY | HSERDY;
    let (result, flash, tree) =
        configure(&mut rcc, ClockSelection::HSE(8_000_000), PLL::On(8, 336, 4, 7));
    assert_eq!(result, Err(ClockError::PllNotReady));
    assert_eq!(result.unwrap_err().kind(), ErrorKind::HardwareTimeout);
    assert_eq!(rcc.control, HSIRDY | HSERDY | 0x0101_0001);
    assert_eq!(rcc.pll_config, 0x0741_5408);
    assert_eq!(rcc.config, 0);
    assert_eq!(flash, FlashRegisters::default());
    assert_eq!(tree.sysclock(), None);
}

#[test]
fn switch_that_is_not_reported_times_out_after_the_third_stage() {
    let mut rcc = ready(SWS_HSI);
    let (result, flash, tree) =
        configure(&mut rcc, ClockSelection::HSE(8_000_000), PLL::On(8, 336, 4, 7));
    assert_eq!(result, Err(ClockError::SwitchNotReady));
    assert_eq!(result.unwrap_err().kind(), ErrorKind::HardwareTimeout);
    assert_eq!(rcc.config, 0x0000_0002);
    assert_eq!(flash.access_control, 0x0000_0703);
    assert_eq!(tree.sysclock(), None);
}

#[test]
fn failed_configuration_keeps_the_frequency_committed_before() {
    let mut rcc = ready(SWS_HSI);
    let mut flash = FlashRegisters::default();
    let mut tree = ClockTree::new();
    let first = system_init(
        &mut rcc,
        &mut flash,
        &mut tree,
        ClockSelection::HSI,
        PLL::Off,
        CFGR_HPrescaler::Div1,
        CFGR_PPrescaler1::Div1,
        CFGR_PPrescaler2::Div1,
    );
    assert_eq!(first, Ok(16_000_000));
    let second = system_init(
        &mut rcc,
        &mut flash,
        &mut tree,
        ClockSelection::HSE(30_000_000),
        PLL::Off,
        CFGR_HPrescaler::Div1,
        CFGR_PPrescaler1::Div1,
        CFGR_PPrescaler2::Div1,
    );
    assert_eq!(second, Err(ClockError::OscillatorOutOfRange));
    assert_eq!(tree.sysclock(), Some(16_000_000));
}

#[test]
fn get_clock_is_unknown_before_configuration() {
    let rcc = RCCRegisters::default();
    let gate = RCCPeripheral { clock: Clock::USART1 };
    assert_eq!(gate.get_clock(&ClockTree::new(), &rcc), None);
}

#[test]
fn get_clock_decodes_every_prescaler() {
    let mut rcc = ready(SWS_PLL);
    let (result, _, tree) =
        configure(&mut rcc, ClockSelection::HSE(8_000_000), PLL::On(8, 336, 4, 7));
    assert_eq!(result, Ok(84_000_000));
    let ahb = RCCPeripheral { clock: Clock::DMA1 };
    let apb1 = RCCPeripheral { clock: Clock::TIM2 };
    let apb2 = RCCPeripheral { clock: Clock::SPI1 };

    let ahb_fields = [
        (0x00u32, 1u32),
        (0x70, 1),
        (0x80, 2),
        (0x90, 4),
        (0xA0, 8),
        (0xB0, 16),
        (0xC0, 64),
        (0xD0, 128),
        (0xE0, 256),
        (0xF0, 512),
    ];
    for (field, divisor) in ahb_fields {
        rcc.config = field;
        assert_eq!(ahb.get_clock(&tree, &rcc), Some(84_000_000 / divisor));
        assert_eq!(apb1.get_clock(&tree, &rcc), Some(84_000_000 / divisor));
    }
    let apb_fields = [(0u32, 1u32), (3, 1), (4, 2), (5, 4), (6, 8), (7, 16)];
    for (field, divisor) in apb_fields {
        rcc.config = 0x90 | (field << 10);
        assert_eq!(apb1.get_clock(&tree, &rcc), Some(21_000_000 / divisor));
        assert_eq!(apb2.get_clock(&tree, &rcc), Some(21_000_000));
        assert_eq!(ahb.get_clock(&tree, &rcc), Some(21_000_000));
        rcc.config = 0x90 | (field << 13);
        assert_eq!(apb2.get_clock(&tree, &rcc), Some(21_000_000 / divisor));
        assert_eq!(apb1.get_clock(&tree, &rcc), Some(21_000_000));
    }
}

#[test]
fn get_clock_gives_the_same_answer_whatever_came_between() {
    let mut rcc = ready(SWS_PLL);
    let mut flash = FlashRegisters::default();
    let mut tree = ClockTree::new();
    system_init(
        &mut rcc,
        &mut flash,
        &mut tree,
        ClockSelection::HSE(8_000_000),
        PLL::On(8, 336, 4, 7),
        CFGR_HPrescaler::Div2,
        CFGR_PPrescaler1::Div8,
        CFGR_PPrescaler2::Div16,
    )
    .unwrap();
    let usart2 = RCCPeripheral { clock: Clock::USART2 };
    let usart1 = RCCPeripheral { clock: Clock::USART1 };
    let first = usart2.get_clock(&tree, &rcc);
    let other = usart1.get_clock(&tree, &rcc);
    // opening gates and touching bits outside the prescalers changes nothing
    usart1.set_clock(&mut rcc, true);
    usart2.set_clock(&mut rcc, true);
    rcc.config |= 0xFFFF_0000;
    assert_eq!(usart2.get_clock(&tree, &rcc), first);
    assert_eq!(usart1.get_clock(&tree, &rcc), other);
    assert_eq!(RCCPeripheral { clock: Clock::TIM7 }.get_clock(&tree, &rcc), first);
    assert_eq!(first, Some(5_250_000));
    assert_eq!(other, Some(2_625_000));
}

#[test]
fn set_clock_touches_the_bit_of_its_gate_only() {
    let mut rcc = RCCRegisters::default();
    rcc.apb1_clock_enable = 0x0000_0001;
    let usart2 = RCCPeripheral { clock: Clock::USART2 };
    usart2.set_clock(&mut rcc, true);
    assert_eq!(rcc.apb1_clock_enable, 0x0002_0001);
    assert!(rcc.is_gate_open(Clock::USART2));
    assert!(rcc.is_gate_open(Clock::TIM2));
    assert!(!rcc.is_gate_open(Clock::USART3));
    usart2.set_clock(&mut rcc, true);
    assert_eq!(rcc.apb1_clock_enable, 0x0002_0001);
    usart2.set_clock(&mut rcc, false);
    assert_eq!(rcc.apb1_clock_enable, 0x0000_0001);

    RCCPeripheral { clock: Clock::GPIOI }.set_clock(&mut rcc, true);
    assert_eq!(rcc.ahb1_clock_enable, 0x0000_0100);
    RCCPeripheral { clock: Clock::OTGFS }.set_clock(&mut rcc, true);
    assert_eq!(rcc.ahb2_clock_enable, 0x0000_0080);
    RCCPeripheral { clock: Clock::FSMC }.set_clock(&mut rcc, true);
    assert_eq!(rcc.ahb3_clock_enable, 0x0000_0001);
    RCCPeripheral { clock: Clock::TIM11 }.set_clock(&mut rcc, true);
    assert_eq!(rcc.apb2_clock_enable, 0x0004_0000);
}

#[test]
fn clock_gates_keep_their_codes() {
    assert_eq!(Clock::TIM11.code(), 0x92);
    assert_eq!(Clock::USART1.code(), 0x84);
    assert_eq!(Clock::DAC.code(), 0x7D);
    assert_eq!(Clock::TIM2.code(), 0x60);
    assert_eq!(Clock::FSMC.code(), 0x40);
    assert_eq!(Clock::DCMI.code(), 0x20);
    assert_eq!(Clock::DMA2.code(), 0x16);
    assert_eq!(Clock::GPIOA.code(), 0x00);
    assert_eq!(Clock::USART2.bit(), 17);
    assert_eq!(Clock::USART2.mask(), 0x0002_0000);
}

#[test]
fn wait_for_stops_at_the_first_success() {
    let polls = Cell::new(0u32);
    let status = || {
        polls.set(polls.get() + 1);
        polls.get() == 3
    };
    assert!(wait_for(&status));
    assert_eq!(polls.get(), 3);
}

#[test]
fn wait_for_gives_up_when_its_budget_is_spent() {
    let polls = Cell::new(0u32);
    let status = || {
        polls.set(polls.get() + 1);
        false
    };
    assert!(!wait_for(&status));
    assert_eq!(polls.get(), WAIT_BUDGET);
    assert_eq!(WAIT_BUDGET, 0x500);
}

#[test]
fn wait_for_sees_a_success_at_the_last_poll() {
    let polls = Cell::new(0u32);
    let status = || {
        polls.set(polls.get() + 1);
        polls.get() == WAIT_BUDGET
    };
    assert!(wait_for(&status));
    assert_eq!(polls.get(), WAIT_BUDGET);
}

fn run(
    rcc: &mut RCCRegisters,
    flash: &mut FlashRegisters,
    tree: &mut ClockTree,
    clksrc: ClockSelection,
    pll: PLL,
) -> (Progress, u32) {
    let mut machine = ClockBringUp::new(
        clksrc,
        pll,
        CFGR_HPrescaler::Div1,
        CFGR_PPrescaler1::Div4,
        CFGR_PPrescaler2::Div2,
    )
    .unwrap();
    let mut steps = 0;
    loop {
        steps += 1;
        let progress = machine.step(rcc, flash, tree);
        if progress != Progress::Pending {
            return (progress, steps);
        }
    }
}

#[test]
fn stepping_reaches_what_system_init_reaches() {
    let mut rcc = ready(SWS_PLL);
    let mut flash = FlashRegisters::default();
    let mut tree = ClockTree::new();
    let (progress, steps) = run(
        &mut rcc,
        &mut flash,
        &mut tree,
        ClockSelection::HSE(8_000_000),
        PLL::On(8, 336, 4, 7),
    );
    assert_eq!(progress, Progress::Done(84_000_000));
    assert_eq!(steps, 4);
    assert_eq!(tree.sysclock(), Some(84_000_000));
    assert_eq!(rcc.control, 0x0303_0003);
    assert_eq!(rcc.pll_config, 0x0741_5408);
    assert_eq!(rcc.config, 0x0000_940A);
    assert_eq!(flash.access_control, 0x0000_0703);
}

#[test]
fn stepping_counts_the_polls_of_a_wait() {
    let mut rcc = RCCRegisters::default();
    let mut flash = FlashRegisters::default();
    let mut tree = ClockTree::new();
    let (progress, steps) =
        run(&mut rcc, &mut flash, &mut tree, ClockSelection::HSE(8_000_000), PLL::Off);
    assert_eq!(progress, Progress::Failed(ClockError::OscillatorNotReady));
    assert_eq!(steps, 1 + WAIT_BUDGET);
    assert_eq!(tree.sysclock(), None);
}

#[test]
fn stepping_follows_hardware_that_becomes_ready_late() {
    let mut rcc = RCCRegisters::default();
    let mut flash = FlashRegisters::default();
    let mut tree = ClockTree::new();
    let mut machine = ClockBringUp::new(
        ClockSelection::HSE(8_000_000),
        PLL::On(8, 336, 4, 7),
        CFGR_HPrescaler::Div1,
        CFGR_PPrescaler1::Div4,
        CFGR_PPrescaler2::Div2,
    )
    .unwrap();
    assert_eq!(machine.phase, Phase::Start);
    assert_eq!(machine.step(&mut rcc, &mut flash, &mut tree), Progress::Pending);
    assert_eq!(machine.phase, Phase::AwaitOscillator);
    assert_eq!(rcc.control, 0x0001_0001);
    for _ in 0..10 {
        assert_eq!(machine.step(&mut rcc, &mut flash, &mut tree), Progress::Pending);
    }
    assert_eq!(machine.budget, WAIT_BUDGET - 10);
    rcc.control |= HSERDY;
    assert_eq!(machine.step(&mut rcc, &mut flash, &mut tree), Progress::Pending);
    assert_eq!(machine.phase, Phase::AwaitPll);
    assert_eq!(machine.budget, WAIT_BUDGET);
    assert_eq!(rcc.config, 0x0000_9400);
    assert_eq!(rcc.pll_config, 0x0741_5408);
    assert_eq!(rcc.control, 0x0103_0001);
    assert_eq!(machine.step(&mut rcc, &mut flash, &mut tree), Progress::Pending);
    rcc.control |= PLLRDY;
    assert_eq!(machine.step(&mut rcc, &mut flash, &mut tree), Progress::Pending);
    assert_eq!(machine.phase, Phase::AwaitSwitch);
    assert_eq!(rcc.config, 0x0000_9402);
    assert_eq!(flash.access_control, 0x0000_0703);
    assert_eq!(tree.sysclock(), None);
    rcc.config |= SWS_PLL;
    assert_eq!(
        machine.step(&mut rcc, &mut flash, &mut tree),
        Progress::Done(84_000_000)
    );
    assert_eq!(machine.phase, Phase::Done);
    assert_eq!(tree.sysclock(), Some(84_000_000));
    // a bring-up that has ended stays as it is
    let before = rcc;
    assert_eq!(
        machine.step(&mut rcc, &mut flash, &mut tree),
        Progress::Done(84_000_000)
    );
    assert_eq!(rcc, before);
}

#[test]
fn a_bring_up_is_not_started_for_a_setting_that_breaks_a_rule() {
    let refused = ClockBringUp::new(
        ClockSelection::HSE(8_000_000),
        PLL::On(8, 100, 4, 7),
        CFGR_HPrescaler::Div1,
        CFGR_PPrescaler1::Div1,
        CFGR_PPrescaler2::Div1,
    );
    assert_eq!(refused, Err(ClockError::VcoOutOfRange));
}

#[test]
fn clock_errors_have_their_messages() {
    assert_eq!(
        ClockError::OscillatorOutOfRange.message(),
        "External clock speed out of range ([4; 26] MHz)."
    );
    assert_eq!(ClockError::DividerTooSmall.message(), "M, N and Q must be > 2.");
    assert_eq!(ClockError::OutputDividerIllegal.message(), "P must be 2, 4, 6 or 8.");
    assert_eq!(ClockError::PllInputOutOfRange.message(), "PLL input must be in [1; 2]MHz.");
    assert_eq!(
        ClockError::VcoOutOfRange.message(),
        "VCO output must be in [192; 432]MHz."
    );
    assert_eq!(
        ClockError::PllOutputTooHigh.message(),
        "PLL output clock must not exceed 120MHz."
    );
    assert_eq!(
        ClockError::UsbClockTooHigh.message(),
        "USB OTG output clock must not exceed 48MHz."
    );
    assert_eq!(
        ClockError::OscillatorNotReady.message(),
        "Failed to initialize the clock."
    );
    assert_eq!(ClockError::PllNotReady.kind(), ErrorKind::HardwareTimeout);
    assert_eq!(ClockError::SwitchNotReady.kind(), ErrorKind::HardwareTimeout);
    assert_eq!(ClockError::UsbClockTooHigh.kind(), ErrorKind::Validation);
}
