//! Bringing the clock tree up in one call.

use vstd::prelude::*;

use crate::flash::FlashRegisters;
use crate::rcc::clock::Bus;
use crate::rcc::flags::{
    CFGR_HPrescaler, CFGR_PPrescaler1, CFGR_PPrescaler2, CFGR_HPRE_MASK, CFGR_PPRE1_MASK,
    CFGR_PPRE2_MASK, CFGR_SWS_MASK, CFGR_SW_MASK, CR_CSSON, CR_HSEBYP, CR_HSEON, CR_HSERDY,
    CR_HSION, CR_HSIRDY, CR_PLLON, CR_PLLRDY,
};
use crate::rcc::plan::ClockPlan;
use crate::rcc::{
    bus_frequency, clock_violation, hpre_field, ppre1_field, ppre2_field, system_frequency,
    wait_for, ClockError, ClockSelection, ClockTree, RCCRegisters, PLL, VCO_MAX, VCO_MIN,
};
use crate::registers::update_bits;
use crate::ErrorKind;

verus! {

/// How a bring-up ends, or where it stopped: the registers and the resolved
/// system clock it leaves, and what it reports.
pub struct Outcome {
    pub rcc: RCCRegisters,
    pub flash: FlashRegisters,
    pub frequency: Option<u32>,
    pub result: Result<u32, ClockError>,
}

/// The outcome of bringing the clock tree up from the registers `rcc` and
/// `flash` and the resolved system clock `frequency`, where hardware changes no
/// flag on the way.
///
/// A setting that breaks a rule changes nothing. Otherwise the stages run until
/// one of them finds its flag down, and what was written until then stays
/// written; only when the last flag is up is the new frequency committed.
pub open spec fn bring_up_outcome(
    rcc: RCCRegisters,
    flash: FlashRegisters,
    frequency: Option<u32>,
    clksrc: ClockSelection,
    pll: PLL,
    hpre: CFGR_HPrescaler,
    apb1: CFGR_PPrescaler1,
    apb2: CFGR_PPrescaler2,
) -> Outcome {
    match clock_violation(clksrc, pll) {
        Some(error) => Outcome { rcc, flash, frequency, result: Err(error) },
        None => {
            let plan = ClockPlan {
                clksrc,
                pll,
                hpre,
                apb1,
                apb2,
                frequency: system_frequency(clksrc, pll) as u32,
            };
            let started = plan.started(rcc);
            let programmed = plan.programmed(started);
            let switched = plan.switched(programmed);
            if !plan.oscillator_ready(started) {
                Outcome {
                    rcc: started,
                    flash,
                    frequency,
                    result: Err(ClockError::OscillatorNotReady),
                }
            } else if !plan.pll_ready(programmed) {
                Outcome { rcc: programmed, flash, frequency, result: Err(ClockError::PllNotReady) }
            } else if !plan.switch_done(switched) {
                Outcome {
                    rcc: switched,
                    flash: flash.at_full_speed(),
                    frequency,
                    result: Err(ClockError::SwitchNotReady),
                }
            } else {
                Outcome {
                    rcc: switched,
                    flash: flash.at_full_speed(),
                    frequency: Some(plan.frequency),
                    result: Ok(plan.frequency),
                }
            }
        },
    }
}

/// Configures the clock tree on the register image and returns the system clock,
/// in hertz.
///
/// The oscillator and the PLL are checked first, so that a setting the hardware
/// does not allow leaves every register as it was. Then the internal oscillator
/// is switched on and the clock registers are reset; the selected oscillator is
/// awaited; the bus prescalers and the PLL are programmed and the PLL awaited;
/// the flash is set for full speed and the system clock switched; and once the
/// switch is reported, the frequency is committed to `tree`. Each wait polls the
/// image a bounded number of times.
pub fn system_init(
    rcc: &mut RCCRegisters,
    flash: &mut FlashRegisters,
    tree: &mut ClockTree,
    clksrc: ClockSelection,
    pll: PLL,
    hpre: CFGR_HPrescaler,
    apb1: CFGR_PPrescaler1,
    apb2: CFGR_PPrescaler2,
) -> (result: Result<u32, ClockError>)
    ensures
        ({
            let outcome = bring_up_outcome(
                *old(rcc),
                *old(flash),
                old(tree).frequency(),
                clksrc,
                pll,
                hpre,
                apb1,
                apb2,
            );
            &&& *final(rcc) == outcome.rcc
            &&& *final(flash) == outcome.flash
            &&& final(tree).frequency() == outcome.frequency
            &&& result == outcome.result
        }),
{
    let plan: ClockPlan = match ClockPlan::new(clksrc, pll, hpre, apb1, apb2) {
        Err(error) => {
            return Err(error);
        },
        Ok(plan) => plan,
    };

    plan.start(rcc);
    let started: RCCRegisters = *rcc;
    let oscillator = || -> (ready: bool)
        ensures
            ready == plan.oscillator_ready(started),
        { plan.is_oscillator_ready(&started) };
    if !wait_for(&oscillator) {
        return Err(ClockError::OscillatorNotReady);
    }

    plan.program(rcc);
    let programmed: RCCRegisters = *rcc;
    let locked = || -> (ready: bool)
        ensures
            ready == plan.pll_ready(programmed),
        { plan.is_pll_ready(&programmed) };
    if !wait_for(&locked) {
        return Err(ClockError::PllNotReady);
    }

    flash.set_full_speed();
    plan.switch(rcc);
    let switched: RCCRegisters = *rcc;
    let running = || -> (done: bool)
        ensures
            done == plan.switch_done(switched),
        { plan.is_switch_done(&switched) };
    if !wait_for(&running) {
        return Err(ClockError::SwitchNotReady);
    }

    tree.commit(plan.frequency);
    Ok(plan.frequency)
}

/// A setting that breaks a rule is refused as a validation error and leaves the
/// registers and the resolved system clock as they were.
pub proof fn lemma_invalid_setting_changes_nothing(
    rcc: RCCRegisters,
    flash: FlashRegisters,
    frequency: Option<u32>,
    clksrc: ClockSelection,
    pll: PLL,
    hpre: CFGR_HPrescaler,
    apb1: CFGR_PPrescaler1,
    apb2: CFGR_PPrescaler2,
)
    requires
        clock_violation(clksrc, pll) is Some,
    ensures
        ({
            let outcome = bring_up_outcome(rcc, flash, frequency, clksrc, pll, hpre, apb1, apb2);
            &&& outcome.result == Err::<u32, ClockError>(clock_violation(clksrc, pll)->Some_0)
            &&& outcome.result->Err_0.kind() == ErrorKind::Validation
            &&& outcome.rcc == rcc
            &&& outcome.flash == flash
            &&& outcome.frequency == frequency
        }),
{
}

/// A PLL whose voltage-controlled oscillator would leave the range from 192 to
/// 432 MHz is refused as a validation error, whatever the oscillator and the
/// other dividers are, and nothing is written.
pub proof fn lemma_vco_out_of_range_is_refused(
    rcc: RCCRegisters,
    flash: FlashRegisters,
    frequency: Option<u32>,
    clksrc: ClockSelection,
    pll: PLL,
    hpre: CFGR_HPrescaler,
    apb1: CFGR_PPrescaler1,
    apb2: CFGR_PPrescaler2,
)
    requires
        pll is On,
        !(VCO_MIN <= pll.vco(clksrc.frequency()) <= VCO_MAX),
    ensures
        ({
            let outcome = bring_up_outcome(rcc, flash, frequency, clksrc, pll, hpre, apb1, apb2);
            &&& outcome.result is Err
            &&& outcome.result->Err_0.kind() == ErrorKind::Validation
            &&& outcome.rcc == rcc
            &&& outcome.flash == flash
            &&& outcome.frequency == frequency
        }),
{
}

/// A valid setting, on hardware that reports every stage ready, is carried
/// out: the result and the committed system clock are the frequency that the
/// oscillator and the PLL give, and what then reaches each bus is that frequency
/// divided by the prescalers asked for.
pub proof fn lemma_valid_setting_is_carried_out(
    rcc: RCCRegisters,
    flash: FlashRegisters,
    frequency: Option<u32>,
    plan: ClockPlan,
    bus: Bus,
)
    requires
        plan.wf(),
        plan.reported_ready(rcc),
    ensures
        ({
            let outcome = bring_up_outcome(
                rcc,
                flash,
                frequency,
                plan.clksrc,
                plan.pll,
                plan.hpre,
                plan.apb1,
                plan.apb2,
            );
            &&& outcome.result == Ok::<u32, ClockError>(plan.frequency)
            &&& plan.frequency == system_frequency(plan.clksrc, plan.pll)
            &&& outcome.frequency == Some(plan.frequency)
            &&& outcome.rcc == plan.switched(plan.programmed(plan.started(rcc)))
            &&& outcome.flash == flash.at_full_speed()
            &&& bus_frequency(plan.frequency, outcome.rcc.config, bus) == plan.planned_frequency(bus)
        }),
{
    let started = plan.started(rcc);
    let programmed = plan.programmed(started);
    let switched = plan.switched(programmed);
    let ready = plan.clksrc.ready_flag();
    let prescalers = plan.hpre.bits() | plan.apb1.bits() | plan.apb2.bits();
    assert(ready == CR_HSIRDY || ready == CR_HSERDY);
    lemma_control_keeps_flags(rcc.control, plan.oscillator_bits(), ready);
    lemma_control_keeps_flags(rcc.control, plan.oscillator_bits(), CR_PLLRDY);
    lemma_control_keeps_flags(started.control, CR_PLLON, ready);
    lemma_control_keeps_flags(started.control, CR_PLLON, CR_PLLRDY);
    assert(plan.oscillator_ready(started));
    assert(plan.pll_ready(programmed));
    lemma_config_after_bring_up(
        rcc.config,
        plan.hpre.bits(),
        plan.apb1.bits(),
        plan.apb2.bits(),
        plan.switch_bits(),
    );
    assert(switched.config == update_bits(
        update_bits(
            update_bits(rcc.config, 0, !CFGR_SWS_MASK),
            prescalers,
            CFGR_HPRE_MASK | CFGR_PPRE1_MASK | CFGR_PPRE2_MASK,
        ),
        plan.switch_bits(),
        CFGR_SW_MASK,
    ));
    assert(plan.switch_done(switched));
    assert(hpre_field(switched.config) == plan.hpre.bits() / 16);
    assert(ppre1_field(switched.config) == plan.apb1.bits() / 1024);
    assert(ppre2_field(switched.config) == plan.apb2.bits() / 8192);
}

proof fn lemma_control_keeps_flags(control: u32, bits: u32, flag: u32)
    by (bit_vector)
    requires
        flag == CR_HSIRDY || flag == CR_HSERDY || flag == CR_PLLRDY,
    ensures
        update_bits(control, bits, CR_HSION | CR_HSEON | CR_CSSON | CR_PLLON | CR_HSEBYP) & flag
            == control & flag,
        update_bits(control, bits, CR_PLLON) & flag == control & flag,
{
}

proof fn lemma_config_after_bring_up(config: u32, hpre: u32, apb1: u32, apb2: u32, switch: u32)
    by (bit_vector)
    requires
        hpre % 16 == 0 && hpre < 256,
        apb1 % 1024 == 0 && apb1 < 8192,
        apb2 % 8192 == 0 && apb2 < 65536,
    ensures
        ({
            let after = update_bits(
                update_bits(
                    update_bits(config, 0, !CFGR_SWS_MASK),
                    hpre | apb1 | apb2,
                    CFGR_HPRE_MASK | CFGR_PPRE1_MASK | CFGR_PPRE2_MASK,
                ),
                switch,
                CFGR_SW_MASK,
            );
            &&& after & CFGR_SWS_MASK == config & CFGR_SWS_MASK
            &&& (after / 16) % 16 == hpre / 16
            &&& (after / 1024) % 8 == apb1 / 1024
            &&& (after / 8192) % 8 == apb2 / 8192
        }),
{
}

} // verus!
