//! What a bring-up of the clock tree writes, stage by stage.

use vstd::prelude::*;

use crate::rcc::clock::Bus;
use crate::rcc::flags::{
    CFGR_HPrescaler, CFGR_PPrescaler1, CFGR_PPrescaler2, CFGR_HPRE_MASK, CFGR_PPRE1_MASK,
    CFGR_PPRE2_MASK, CFGR_SWS_HSE, CFGR_SWS_HSI, CFGR_SWS_MASK, CFGR_SWS_PLL, CFGR_SW_HSE,
    CFGR_SW_HSI, CFGR_SW_MASK, CFGR_SW_PLL, CR_CSSON, CR_HSEBYP, CR_HSEON, CR_HSION, CR_PLLON,
    CR_PLLRDY, PLLCFGR_N_SHIFT, PLLCFGR_P_SHIFT, PLLCFGR_Q_SHIFT, PLLCFGR_RESET, PLLCFGR_SRC_HSE,
    PLLCFGR_SRC_HSI,
};
use crate::rcc::{
    clock_violation, resolve, system_frequency, ClockError, ClockSelection, RCCRegisters, PLL,
};
use crate::registers::{all_set, is_set, lemma_update_overrides, update, update_bits};

verus! {

/// What to bring up: an oscillator, a PLL setting and the three bus prescalers,
/// found valid, together with the system clock they give.
#[derive(Clone, Copy, PartialEq, Eq, Structural, Debug)]
pub struct ClockPlan {
    pub clksrc: ClockSelection,
    pub pll: PLL,
    pub hpre: CFGR_HPrescaler,
    pub apb1: CFGR_PPrescaler1,
    pub apb2: CFGR_PPrescaler2,
    pub frequency: u32,
}

/// The PLL configuration register for the dividers M, N, P and Q, with the PLL
/// fed from the source `source`.
pub open spec fn pll_word(m: u8, n: u16, p: u8, q: u8, source: u32) -> u32 {
    (m as u32) | ((n as u32) << PLLCFGR_N_SHIFT) | (((((p as u32) >> 1) - 1) as u32)
        << PLLCFGR_P_SHIFT) | source | ((q as u32) << PLLCFGR_Q_SHIFT)
}

impl ClockPlan {
    /// The plan breaks no rule and holds the frequency that follows from it.
    pub open spec fn wf(self) -> bool {
        &&& clock_violation(self.clksrc, self.pll) is None
        &&& self.frequency == system_frequency(self.clksrc, self.pll)
    }

    /// Bits of the control register that switch the selected oscillator on.
    pub open spec fn oscillator_bits(self) -> u32 {
        match self.clksrc {
            ClockSelection::HSI => CR_HSION,
            ClockSelection::HSE(_) => CR_HSION | CR_HSEON,
        }
    }

    /// Setting of the system clock switch.
    pub open spec fn switch_bits(self) -> u32 {
        match (self.pll, self.clksrc) {
            (PLL::On(_, _, _, _), _) => CFGR_SW_PLL,
            (PLL::Off, ClockSelection::HSE(_)) => CFGR_SW_HSE,
            (PLL::Off, ClockSelection::HSI) => CFGR_SW_HSI,
        }
    }

    /// Switch status by which hardware reports that the switch took effect.
    pub open spec fn switch_status(self) -> u32 {
        match (self.pll, self.clksrc) {
            (PLL::On(_, _, _, _), _) => CFGR_SWS_PLL,
            (PLL::Off, ClockSelection::HSE(_)) => CFGR_SWS_HSE,
            (PLL::Off, ClockSelection::HSI) => CFGR_SWS_HSI,
        }
    }

    /// Source selection of the PLL.
    pub open spec fn pll_source(self) -> u32 {
        match self.clksrc {
            ClockSelection::HSE(_) => PLLCFGR_SRC_HSE,
            ClockSelection::HSI => PLLCFGR_SRC_HSI,
        }
    }

    /// The registers after the first stage: the internal oscillator is on, the
    /// configuration, the PLL configuration and the clock interrupts are at their
    /// defaults, the PLL, the clock security system and the bypass are off, and
    /// the external oscillator is on if it is the one selected. The switch
    /// status, which hardware owns, is left as it is.
    pub open spec fn started(self, rcc: RCCRegisters) -> RCCRegisters {
        RCCRegisters {
            control: update_bits(
                rcc.control,
                self.oscillator_bits(),
                CR_HSION | CR_HSEON | CR_CSSON | CR_PLLON | CR_HSEBYP,
            ),
            config: update_bits(rcc.config, 0, !CFGR_SWS_MASK),
            pll_config: PLLCFGR_RESET,
            clock_interrupt: 0,
            ..rcc
        }
    }

    /// Hardware reports the selected oscillator ready.
    pub open spec fn oscillator_ready(self, rcc: RCCRegisters) -> bool {
        all_set(rcc.control, self.clksrc.ready_flag())
    }

    /// The registers after the second stage: the three prescalers are set and,
    /// where the plan has the PLL on, its dividers are programmed and it is
    /// switched on.
    pub open spec fn programmed(self, rcc: RCCRegisters) -> RCCRegisters {
        let config = update_bits(
            rcc.config,
            self.hpre.bits() | self.apb1.bits() | self.apb2.bits(),
            CFGR_HPRE_MASK | CFGR_PPRE1_MASK | CFGR_PPRE2_MASK,
        );
        match self.pll {
            PLL::Off => RCCRegisters { config, ..rcc },
            PLL::On(m, n, p, q) => RCCRegisters {
                config,
                pll_config: pll_word(m, n, p, q, self.pll_source()),
                control: update_bits(rcc.control, CR_PLLON, CR_PLLON),
                ..rcc
            },
        }
    }

    /// Hardware reports the PLL locked, or the plan has no use for it.
    pub open spec fn pll_ready(self, rcc: RCCRegisters) -> bool {
        self.pll is Off || all_set(rcc.control, CR_PLLRDY)
    }

    /// The registers after the third stage: the system clock switch points at
    /// the source of the plan.
    pub open spec fn switched(self, rcc: RCCRegisters) -> RCCRegisters {
        RCCRegisters { config: update_bits(rcc.config, self.switch_bits(), CFGR_SW_MASK), ..rcc }
    }

    /// Hardware reports that the system clock runs from the source of the plan.
    pub open spec fn switch_done(self, rcc: RCCRegisters) -> bool {
        rcc.config & CFGR_SWS_MASK == self.switch_status()
    }

    /// Checks the oscillator and the PLL and draws up the plan. Fails, with the
    /// first rule broken, exactly when the two break a rule.
    pub fn new(
        clksrc: ClockSelection,
        pll: PLL,
        hpre: CFGR_HPrescaler,
        apb1: CFGR_PPrescaler1,
        apb2: CFGR_PPrescaler2,
    ) -> (plan: Result<ClockPlan, ClockError>)
        ensures
            match clock_violation(clksrc, pll) {
                Some(error) => plan == Err::<ClockPlan, ClockError>(error),
                None => plan == Ok::<ClockPlan, ClockError>(
                    (ClockPlan {
                        clksrc,
                        pll,
                        hpre,
                        apb1,
                        apb2,
                        frequency: system_frequency(clksrc, pll) as u32,
                    }),
                ) && plan->Ok_0.wf(),
            },
    {
        match resolve(clksrc, pll) {
            Err(error) => Err(error),
            Ok(frequency) => Ok(ClockPlan { clksrc, pll, hpre, apb1, apb2, frequency }),
        }
    }

    /// First stage: see [`ClockPlan::started`].
    pub fn start(&self, rcc: &mut RCCRegisters)
        ensures
            *final(rcc) == self.started(*old(rcc)),
    {
        let ghost before = rcc.control;
        update(&mut rcc.control, CR_HSION, CR_HSION);
        update(&mut rcc.config, 0, !CFGR_SWS_MASK);
        update(&mut rcc.control, 0, CR_HSEON | CR_CSSON | CR_PLLON);
        rcc.pll_config = PLLCFGR_RESET;
        update(&mut rcc.control, 0, CR_HSEBYP);
        rcc.clock_interrupt = 0;
        match self.clksrc {
            ClockSelection::HSI => {},
            ClockSelection::HSE(_) => {
                update(&mut rcc.control, CR_HSEON, CR_HSEON);
            },
        }
        proof {
            lemma_start_control(before);
        }
    }

    /// Tells whether hardware reports the selected oscillator ready.
    pub fn is_oscillator_ready(&self, rcc: &RCCRegisters) -> (ready: bool)
        ensures
            ready == self.oscillator_ready(*rcc),
    {
        is_set(rcc.control, self.clksrc.ready_flag())
    }

    /// Second stage: see [`ClockPlan::programmed`].
    pub fn program(&self, rcc: &mut RCCRegisters)
        requires
            self.wf(),
        ensures
            *final(rcc) == self.programmed(*old(rcc)),
    {
        update(
            &mut rcc.config,
            self.hpre.bits() | self.apb1.bits() | self.apb2.bits(),
            CFGR_HPRE_MASK | CFGR_PPRE1_MASK | CFGR_PPRE2_MASK,
        );
        match self.pll {
            PLL::Off => {},
            PLL::On(m, n, p, q) => {
                let source: u32 = match self.clksrc {
                    ClockSelection::HSE(_) => PLLCFGR_SRC_HSE,
                    ClockSelection::HSI => PLLCFGR_SRC_HSI,
                };
                let half: u32 = (p as u32) >> 1;
                assert(half >= 1) by (bit_vector)
                    requires
                        half == (p as u32) >> 1,
                        p >= 2,
                ;
                rcc.pll_config = (m as u32) | ((n as u32) << PLLCFGR_N_SHIFT) | ((half - 1)
                    << PLLCFGR_P_SHIFT) | source | ((q as u32) << PLLCFGR_Q_SHIFT);
                update(&mut rcc.control, CR_PLLON, CR_PLLON);
            },
        }
    }

    /// Tells whether hardware reports the PLL locked; true where the plan has no
    /// use for the PLL.
    pub fn is_pll_ready(&self, rcc: &RCCRegisters) -> (ready: bool)
        ensures
            ready == self.pll_ready(*rcc),
    {
        match self.pll {
            PLL::Off => true,
            PLL::On(_, _, _, _) => is_set(rcc.control, CR_PLLRDY),
        }
    }

    /// Third stage: see [`ClockPlan::switched`].
    pub fn switch(&self, rcc: &mut RCCRegisters)
        ensures
            *final(rcc) == self.switched(*old(rcc)),
    {
        let source: u32 = match self.pll {
            PLL::On(_, _, _, _) => CFGR_SW_PLL,
            PLL::Off => match self.clksrc {
                ClockSelection::HSE(_) => CFGR_SW_HSE,
                ClockSelection::HSI => CFGR_SW_HSI,
            },
        };
        let ghost before = rcc.config;
        update(&mut rcc.config, 0, CFGR_SW_MASK);
        update(&mut rcc.config, source, CFGR_SW_MASK);
        proof {
            lemma_update_overrides(before, 0, source, CFGR_SW_MASK);
        }
    }

    /// Tells whether hardware reports that the system clock runs from the
    /// source of the plan.
    pub fn is_switch_done(&self, rcc: &RCCRegisters) -> (done: bool)
        ensures
            done == self.switch_done(*rcc),
    {
        let status: u32 = match self.pll {
            PLL::On(_, _, _, _) => CFGR_SWS_PLL,
            PLL::Off => match self.clksrc {
                ClockSelection::HSE(_) => CFGR_SWS_HSE,
                ClockSelection::HSI => CFGR_SWS_HSI,
            },
        };
        (rcc.config & CFGR_SWS_MASK) == status
    }
}

impl ClockPlan {
    /// The flags by which hardware reports the plan carried out are all up in
    /// `rcc`: the oscillator is ready, the PLL is locked where the plan uses it,
    /// and the system clock runs from the source of the plan.
    pub open spec fn reported_ready(self, rcc: RCCRegisters) -> bool {
        &&& all_set(rcc.control, self.clksrc.ready_flag())
        &&& self.pll is Off || all_set(rcc.control, CR_PLLRDY)
        &&& rcc.config & CFGR_SWS_MASK == self.switch_status()
    }

    /// The bus frequency that the plan asks for: the system clock divided by the
    /// AHB prescaler and then, on an APB bus, by the prescaler of that bus.
    pub open spec fn planned_frequency(self, bus: Bus) -> int {
        let hclk = self.frequency as int / (self.hpre.spec_divisor() as int);
        match bus {
            Bus::APB1 => hclk / (self.apb1.spec_divisor() as int),
            Bus::APB2 => hclk / (self.apb2.spec_divisor() as int),
            _ => hclk,
        }
    }
}

proof fn lemma_start_control(control: u32)
    by (bit_vector)
    ensures
        update_bits(
            update_bits(update_bits(control, CR_HSION, CR_HSION), 0, CR_HSEON | CR_CSSON | CR_PLLON),
            0,
            CR_HSEBYP,
        ) == update_bits(
            control,
            CR_HSION,
            CR_HSION | CR_HSEON | CR_CSSON | CR_PLLON | CR_HSEBYP,
        ),
        update_bits(
            update_bits(
                update_bits(
                    update_bits(control, CR_HSION, CR_HSION),
                    0,
                    CR_HSEON | CR_CSSON | CR_PLLON,
                ),
                0,
                CR_HSEBYP,
            ),
            CR_HSEON,
            CR_HSEON,
        ) == update_bits(
            control,
            CR_HSION | CR_HSEON,
            CR_HSION | CR_HSEON | CR_CSSON | CR_PLLON | CR_HSEBYP,
        ),
{
}

} // verus!
