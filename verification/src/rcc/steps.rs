//! Bringing the clock tree up step by step, for a caller that moves the
//! register image to and from the hardware between the steps.

use vstd::prelude::*;

use crate::flash::FlashRegisters;
use crate::rcc::bring_up::bring_up_outcome;
use crate::rcc::flags::{CFGR_HPrescaler, CFGR_PPrescaler1, CFGR_PPrescaler2};
use crate::rcc::plan::ClockPlan;
use crate::rcc::{
    clock_violation, system_frequency, ClockError, ClockSelection, ClockTree, RCCRegisters, PLL,
    WAIT_BUDGET,
};

verus! {

/// Where a bring-up stands.
#[derive(Clone, Copy, PartialEq, Eq, Structural, Debug)]
pub enum Phase {
    /// Nothing has been written yet.
    Start,
    /// The oscillator has been switched on and is awaited.
    AwaitOscillator,
    /// The prescalers and the PLL have been programmed and the PLL is awaited.
    AwaitPll,
    /// The system clock has been switched and the switch status is awaited.
    AwaitSwitch,
    /// The clock tree runs as planned.
    Done,
    /// A flag did not come up within the polls allowed.
    Failed(ClockError),
}

/// What a step of a bring-up reports.
#[derive(Clone, Copy, PartialEq, Eq, Structural, Debug)]
pub enum Progress {
    /// Write the registers back, read them again and take another step.
    Pending,
    /// The clock tree runs at this frequency, in hertz.
    Done(u32),
    /// The bring-up has stopped.
    Failed(ClockError),
}

/// A bring-up of the clock tree taken one stage or one poll at a time, for a
/// caller that moves the register image to and from the hardware between the
/// steps.
#[derive(Clone, Copy, PartialEq, Eq, Structural, Debug)]
pub struct ClockBringUp {
    pub plan: ClockPlan,
    pub phase: Phase,
    /// Polls left before the wait in progress gives up
    pub budget: u32,
}

/// A bring-up after one step, with the registers and the resolved system clock
/// the step leaves and what it reports.
pub struct Step {
    pub machine: ClockBringUp,
    pub rcc: RCCRegisters,
    pub flash: FlashRegisters,
    pub frequency: Option<u32>,
    pub progress: Progress,
}

impl ClockBringUp {
    /// The plan is valid and a wait in progress has polls left.
    pub open spec fn wf(self) -> bool {
        &&& self.plan.wf()
        &&& self.budget <= WAIT_BUDGET
        &&& (self.phase is AwaitOscillator || self.phase is AwaitPll || self.phase is AwaitSwitch)
            ==> self.budget > 0
    }

    /// The bring-up after a poll that found its flag down: one poll fewer is
    /// left, and with none left the bring-up has failed with `error`.
    pub open spec fn after_miss(self, error: ClockError) -> ClockBringUp {
        if self.budget <= 1 {
            ClockBringUp { phase: Phase::Failed(error), budget: 0, ..self }
        } else {
            ClockBringUp { budget: (self.budget - 1) as u32, ..self }
        }
    }

    /// What a poll that found its flag down reports.
    pub open spec fn miss_progress(self, error: ClockError) -> Progress {
        if self.budget <= 1 {
            Progress::Failed(error)
        } else {
            Progress::Pending
        }
    }

    /// One step of the bring-up on the registers `rcc` and `flash`, the resolved
    /// system clock being `frequency`.
    ///
    /// The first step writes the first stage. A step of a wait reads the flag
    /// awaited: when it is up the step writes the next stage, or commits the
    /// frequency after the last; when it is down the step writes nothing and
    /// counts the poll. A bring-up that has ended stays as it is.
    pub open spec fn next(
        self,
        rcc: RCCRegisters,
        flash: FlashRegisters,
        frequency: Option<u32>,
    ) -> Step {
        let awaiting = ClockBringUp { budget: WAIT_BUDGET, ..self };
        match self.phase {
            Phase::Start => Step {
                machine: ClockBringUp { phase: Phase::AwaitOscillator, ..awaiting },
                rcc: self.plan.started(rcc),
                flash,
                frequency,
                progress: Progress::Pending,
            },
            Phase::AwaitOscillator => if self.plan.oscillator_ready(rcc) {
                Step {
                    machine: ClockBringUp { phase: Phase::AwaitPll, ..awaiting },
                    rcc: self.plan.programmed(rcc),
                    flash,
                    frequency,
                    progress: Progress::Pending,
                }
            } else {
                Step {
                    machine: self.after_miss(ClockError::OscillatorNotReady),
                    rcc,
                    flash,
                    frequency,
                    progress: self.miss_progress(ClockError::OscillatorNotReady),
                }
            },
            Phase::AwaitPll => if self.plan.pll_ready(rcc) {
                Step {
                    machine: ClockBringUp { phase: Phase::AwaitSwitch, ..awaiting },
                    rcc: self.plan.switched(rcc),
                    flash: flash.at_full_speed(),
                    frequency,
                    progress: Progress::Pending,
                }
            } else {
                Step {
                    machine: self.after_miss(ClockError::PllNotReady),
                    rcc,
                    flash,
                    frequency,
                    progress: self.miss_progress(ClockError::PllNotReady),
                }
            },
            Phase::AwaitSwitch => if self.plan.switch_done(rcc) {
                Step {
                    machine: ClockBringUp { phase: Phase::Done, budget: 0, ..self },
                    rcc,
                    flash,
                    frequency: Some(self.plan.frequency),
                    progress: Progress::Done(self.plan.frequency),
                }
            } else {
                Step {
                    machine: self.after_miss(ClockError::SwitchNotReady),
                    rcc,
                    flash,
                    frequency,
                    progress: self.miss_progress(ClockError::SwitchNotReady),
                }
            },
            Phase::Done => Step {
                machine: self,
                rcc,
                flash,
                frequency,
                progress: Progress::Done(self.plan.frequency),
            },
            Phase::Failed(error) => Step {
                machine: self,
                rcc,
                flash,
                frequency,
                progress: Progress::Failed(error),
            },
        }
    }

    /// Checks the oscillator and the PLL and sets a bring-up at its start. Fails,
    /// with the first rule broken, exactly when the two break a rule.
    pub fn new(
        clksrc: ClockSelection,
        pll: PLL,
        hpre: CFGR_HPrescaler,
        apb1: CFGR_PPrescaler1,
        apb2: CFGR_PPrescaler2,
    ) -> (machine: Result<ClockBringUp, ClockError>)
        ensures
            match clock_violation(clksrc, pll) {
                Some(error) => machine == Err::<ClockBringUp, ClockError>(error),
                None => machine == Ok::<ClockBringUp, ClockError>(
                    (ClockBringUp {
                        plan: ClockPlan {
                            clksrc,
                            pll,
                            hpre,
                            apb1,
                            apb2,
                            frequency: system_frequency(clksrc, pll) as u32,
                        },
                        phase: Phase::Start,
                        budget: WAIT_BUDGET,
                    }),
                ) && machine->Ok_0.wf(),
            },
    {
        match ClockPlan::new(clksrc, pll, hpre, apb1, apb2) {
            Err(error) => Err(error),
            Ok(plan) => Ok(ClockBringUp { plan, phase: Phase::Start, budget: WAIT_BUDGET }),
        }
    }

    fn miss(&mut self, error: ClockError) -> (progress: Progress)
        requires
            old(self).budget > 0,
        ensures
            *final(self) == old(self).after_miss(error),
            progress == old(self).miss_progress(error),
    {
        self.budget -= 1;
        if self.budget == 0 {
            self.phase = Phase::Failed(error);
            Progress::Failed(error)
        } else {
            Progress::Pending
        }
    }

    /// Takes one step: see [`ClockBringUp::next`].
    pub fn step(&mut self, rcc: &mut RCCRegisters, flash: &mut FlashRegisters, tree: &mut ClockTree) -> (progress: Progress)
        requires
            old(self).wf(),
        ensures
            final(self).wf(),
            ({
                let step = old(self).next(*old(rcc), *old(flash), old(tree).frequency());
                &&& *final(self) == step.machine
                &&& *final(rcc) == step.rcc
                &&& *final(flash) == step.flash
                &&& final(tree).frequency() == step.frequency
                &&& progress == step.progress
            }),
    {
        match self.phase {
            Phase::Start => {
                self.plan.start(rcc);
                self.phase = Phase::AwaitOscillator;
                self.budget = WAIT_BUDGET;
                Progress::Pending
            },
            Phase::AwaitOscillator => {
                if self.plan.is_oscillator_ready(rcc) {
                    self.plan.program(rcc);
                    self.phase = Phase::AwaitPll;
                    self.budget = WAIT_BUDGET;
                    Progress::Pending
                } else {
                    self.miss(ClockError::OscillatorNotReady)
                }
            },
            Phase::AwaitPll => {
                if self.plan.is_pll_ready(rcc) {
                    flash.set_full_speed();
                    self.plan.switch(rcc);
                    self.phase = Phase::AwaitSwitch;
                    self.budget = WAIT_BUDGET;
                    Progress::Pending
                } else {
                    self.miss(ClockError::PllNotReady)
                }
            },
            Phase::AwaitSwitch => {
                if self.plan.is_switch_done(rcc) {
                    tree.commit(self.plan.frequency);
                    self.phase = Phase::Done;
                    self.budget = 0;
                    Progress::Done(self.plan.frequency)
                } else {
                    self.miss(ClockError::SwitchNotReady)
                }
            },
            Phase::Done => Progress::Done(self.plan.frequency),
            Phase::Failed(error) => Progress::Failed(error),
        }
    }
}

impl ClockBringUp {
    /// The bring-up after steps taken one after the other on registers that
    /// hardware leaves alone, until the bring-up ends or `steps` steps have
    /// been taken.
    pub open spec fn run(
        self,
        rcc: RCCRegisters,
        flash: FlashRegisters,
        frequency: Option<u32>,
        steps: nat,
    ) -> Step
        decreases steps,
    {
        if steps == 0 {
            Step { machine: self, rcc, flash, frequency, progress: Progress::Pending }
        } else {
            let step = self.next(rcc, flash, frequency);
            if step.progress is Pending {
                step.machine.run(step.rcc, step.flash, step.frequency, (steps - 1) as nat)
            } else {
                step
            }
        }
    }

    proof fn lemma_run_has_ended(
        self,
        rcc: RCCRegisters,
        flash: FlashRegisters,
        frequency: Option<u32>,
        steps: nat,
        more: nat,
    )
        requires
            !(self.run(rcc, flash, frequency, steps).progress is Pending),
        ensures
            self.run(rcc, flash, frequency, steps + more) == self.run(rcc, flash, frequency, steps),
        decreases steps,
    {
        if steps > 0 {
            let step = self.next(rcc, flash, frequency);
            if step.progress is Pending {
                step.machine.lemma_run_has_ended(
                    step.rcc,
                    step.flash,
                    step.frequency,
                    (steps - 1) as nat,
                    more,
                );
                assert(self.run(rcc, flash, frequency, steps + more) == step.machine.run(
                    step.rcc,
                    step.flash,
                    step.frequency,
                    (steps + more - 1) as nat,
                ));
            }
        }
    }

    proof fn lemma_wait_runs_out(
        self,
        rcc: RCCRegisters,
        flash: FlashRegisters,
        frequency: Option<u32>,
        error: ClockError,
    )
        requires
            self.budget >= 1,
            self.phase == Phase::AwaitOscillator && !self.plan.oscillator_ready(rcc) && error
                == ClockError::OscillatorNotReady || self.phase == Phase::AwaitPll
                && !self.plan.pll_ready(rcc) && error == ClockError::PllNotReady || self.phase
                == Phase::AwaitSwitch && !self.plan.switch_done(rcc) && error
                == ClockError::SwitchNotReady,
        ensures
            self.run(rcc, flash, frequency, self.budget as nat) == (Step {
                machine: ClockBringUp { phase: Phase::Failed(error), budget: 0, ..self },
                rcc,
                flash,
                frequency,
                progress: Progress::Failed(error),
            }),
        decreases self.budget,
    {
        let step = self.next(rcc, flash, frequency);
        if self.budget > 1 {
            step.machine.lemma_wait_runs_out(rcc, flash, frequency, error);
            assert(self.run(rcc, flash, frequency, self.budget as nat) == step.machine.run(
                rcc,
                flash,
                frequency,
                (self.budget - 1) as nat,
            ));
        } else {
            assert(self.run(rcc, flash, frequency, 1) == step);
        }
    }
}

/// Taking the bring-up step by step gives what [`system_init`] gives: on
/// registers that hardware leaves alone, a bring-up started for a valid plan
/// ends within three waits and one step, with the registers, the resolved
/// system clock and the report of [`bring_up_outcome`].
pub proof fn lemma_steps_reach_the_outcome(
    rcc: RCCRegisters,
    flash: FlashRegisters,
    frequency: Option<u32>,
    plan: ClockPlan,
)
    requires
        plan.wf(),
    ensures
        ({
            let machine = ClockBringUp { plan, phase: Phase::Start, budget: WAIT_BUDGET };
            let end = machine.run(rcc, flash, frequency, (3 * WAIT_BUDGET + 1) as nat);
            let outcome = bring_up_outcome(
                rcc,
                flash,
                frequency,
                plan.clksrc,
                plan.pll,
                plan.hpre,
                plan.apb1,
                plan.apb2,
            );
            &&& end.rcc == outcome.rcc
            &&& end.flash == outcome.flash
            &&& end.frequency == outcome.frequency
            &&& match outcome.result {
                Ok(running) => end.progress == Progress::Done(running),
                Err(error) => end.progress == Progress::Failed(error),
            }
        }),
{
    let budget = WAIT_BUDGET as nat;
    let machine = ClockBringUp { plan, phase: Phase::Start, budget: WAIT_BUDGET };
    let first = machine.next(rcc, flash, frequency);
    assert(machine.run(rcc, flash, frequency, 3 * budget + 1) == first.machine.run(
        first.rcc,
        flash,
        frequency,
        3 * budget,
    ));
    if !plan.oscillator_ready(first.rcc) {
        first.machine.lemma_wait_runs_out(
            first.rcc,
            flash,
            frequency,
            ClockError::OscillatorNotReady,
        );
        first.machine.lemma_run_has_ended(first.rcc, flash, frequency, budget, 2 * budget);
    } else {
        let second = first.machine.next(first.rcc, flash, frequency);
        assert(first.machine.run(first.rcc, flash, frequency, 3 * budget) == second.machine.run(
            second.rcc,
            flash,
            frequency,
            (3 * budget - 1) as nat,
        ));
        if !plan.pll_ready(second.rcc) {
            second.machine.lemma_wait_runs_out(
                second.rcc,
                flash,
                frequency,
                ClockError::PllNotReady,
            );
            second.machine.lemma_run_has_ended(
                second.rcc,
                flash,
                frequency,
                budget,
                (2 * budget - 1) as nat,
            );
        } else {
            let third = second.machine.next(second.rcc, flash, frequency);
            assert(second.machine.run(second.rcc, flash, frequency, (3 * budget - 1) as nat)
                == third.machine.run(
                third.rcc,
                third.flash,
                frequency,
                (3 * budget - 2) as nat,
            ));
            if !plan.switch_done(third.rcc) {
                third.machine.lemma_wait_runs_out(
                    third.rcc,
                    third.flash,
                    frequency,
                    ClockError::SwitchNotReady,
                );
                third.machine.lemma_run_has_ended(
                    third.rcc,
                    third.flash,
                    frequency,
                    budget,
                    (2 * budget - 2) as nat,
                );
            } else {
                let last = third.machine.next(third.rcc, third.flash, frequency);
                assert(third.machine.run(
                    third.rcc,
                    third.flash,
                    frequency,
                    (3 * budget - 2) as nat,
                ) == last);
            }
        }
    }
}

} // verus!
