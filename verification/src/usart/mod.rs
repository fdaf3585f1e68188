//! Universal synchronous and asynchronous receivers and transmitters.

use vstd::prelude::*;

pub mod flags;
pub mod serial;

pub use self::flags::Control2_StopBits;
pub use self::serial::{BitCount, Parity, Serial, SerialError, StopBit};

use self::flags::{
    CONTROL1_RE, CONTROL1_TE, CONTROL3_CTSE, CONTROL3_DMAR, CONTROL3_DMAT, CONTROL3_RTSE,
};
use crate::chip::{Chip, Line};
use crate::dma::DMAStreamPeripheral;
use crate::gpio::PinPeripheral;
use crate::peripheral::{
    course_of, init_optional, lemma_settings_in_a_row, lemma_single_setting, optional_course,
    Course, InitError, Peripheral, Setting,
};
use crate::rcc::RCCPeripheral;

verus! {

/// Image of the registers of one USART.
#[derive(Clone, Copy, PartialEq, Eq, Structural, Debug)]
pub struct USARTRegisters {
    pub status: u16,
    pub data: u16,
    pub baud_rate: u16,
    pub control1: u16,
    pub control2: u16,
    pub control3: u16,
    pub gtpr_psc: u8,
    pub gtpr_gt: u8,
}

/// One of the serial interfaces, with its clock gate and with the streams and
/// the pins it uses, each of which may be absent.
#[derive(Clone, Copy, Debug)]
pub struct USARTPeripheral<'a> {
    pub line: Line,
    pub clock: RCCPeripheral,
    /// Identifier of the interrupt of the interface
    pub isr_id: u32,
    pub dma_rx: Option<&'a DMAStreamPeripheral<'a>>,
    pub dma_tx: Option<&'a DMAStreamPeripheral<'a>>,
    /// output
    pub pin_tx: Option<&'a PinPeripheral<'a>>,
    /// input
    pub pin_rx: Option<&'a PinPeripheral<'a>>,
    /// output: data terminal ready
    pub pin_dtr: Option<&'a PinPeripheral<'a>>,
    /// input: data carier detect
    pub pin_dcd: Option<&'a PinPeripheral<'a>>,
    /// input: data set ready
    pub pin_dsr: Option<&'a PinPeripheral<'a>>,
    /// input: ring indicator
    pub pin_ri: Option<&'a PinPeripheral<'a>>,
    /// output: request to send
    pub pin_rts: Option<&'a PinPeripheral<'a>>,
    /// input: clear to send
    pub pin_cts: Option<&'a PinPeripheral<'a>>,
}

impl<'a> USARTPeripheral<'a> {
    /// The third control register for the interface: hardware flow control on
    /// the lines that have a pin, and requests to the streams that are there.
    pub open spec fn control3(&self) -> u16 {
        (if self.pin_cts is Some {
            CONTROL3_CTSE
        } else {
            0
        }) | (if self.pin_rts is Some {
            CONTROL3_RTSE
        } else {
            0
        }) | (if self.dma_rx is Some {
            CONTROL3_DMAR
        } else {
            0
        }) | (if self.dma_tx is Some {
            CONTROL3_DMAT
        } else {
            0
        })
    }

    /// The first control register for the interface: the transmitter and the
    /// receiver are on where they have a pin.
    pub open spec fn control1(&self) -> u16 {
        (if self.pin_tx is Some {
            CONTROL1_TE
        } else {
            0
        }) | (if self.pin_rx is Some {
            CONTROL1_RE
        } else {
            0
        })
    }

    /// The course of initializing what the interface depends on: the pins of the
    /// data lines, of the modem lines and of the flow control lines, the clock
    /// gate, and the receiving and the transmitting stream.
    pub open spec fn prerequisites(&self) -> Course {
        optional_course(self.pin_tx).followed_by(optional_course(self.pin_rx)).followed_by(
            optional_course(self.pin_dtr),
        ).followed_by(optional_course(self.pin_dcd)).followed_by(optional_course(self.pin_dsr)).followed_by(
            optional_course(self.pin_ri),
        ).followed_by(optional_course(self.pin_rts)).followed_by(optional_course(self.pin_cts)).followed_by(
            course_of(&self.clock),
        ).followed_by(optional_course(self.dma_rx)).followed_by(optional_course(self.dma_tx))
    }

    /// The course of initializing the interface: what it depends on, then its
    /// own control registers.
    pub open spec fn course(&self) -> Course {
        self.prerequisites().followed_by(
            Course {
                settings: seq![Setting::Controls(self.line, self.control3(), self.control1())],
                result: Ok(()),
            },
        )
    }
}

fn init_next<P: Peripheral>(
    peripheral: Option<&P>,
    chip: &mut Chip,
    Ghost(start): Ghost<Chip>,
    Ghost(done): Ghost<Course>,
) -> (result: Result<(), InitError>)
    requires
        done.result is Ok,
        *old(chip) == start.with_settings(done.settings),
    ensures
        *final(chip) == start.with_settings(done.followed_by(optional_course(peripheral)).settings),
        result == done.followed_by(optional_course(peripheral)).result,
{
    proof {
        lemma_settings_in_a_row(start, done.settings, optional_course(peripheral).settings);
    }
    init_optional(peripheral, chip)
}

impl<'a> Peripheral for USARTPeripheral<'a> {
    open spec fn init_settings(&self) -> Seq<Setting> {
        self.course().settings
    }

    open spec fn init_result(&self) -> Result<(), InitError> {
        self.course().result
    }

    fn init(&self, chip: &mut Chip) -> (result: Result<(), InitError>) {
        let ghost start = *chip;
        let ghost mut done = Course::nothing();
        assert(done.settings.len() == 0);

        // setup GPIOs: data lines, sw flow control, then hw flow control
        init_next(self.pin_tx, chip, Ghost(start), Ghost(done))?;
        proof {
            done = done.followed_by(optional_course(self.pin_tx));
        }
        init_next(self.pin_rx, chip, Ghost(start), Ghost(done))?;
        proof {
            done = done.followed_by(optional_course(self.pin_rx));
        }
        init_next(self.pin_dtr, chip, Ghost(start), Ghost(done))?;
        proof {
            done = done.followed_by(optional_course(self.pin_dtr));
        }
        init_next(self.pin_dcd, chip, Ghost(start), Ghost(done))?;
        proof {
            done = done.followed_by(optional_course(self.pin_dcd));
        }
        init_next(self.pin_dsr, chip, Ghost(start), Ghost(done))?;
        proof {
            done = done.followed_by(optional_course(self.pin_dsr));
        }
        init_next(self.pin_ri, chip, Ghost(start), Ghost(done))?;
        proof {
            done = done.followed_by(optional_course(self.pin_ri));
        }
        init_next(self.pin_rts, chip, Ghost(start), Ghost(done))?;
        proof {
            done = done.followed_by(optional_course(self.pin_rts));
        }
        init_next(self.pin_cts, chip, Ghost(start), Ghost(done))?;
        proof {
            done = done.followed_by(optional_course(self.pin_cts));
        }

        // enable clock (RCC)
        init_next(Some(&self.clock), chip, Ghost(start), Ghost(done))?;
        proof {
            done = done.followed_by(course_of(&self.clock));
        }

        let cts: u16 = if self.pin_cts.is_some() {
            CONTROL3_CTSE
        } else {
            0
        };
        let rts: u16 = if self.pin_rts.is_some() {
            CONTROL3_RTSE
        } else {
            0
        };

        // setup DMA rx
        init_next(self.dma_rx, chip, Ghost(start), Ghost(done))?;
        proof {
            done = done.followed_by(optional_course(self.dma_rx));
        }
        let dmar: u16 = if self.dma_rx.is_some() {
            CONTROL3_DMAR
        } else {
            0
        };

        // setup DMA tx
        init_next(self.dma_tx, chip, Ghost(start), Ghost(done))?;
        proof {
            done = done.followed_by(optional_course(self.dma_tx));
        }
        let dmat: u16 = if self.dma_tx.is_some() {
            CONTROL3_DMAT
        } else {
            0
        };
        let cr3: u16 = cts | rts | dmar | dmat;

        let te: u16 = if self.pin_tx.is_some() {
            CONTROL1_TE
        } else {
            0
        };
        let re: u16 = if self.pin_rx.is_some() {
            CONTROL1_RE
        } else {
            0
        };
        let cr1: u16 = te | re;

        proof {
            let own = Setting::Controls(self.line, cr3, cr1);
            lemma_settings_in_a_row(start, done.settings, seq![own]);
            lemma_single_setting(start.with_settings(done.settings), own);
        }
        let registers = chip.usart_mut(self.line);
        registers.control3 = cr3;
        registers.control1 = cr1;

        Ok(())
    }
}

impl USARTRegisters {
    /// The image with every register at zero.
    pub open spec fn blank() -> USARTRegisters {
        USARTRegisters {
            status: 0,
            data: 0,
            baud_rate: 0,
            control1: 0,
            control2: 0,
            control3: 0,
            gtpr_psc: 0,
            gtpr_gt: 0,
        }
    }
}

impl Default for USARTRegisters {
    /// The image with every register at zero.
    fn default() -> (image: USARTRegisters)
        ensures
            image == USARTRegisters::blank(),
    {
        USARTRegisters {
            status: 0,
            data: 0,
            baud_rate: 0,
            control1: 0,
            control2: 0,
            control3: 0,
            gtpr_psc: 0,
            gtpr_gt: 0,
        }
    }
}

} // verus!
