//! A serial line in service: framing, baud rate, reading and writing.

use vstd::prelude::*;

use crate::chip::Chip;
use crate::dma::stream::Config_TranfertDirection;
use crate::dma::descriptor::EndpointSummary;
use crate::dma::layout::layout_of;
use crate::dma::{
    BurstSize, DMAError, DataSize, Endpoint, FifoMode, FlowControl, MemDescriptor,
    PeriphDescriptor, Transfer,
};
use crate::peripheral::{InitError, Peripheral};
use crate::rcc::{peripheral_clock, wait_for, ClockTree};
use crate::registers::{all_set16, is_set16, update16, update_bits16};
use crate::usart::flags::{
    Control2_StopBits, CONTROL1_NINEBITSWORD, CONTROL1_OVER8, CONTROL1_PCE, CONTROL1_PS,
    CONTROL1_UE, CONTROL2_STOP_MASK, STATUS_FE, STATUS_IDLE, STATUS_NE, STATUS_ORE, STATUS_PE,
    STATUS_RXNE, STATUS_TC,
};
use crate::usart::{USARTPeripheral, USARTRegisters};
use crate::ErrorKind;

verus! {

/// Number of data bits in a character.
#[derive(Clone, Copy, PartialEq, Eq, Structural, Debug)]
pub enum BitCount {
    SevenBits,
    EightBits,
    NineBits,
}

/// The parity bit of a character.
#[derive(Clone, Copy, PartialEq, Eq, Structural, Debug)]
pub enum Parity {
    NoParity,
    Even,
    Odd,
    Mark,
    Space,
}

/// Number of stop bits after a character.
#[derive(Clone, Copy, PartialEq, Eq, Structural, Debug)]
pub enum StopBit {
    OneBit,
    OneAndAHalfBit,
    TwoBits,
}

/// Why a serial line could not be brought up or used.
#[derive(Clone, Copy, PartialEq, Eq, Structural, Debug)]
pub enum SerialError {
    /// Characters of seven bits.
    UnsupportedWordLength,
    /// Characters of nine bits together with a parity bit.
    NineBitsWithParity,
    /// A parity bit that is always set.
    MarkParity,
    /// A parity bit that is always clear.
    SpaceParity,
    /// The baud rate is more than the clock of the interface can give.
    BaudrateTooHigh,
    /// The baud rate is less than the divider can reach, or zero.
    BaudrateTooLow,
    /// The clock tree has not been configured, so the clock of the interface
    /// is not known.
    ClockUnknown,
    /// A character was lost because the one before it had not been read.
    Overrun,
    /// A character came in with the wrong parity.
    ParityMismatch,
    /// A character did not leave within the polls allowed.
    TransmitTimeout,
    /// The interface could not be initialized.
    Init(InitError),
    /// The receiving stream could not be set up.
    Dma(DMAError),
}

impl SerialError {
    pub open spec fn spec_kind(self) -> ErrorKind {
        match self {
            SerialError::ClockUnknown => ErrorKind::Protocol,
            SerialError::Overrun | SerialError::ParityMismatch => ErrorKind::Reception,
            SerialError::TransmitTimeout => ErrorKind::HardwareTimeout,
            SerialError::Dma(error) => error.spec_kind(),
            _ => ErrorKind::Validation,
        }
    }

    /// The class of the error.
    #[verifier::when_used_as_spec(spec_kind)]
    pub fn kind(self) -> (kind: ErrorKind)
        ensures
            kind == self.spec_kind(),
    {
        match self {
            SerialError::ClockUnknown => ErrorKind::Protocol,
            SerialError::Overrun | SerialError::ParityMismatch => ErrorKind::Reception,
            SerialError::TransmitTimeout => ErrorKind::HardwareTimeout,
            SerialError::Dma(error) => error.kind(),
            _ => ErrorKind::Validation,
        }
    }

    pub open spec fn spec_message(self) -> Seq<char> {
        match self {
            SerialError::UnsupportedWordLength => "7 bits word len is not supported by this usart"@,
            SerialError::NineBitsWithParity => "Nine bit word is not available when parity is on"@,
            SerialError::MarkParity => "mark parity bit is not supported by this usart"@,
            SerialError::SpaceParity => "space parity bit is not supported by this usart"@,
            SerialError::BaudrateTooHigh => "This baudrate is too high for this serial port."@,
            SerialError::BaudrateTooLow => "This baudrate is too low for this serial port."@,
            SerialError::ClockUnknown => "The clock of this serial port is not known."@,
            SerialError::Overrun => "Serial overrun error !"@,
            SerialError::ParityMismatch => "Parity error !"@,
            SerialError::TransmitTimeout => "Serial transmission timed out."@,
            SerialError::Init(error) => error.spec_message(),
            SerialError::Dma(error) => error.spec_message(),
        }
    }

    /// The error in words.
    pub fn message(self) -> (text: &'static str)
        ensures
            text@ == self.spec_message(),
    {
        match self {
            SerialError::UnsupportedWordLength => "7 bits word len is not supported by this usart",
            SerialError::NineBitsWithParity => "Nine bit word is not available when parity is on",
            SerialError::MarkParity => "mark parity bit is not supported by this usart",
            SerialError::SpaceParity => "space parity bit is not supported by this usart",
            SerialError::BaudrateTooHigh => "This baudrate is too high for this serial port.",
            SerialError::BaudrateTooLow => "This baudrate is too low for this serial port.",
            SerialError::ClockUnknown => "The clock of this serial port is not known.",
            SerialError::Overrun => "Serial overrun error !",
            SerialError::ParityMismatch => "Parity error !",
            SerialError::TransmitTimeout => "Serial transmission timed out.",
            SerialError::Init(error) => error.message(),
            SerialError::Dma(error) => error.message(),
        }
    }
}

/// Largest mantissa the baud rate register can hold, plus one
pub const MANTISSA_LIMIT: u32 = 4096;

/// Number of bytes of the buffer that a receiving stream fills
pub const RX_BUFFER_SIZE: usize = 512;

/// The divider that turns the clock of an interface into a baud rate.
#[derive(Clone, Copy, PartialEq, Eq, Structural, Debug)]
pub struct Divider {
    /// Whole part of the divider
    pub mantissa: u32,
    /// Fraction of the divider: in sixteenths, or in eighths when sampling
    /// eight times for each bit
    pub fraction: u32,
    /// Each bit is sampled eight times instead of sixteen
    pub over8: bool,
}

/// The divider for `baudrate` from a clock of `clk` hertz.
///
/// The clock is divided by sixteen times the baud rate, and what is left by the
/// baud rate, which gives the fraction in sixteenths. Where the whole part comes
/// out as zero each bit is sampled eight times only: twice the fraction is then
/// split into a whole part, the eighths above seven, and a fraction in eighths.
pub open spec fn divider(clk: u32, baudrate: u32) -> Divider {
    let span = 16 * baudrate;
    let whole = clk as int / span;
    let sixteenths = (clk as int % span) / (baudrate as int);
    if whole == 0 {
        Divider {
            mantissa: ((2 * sixteenths) / 8) as u32,
            fraction: ((2 * sixteenths) % 8) as u32,
            over8: true,
        }
    } else {
        Divider { mantissa: whole as u32, fraction: (sixteenths % 16) as u32, over8: false }
    }
}

/// Why no divider gives `baudrate` from a clock of `clk` hertz, if none does:
/// the whole part of the divider is zero, and the rate too high, or it does not
/// fit its twelve bits, and the rate is too low, as is a rate of zero.
pub open spec fn baudrate_violation(clk: u32, baudrate: u32) -> Option<SerialError> {
    if baudrate == 0 {
        Some(SerialError::BaudrateTooLow)
    } else if divider(clk, baudrate).mantissa == 0 {
        Some(SerialError::BaudrateTooHigh)
    } else if divider(clk, baudrate).mantissa >= MANTISSA_LIMIT {
        Some(SerialError::BaudrateTooLow)
    } else {
        None
    }
}

impl Divider {
    /// The baud rate register for the divider: the mantissa in the upper
    /// twelve bits and the fraction in the lower four.
    pub open spec fn word(self) -> u16 {
        (self.mantissa * 16 + self.fraction) as u16
    }
}

/// Computes the divider for `baudrate` from a clock of `clk` hertz. Fails
/// exactly when no divider gives the rate.
pub fn compute_divider(clk: u32, baudrate: u32) -> (result: Result<Divider, SerialError>)
    ensures
        match baudrate_violation(clk, baudrate) {
            Some(error) => result == Err::<Divider, SerialError>(error),
            None => result == Ok::<Divider, SerialError>(divider(clk, baudrate)),
        },
        result matches Ok(divider) ==> 1 <= divider.mantissa < MANTISSA_LIMIT && divider.fraction
            < 16,
{
    if baudrate == 0 {
        return Err(SerialError::BaudrateTooLow);
    }
    let span: u64 = 16 * (baudrate as u64);
    let mut usartdiv_int: u64 = (clk as u64) / span;
    let rest: u64 = (clk as u64) % span;
    let mut usartdiv_frac: u64 = rest / (baudrate as u64);
    assert(usartdiv_frac < 16) by (nonlinear_arith)
        requires
            usartdiv_frac == rest / (baudrate as u64),
            rest < 16 * baudrate,
            baudrate > 0,
    ;
    assert(usartdiv_int <= clk) by (nonlinear_arith)
        requires
            usartdiv_int == (clk as u64) / span,
            span >= 16,
    ;

    let over8: bool = usartdiv_int == 0;
    if over8 {
        usartdiv_frac *= 2;
        proof {
            lemma_eighths(usartdiv_frac);
        }
        usartdiv_int += usartdiv_frac >> 3;
        usartdiv_frac &= 0x7;
    } else {
        proof {
            lemma_eighths(usartdiv_frac);
        }
        usartdiv_frac &= 0xF;
    }
    if usartdiv_int == 0 {
        return Err(SerialError::BaudrateTooHigh);
    }
    if usartdiv_int >= MANTISSA_LIMIT as u64 {
        return Err(SerialError::BaudrateTooLow);
    }
    Ok(Divider { mantissa: usartdiv_int as u32, fraction: usartdiv_frac as u32, over8 })
}

/// Sampling sixteen times for each bit, the divider counted in sixteenths is
/// the clock divided by the baud rate, rounded down.
pub proof fn lemma_divider_in_sixteenths(clk: u32, baudrate: u32)
    requires
        baudrate > 0,
        !divider(clk, baudrate).over8,
    ensures
        16 * divider(clk, baudrate).mantissa + divider(clk, baudrate).fraction == clk as int / (
        baudrate as int),
{
    let span = 16 * baudrate;
    let whole = clk as int / span;
    let rest = clk as int % span;
    let sixteenths = rest / (baudrate as int);
    assert(0 <= sixteenths < 16 && whole <= clk && clk as int / (baudrate as int) == 16 * whole
        + sixteenths) by (nonlinear_arith)
        requires
            baudrate > 0,
            span == 16 * baudrate,
            whole == clk as int / span,
            rest == clk as int % span,
            sixteenths == rest / (baudrate as int),
    ;
}

proof fn lemma_eighths(value: u64)
    by (bit_vector)
    ensures
        value >> 3 == value / 8,
        value & 0x7 == value % 8,
        value & 0xF == value % 16,
{
}

proof fn lemma_packed(mantissa: u16, fraction: u16)
    by (bit_vector)
    requires
        mantissa < 4096,
        fraction < 16,
    ensures
        (mantissa << 4) | fraction == mantissa * 16 + fraction,
{
}

/// Why the interface cannot frame characters of `word_len` bits with `parity`,
/// if it cannot: the word length is looked at first.
pub open spec fn frame_violation(word_len: BitCount, parity: Parity) -> Option<SerialError> {
    if word_len == BitCount::SevenBits {
        Some(SerialError::UnsupportedWordLength)
    } else if word_len == BitCount::NineBits && parity != Parity::NoParity {
        Some(SerialError::NineBitsWithParity)
    } else if parity == Parity::Mark {
        Some(SerialError::MarkParity)
    } else if parity == Parity::Space {
        Some(SerialError::SpaceParity)
    } else {
        None
    }
}

/// The bits of the first control register that frame a character: nine bits
/// are sent for nine data bits and for eight data bits with a parity bit.
pub open spec fn frame_bits(word_len: BitCount, parity: Parity) -> u16 {
    (if word_len == BitCount::NineBits {
        CONTROL1_NINEBITSWORD
    } else {
        0
    }) | (match parity {
        Parity::Even => CONTROL1_PCE | CONTROL1_NINEBITSWORD,
        Parity::Odd => CONTROL1_PCE | CONTROL1_PS | CONTROL1_NINEBITSWORD,
        _ => 0,
    })
}

/// The stop bits as the second control register holds them.
pub open spec fn stop_bits(stop_bit: StopBit) -> u16 {
    match stop_bit {
        StopBit::OneBit => Control2_StopBits::OneBit.bits(),
        StopBit::OneAndAHalfBit => Control2_StopBits::OneAndAHalfBit.bits(),
        StopBit::TwoBits => Control2_StopBits::TwoBits.bits(),
    }
}

/// Why a line cannot be opened, if it cannot: the framing is looked at first,
/// then the clock of the interface has to be known, then the baud rate has to
/// be in reach of it.
pub open spec fn open_violation(
    clock: Option<u32>,
    baudrate: u32,
    word_len: BitCount,
    parity: Parity,
) -> Option<SerialError> {
    if frame_violation(word_len, parity) is Some {
        frame_violation(word_len, parity)
    } else {
        match clock {
            None => Some(SerialError::ClockUnknown),
            Some(clk) => baudrate_violation(clk, baudrate),
        }
    }
}

/// The status of a received character: none has arrived, one has arrived and
/// is good, or one has arrived and is not to be trusted. An overrun counts
/// before a parity error.
pub open spec fn reception(status: u16) -> Result<bool, SerialError> {
    if !all_set16(status, STATUS_RXNE) {
        Ok(false)
    } else if all_set16(status, STATUS_ORE) {
        Err(SerialError::Overrun)
    } else if all_set16(status, STATUS_PE) {
        Err(SerialError::ParityMismatch)
    } else {
        Ok(true)
    }
}

/// Tells from the status register what has become of a received character:
/// see [`reception`].
pub fn check_reception(status: u16) -> (arrived: Result<bool, SerialError>)
    ensures
        arrived == reception(status),
{
    if !is_set16(status, STATUS_RXNE) {
        Ok(false)
    } else if is_set16(status, STATUS_ORE) {
        Err(SerialError::Overrun)
    } else if is_set16(status, STATUS_PE) {
        Err(SerialError::ParityMismatch)
    } else {
        Ok(true)
    }
}

impl USARTRegisters {
    /// The registers of a line opened with `divider` and the given framing:
    /// the baud rate register holds the divider, the line is enabled with the
    /// framing and the sampling of the divider, and the stop bits are set.
    pub open spec fn opened(
        self,
        divider: Divider,
        word_len: BitCount,
        parity: Parity,
        stop_bit: StopBit,
    ) -> USARTRegisters {
        USARTRegisters {
            baud_rate: divider.word(),
            control1: update_bits16(
                self.control1,
                frame_bits(word_len, parity) | (if divider.over8 {
                    CONTROL1_OVER8
                } else {
                    0
                }) | CONTROL1_UE,
                CONTROL1_OVER8 | CONTROL1_PCE | CONTROL1_PS | CONTROL1_NINEBITSWORD | CONTROL1_UE,
            ),
            control2: update_bits16(self.control2, stop_bits(stop_bit), CONTROL2_STOP_MASK),
            ..self
        }
    }

    /// The registers of a line that has been disabled.
    pub open spec fn closed(self) -> USARTRegisters {
        USARTRegisters { control1: update_bits16(self.control1, 0, CONTROL1_UE), ..self }
    }

    /// The registers after the status and the data register have been read, which
    /// takes the received character and clears the flags that came with it.
    pub open spec fn drained(self) -> USARTRegisters {
        USARTRegisters {
            status: update_bits16(
                self.status,
                0,
                STATUS_PE | STATUS_FE | STATUS_NE | STATUS_ORE | STATUS_IDLE | STATUS_RXNE,
            ),
            ..self
        }
    }

    /// The character in the data register.
    pub open spec fn received(self) -> u8 {
        (self.data % 256) as u8
    }

    /// The last character has left the transmitter.
    pub open spec fn transmitted(self) -> bool {
        all_set16(self.status, STATUS_TC)
    }

    /// The baud rate the registers stand for under a clock of `clock` hertz:
    /// the clock divided by the divider, taken in sixteenths, or in eighths when
    /// each bit is sampled eight times. Zero where the clock is not known or the
    /// divider is zero.
    pub open spec fn rate(self, clock: Option<u32>) -> int {
        let mantissa = self.baud_rate as int / 16;
        let fraction = self.baud_rate as int % 16;
        let span = if all_set16(self.control1, CONTROL1_OVER8) {
            8 * mantissa + fraction % 8
        } else {
            16 * mantissa + fraction
        };
        match clock {
            Some(clk) if span != 0 => clk as int / span,
            _ => 0,
        }
    }
}

/// The receive buffer of a line served by a stream: [`RX_BUFFER_SIZE`] bytes,
/// each filled as one beat, in a single pass.
pub open spec fn is_rx_buffer(descriptor: MemDescriptor<u8>) -> bool {
    &&& descriptor.data@ == Seq::new(RX_BUFFER_SIZE as nat, |i: int| 0u8)
    &&& descriptor.burst == Some(BurstSize::Byte)
    &&& !descriptor.circular_mode
    &&& descriptor.double_buffer is None
}

/// The data register of `periph` as a stream sees it: a byte at a fixed
/// address, moved without a FIFO, the peripheral ending the transfer.
pub open spec fn rx_source(periph: USARTPeripheral) -> PeriphDescriptor {
    PeriphDescriptor {
        address: periph.line.data_register(),
        size: DataSize::Byte,
        increment: None,
        burst: None,
        fifo_mode: FifoMode::Direct,
        flow_ctrl: FlowControl::Peripheral,
    }
}

/// The address at which the bytes of `buffer` lie, as `Vec::as_ptr` of the
/// standard library gives it, cut to the 32 bits of an address of the chip.
/// Nothing is claimed of the address: it is the allocator's to choose.
#[verifier::external_body]
fn buffer_address(buffer: &Vec<u8>) -> (address: u32) {
    buffer.as_ptr() as usize as u32
}

fn zeroed(len: usize) -> (buffer: Vec<u8>)
    ensures
        buffer@ == Seq::new(len as nat, |i: int| 0u8),
{
    let mut buffer: Vec<u8> = Vec::new();
    while buffer.len() < len
        invariant
            buffer@.len() <= len,
            forall|i: int| 0 <= i < buffer@.len() ==> buffer@[i] == 0u8,
        decreases len - buffer.len(),
    {
        buffer.push(0u8);
    }
    assert(buffer@ =~= Seq::new(len as nat, |i: int| 0u8));
    buffer
}

/// A serial interface in service.
pub struct Serial<'a> {
    periph: &'a USARTPeripheral<'a>,
    rx_buf: Option<Transfer<u8>>,
}

impl<'a> Serial<'a> {
    /// The interface behind the line.
    pub closed spec fn peripheral(&self) -> USARTPeripheral<'a> {
        *self.periph
    }

    /// The transfer that fills the receive buffer, where a stream serves the
    /// line.
    pub closed spec fn receiving(&self) -> Option<Transfer<u8>> {
        self.rx_buf
    }

    /// The registers of the line on `chip`.
    pub open spec fn registers(&self, chip: Chip) -> USARTRegisters {
        chip.usart(self.peripheral().line)
    }

    /// Initializes the interface and puts the line in service. Where the
    /// interface has a receiving stream, the stream is set up to fill a fresh
    /// buffer from the data register, and the buffer stays with the line.
    ///
    /// Fails where the initialization fails, with what it had written left
    /// written, and where the receiving stream is enabled, with the interface
    /// initialized.
    pub fn from(f: &'a USARTPeripheral<'a>, chip: &mut Chip) -> (serial: Result<
        Serial<'a>,
        SerialError,
    >)
        ensures
            ({
                let initialized = old(chip).with_settings(f.init_settings());
                match (f.init_result(), f.dma_rx) {
                    (Err(error), _) => {
                        &&& serial matches Err(e)
                        &&& e == SerialError::Init(error)
                        &&& *final(chip) == initialized
                    },
                    (Ok(()), None) => {
                        &&& serial matches Ok(line)
                        &&& line.peripheral() == *f
                        &&& line.receiving() is None
                        &&& *final(chip) == initialized
                    },
                    (Ok(()), Some(dma_rx)) => if dma_rx.registers(initialized).active() {
                        &&& serial matches Err(e)
                        &&& e == SerialError::Dma(DMAError::StreamActive)
                        &&& *final(chip) == initialized
                    } else {
                        &&& serial matches Ok(line)
                        &&& line.peripheral() == *f
                        &&& line.receiving() matches Some(transfer)
                        &&& transfer.controller() == dma_rx.dma.controller
                        &&& transfer.stream() == dma_rx.stream
                        &&& transfer.source() == Endpoint::<u8>::Peripheral(rx_source(*f))
                        &&& transfer.destination() matches Endpoint::Memory(buffer)
                        &&& is_rx_buffer(buffer)
                        &&& *final(chip) == dma_rx.with_registers(
                            initialized,
                            dma_rx.registers(initialized).set_up(
                                dma_rx.channel,
                                dma_rx.priority,
                                layout_of(
                                    Config_TranfertDirection::PeripheralToMemory,
                                    EndpointSummary::Peripheral(rx_source(*f)),
                                    EndpointSummary::Memory(buffer.summary()),
                                ),
                            ),
                        )
                    },
                }
            }),
    {
        match f.init(chip) {
            Err(error) => {
                return Err(SerialError::Init(error));
            },
            Ok(()) => {},
        }

        let rx_buf: Option<Transfer<u8>> = match f.dma_rx {
            Some(dma_rx) => {
                let buf: Vec<u8> = zeroed(RX_BUFFER_SIZE);
                let address: u32 = buffer_address(&buf);
                let from = PeriphDescriptor {
                    address: f.line.data_register(),
                    size: DataSize::Byte,
                    increment: None,
                    burst: None,
                    fifo_mode: FifoMode::Direct,
                    flow_ctrl: FlowControl::Peripheral,
                };
                let to = MemDescriptor {
                    data: buf,
                    address,
                    burst: Some(BurstSize::Byte),
                    circular_mode: false,
                    double_buffer: None,
                };
                match dma_rx.periph_to_mem(chip, from, to) {
                    Err(rejected) => {
                        return Err(SerialError::Dma(rejected.error));
                    },
                    Ok(transfer) => Some(transfer),
                }
            },
            None => None,
        };

        Ok(Serial { periph: f, rx_buf })
    }

    /// The baud rate the line is set to, in the light of the clock that reaches
    /// the interface; zero where that clock is not known or no rate is set.
    pub fn baudrate(&self, chip: &Chip, tree: &ClockTree) -> (rate: usize)
        ensures
            rate == self.registers(*chip).rate(
                peripheral_clock(tree.frequency(), chip.rcc.config, self.peripheral().clock.clock),
            ),
    {
        let registers = chip.usart_ref(self.periph.line);
        let mantissa: u32 = (registers.baud_rate / 16) as u32;
        let fraction: u32 = (registers.baud_rate % 16) as u32;
        let span: u32 = if is_set16(registers.control1, CONTROL1_OVER8) {
            8 * mantissa + fraction % 8
        } else {
            16 * mantissa + fraction
        };
        match self.periph.clock.get_clock(tree, &chip.rcc) {
            Some(clk) => if span != 0 {
                (clk / span) as usize
            } else {
                0
            },
            None => 0,
        }
    }

    /// Sets the line to `baudrate` with the given framing and enables it.
    ///
    /// Fails, with every register left as it is, where the interface cannot
    /// frame characters this way, where the clock of the interface is not known,
    /// and where the baud rate is out of reach of that clock.
    pub fn open(
        &mut self,
        chip: &mut Chip,
        tree: &ClockTree,
        baudrate: u32,
        word_len: BitCount,
        parity: Parity,
        stop_bit: StopBit,
    ) -> (result: Result<(), SerialError>)
        ensures
            final(self).peripheral() == old(self).peripheral(),
            final(self).receiving() == old(self).receiving(),
            ({
                let clock = peripheral_clock(
                    tree.frequency(),
                    old(chip).rcc.config,
                    old(self).peripheral().clock.clock,
                );
                match open_violation(clock, baudrate, word_len, parity) {
                    Some(error) => result == Err::<(), SerialError>(error) && *final(chip) == *old(
                        chip,
                    ),
                    None => result == Ok::<(), SerialError>(()) && *final(chip) == old(
                        chip,
                    ).with_usart(
                        old(self).peripheral().line,
                        old(self).registers(*old(chip)).opened(
                            divider(clock->Some_0, baudrate),
                            word_len,
                            parity,
                            stop_bit,
                        ),
                    ),
                }
            }),
    {
        let cr2: u16 = match stop_bit {
            StopBit::OneBit => Control2_StopBits::OneBit.bits(),
            StopBit::OneAndAHalfBit => Control2_StopBits::OneAndAHalfBit.bits(),
            StopBit::TwoBits => Control2_StopBits::TwoBits.bits(),
        };

        let length: u16 = match word_len {
            BitCount::SevenBits => {
                return Err(SerialError::UnsupportedWordLength);
            },
            BitCount::EightBits => 0,
            BitCount::NineBits => {
                match parity {
                    Parity::NoParity => {},
                    _ => {
                        return Err(SerialError::NineBitsWithParity);
                    },
                }
                CONTROL1_NINEBITSWORD
            },
        };

        let checked: u16 = match parity {
            Parity::NoParity => 0,
            Parity::Even => CONTROL1_PCE | CONTROL1_NINEBITSWORD,
            Parity::Odd => CONTROL1_PCE | CONTROL1_PS | CONTROL1_NINEBITSWORD,
            Parity::Mark => {
                return Err(SerialError::MarkParity);
            },
            Parity::Space => {
                return Err(SerialError::SpaceParity);
            },
        };

        let clk: u32 = match self.periph.clock.get_clock(tree, &chip.rcc) {
            None => {
                return Err(SerialError::ClockUnknown);
            },
            Some(clk) => clk,
        };

        let divider: Divider = match compute_divider(clk, baudrate) {
            Err(error) => {
                return Err(error);
            },
            Ok(divider) => divider,
        };
        let sampling: u16 = if divider.over8 {
            CONTROL1_OVER8
        } else {
            0
        };

        let mantissa: u16 = divider.mantissa as u16;
        let div: u16 = divider.fraction as u16;
        proof {
            lemma_packed(mantissa, div);
        }

        let registers = chip.usart_mut(self.periph.line);
        registers.baud_rate = (mantissa << 4) | div;
        update16(
            &mut registers.control1,
            length | checked | sampling | CONTROL1_UE,
            CONTROL1_OVER8 | CONTROL1_PCE | CONTROL1_PS | CONTROL1_NINEBITSWORD | CONTROL1_UE,
        );
        update16(&mut registers.control2, cr2, CONTROL2_STOP_MASK);
        Ok(())
    }

    /// Disables the line.
    pub fn close(&mut self, chip: &mut Chip)
        ensures
            final(self).peripheral() == old(self).peripheral(),
            final(self).receiving() == old(self).receiving(),
            *final(chip) == old(chip).with_usart(
                old(self).peripheral().line,
                old(self).registers(*old(chip)).closed(),
            ),
    {
        let registers = chip.usart_mut(self.periph.line);
        update16(&mut registers.control1, 0, CONTROL1_UE);
    }

    /// Reads the character that has arrived, if any, into the first place of
    /// `dest`, and returns how many characters it put there.
    ///
    /// Nothing is read into an empty `dest`. Otherwise the status and the data
    /// register are read, which clears the flags of the character: without a
    /// character nothing is stored; a character that overran or came with the
    /// wrong parity is dropped and reported.
    pub fn read(&mut self, chip: &mut Chip, dest: &mut [u8]) -> (count: Result<usize, SerialError>)
        ensures
            final(self).peripheral() == old(self).peripheral(),
            final(self).receiving() == old(self).receiving(),
            old(dest)@.len() == 0 ==> count == Ok::<usize, SerialError>(0) && *final(chip) == *old(
                chip,
            ) && final(dest)@ == old(dest)@,
            old(dest)@.len() > 0 ==> {
                let registers = old(self).registers(*old(chip));
                &&& *final(chip) == old(chip).with_usart(
                    old(self).peripheral().line,
                    registers.drained(),
                )
                &&& match reception(registers.status) {
                    Ok(true) => count == Ok::<usize, SerialError>(1) && final(dest)@ == old(
                        dest,
                    )@.update(0, registers.received()),
                    Ok(false) => count == Ok::<usize, SerialError>(0) && final(dest)@ == old(
                        dest,
                    )@,
                    Err(error) => count == Err::<usize, SerialError>(error) && final(dest)@
                        == old(dest)@,
                }
            },
    {
        if dest.len() < 1 {
            return Ok(0);
        }
        let registers = chip.usart_mut(self.periph.line);
        let status: u16 = registers.status;
        let data: u8 = (registers.data % 256) as u8;
        update16(
            &mut registers.status,
            0,
            STATUS_PE | STATUS_FE | STATUS_NE | STATUS_ORE | STATUS_IDLE | STATUS_RXNE,
        );

        match check_reception(status) {
            Ok(false) => Ok(0),
            Err(error) => Err(error),
            Ok(true) => {
                dest[0] = data;
                Ok(1)
            },
        }
    }

    /// Sends the characters of `dest` one after the other and returns how many
    /// were sent: all of them.
    ///
    /// Each character is put into the data register and awaited with a bounded
    /// number of polls. Fails where a character does not leave in time; the
    /// data register then holds that character.
    pub fn write(&mut self, chip: &mut Chip, dest: &[u8]) -> (count: Result<usize, SerialError>)
        ensures
            final(self).peripheral() == old(self).peripheral(),
            final(self).receiving() == old(self).receiving(),
            ({
                let registers = old(self).registers(*old(chip));
                if dest@.len() == 0 {
                    count == Ok::<usize, SerialError>(0) && *final(chip) == *old(chip)
                } else if registers.transmitted() {
                    count == Ok::<usize, SerialError>(dest@.len() as usize) && *final(chip) == old(
                        chip,
                    ).with_usart(
                        old(self).peripheral().line,
                        USARTRegisters { data: dest@[dest@.len() - 1] as u16, ..registers },
                    )
                } else {
                    count == Err::<usize, SerialError>(SerialError::TransmitTimeout) && *final(chip)
                        == old(chip).with_usart(
                        old(self).peripheral().line,
                        USARTRegisters { data: dest@[0] as u16, ..registers },
                    )
                }
            }),
    {
        let ghost before = chip.usart(self.periph.line);
        let mut sent: usize = 0;
        while sent < dest.len()
            invariant
                sent <= dest@.len(),
                self.peripheral() == old(self).peripheral(),
                self.receiving() == old(self).receiving(),
                before == old(chip).usart(old(self).peripheral().line),
                sent == 0 ==> *chip == *old(chip),
                sent > 0 ==> before.transmitted() && *chip == old(chip).with_usart(
                    old(self).peripheral().line,
                    USARTRegisters { data: dest@[sent - 1] as u16, ..before },
                ),
            decreases dest@.len() - sent,
        {
            let registers = chip.usart_mut(self.periph.line);
            registers.data = dest[sent] as u16;
            let status: u16 = registers.status;
            let complete = || -> (done: bool)
                ensures
                    done == all_set16(status, STATUS_TC),
                { is_set16(status, STATUS_TC) };
            if !wait_for(&complete) {
                return Err(SerialError::TransmitTimeout);
            }
            sent += 1;
        }
        Ok(dest.len())
    }
}

} // verus!
