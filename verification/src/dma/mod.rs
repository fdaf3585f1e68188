//! Direct memory access: two controllers of eight streams each.

use vstd::prelude::*;

pub mod descriptor;
pub mod interrupt;
pub mod layout;
pub mod stream;
pub mod transfer;

pub use self::stream::Config_PriorityLevel as Priority;

use self::stream::{Config_BurstTransfert, Config_DataSize, FiFo_ThresholdSelection};
pub use self::descriptor::{Endpoint, MemDescriptor, PeriphDescriptor};
pub use self::layout::DMAError;
pub use self::transfer::{DMAStreamPeripheral, Rejected, Transfer};
use crate::chip::{Chip, Controller};
use crate::peripheral::{InitError, Peripheral, Setting};
use crate::rcc::RCCPeripheral;

verus! {

/// Image of the registers of one stream.
#[derive(Clone, Copy, PartialEq, Eq, Structural, Debug)]
pub struct DMAStreamRegisters {
    pub config: u32,
    pub number_of_data: u32,
    pub peripheral_addr: u32,
    pub memory_0_addr: u32,
    pub memory_1_addr: u32,
    pub fifo_control: u32,
}

/// Image of the registers of one controller. The interrupt status is
/// read-only, the interrupt flag clear registers are write-only.
#[derive(Clone, Copy, PartialEq, Eq, Structural, Debug)]
pub struct DMARegisters {
    pub interrupt_status_low: u32,
    pub interrupt_status_high: u32,
    pub interrupt_flag_clear_low: u32,
    pub interrupt_flag_clear_high: u32,
    pub stream0: DMAStreamRegisters,
    pub stream1: DMAStreamRegisters,
    pub stream2: DMAStreamRegisters,
    pub stream3: DMAStreamRegisters,
    pub stream4: DMAStreamRegisters,
    pub stream5: DMAStreamRegisters,
    pub stream6: DMAStreamRegisters,
    pub stream7: DMAStreamRegisters,
}

/// The request line a stream listens to.
#[derive(Clone, Copy, PartialEq, Eq, Structural, Debug)]
pub enum Channel {
    Channel0,
    Channel1,
    Channel2,
    Channel3,
    Channel4,
    Channel5,
    Channel6,
    Channel7,
}

impl Channel {
    /// The number of the channel.
    pub open spec fn spec_code(self) -> u32 {
        match self {
            Channel::Channel0 => 0,
            Channel::Channel1 => 1,
            Channel::Channel2 => 2,
            Channel::Channel3 => 3,
            Channel::Channel4 => 4,
            Channel::Channel5 => 5,
            Channel::Channel6 => 6,
            Channel::Channel7 => 7,
        }
    }

    #[verifier::when_used_as_spec(spec_code)]
    pub fn code(self) -> (code: u32)
        ensures
            code == self.spec_code(),
    {
        match self {
            Channel::Channel0 => 0,
            Channel::Channel1 => 1,
            Channel::Channel2 => 2,
            Channel::Channel3 => 3,
            Channel::Channel4 => 4,
            Channel::Channel5 => 5,
            Channel::Channel6 => 6,
            Channel::Channel7 => 7,
        }
    }
}

/// One of the eight transfer engines of a controller.
#[derive(Clone, Copy, PartialEq, Eq, Structural, Debug)]
pub enum Stream {
    Stream0,
    Stream1,
    Stream2,
    Stream3,
    Stream4,
    Stream5,
    Stream6,
    Stream7,
}

impl DMARegisters {
    /// The registers of `stream`.
    pub open spec fn stream(self, stream: Stream) -> DMAStreamRegisters {
        match stream {
            Stream::Stream0 => self.stream0,
            Stream::Stream1 => self.stream1,
            Stream::Stream2 => self.stream2,
            Stream::Stream3 => self.stream3,
            Stream::Stream4 => self.stream4,
            Stream::Stream5 => self.stream5,
            Stream::Stream6 => self.stream6,
            Stream::Stream7 => self.stream7,
        }
    }

    /// The controller with `registers` in the place of the registers of
    /// `stream`.
    pub open spec fn with_stream(self, stream: Stream, registers: DMAStreamRegisters) -> DMARegisters {
        match stream {
            Stream::Stream0 => DMARegisters { stream0: registers, ..self },
            Stream::Stream1 => DMARegisters { stream1: registers, ..self },
            Stream::Stream2 => DMARegisters { stream2: registers, ..self },
            Stream::Stream3 => DMARegisters { stream3: registers, ..self },
            Stream::Stream4 => DMARegisters { stream4: registers, ..self },
            Stream::Stream5 => DMARegisters { stream5: registers, ..self },
            Stream::Stream6 => DMARegisters { stream6: registers, ..self },
            Stream::Stream7 => DMARegisters { stream7: registers, ..self },
        }
    }

    /// The registers of `stream`, to read and to write.
    pub fn stream_mut(&mut self, stream: Stream) -> (registers: &mut DMAStreamRegisters)
        ensures
            *registers == old(self).stream(stream),
            *final(self) == old(self).with_stream(stream, *final(registers)),
    {
        match stream {
            Stream::Stream0 => &mut self.stream0,
            Stream::Stream1 => &mut self.stream1,
            Stream::Stream2 => &mut self.stream2,
            Stream::Stream3 => &mut self.stream3,
            Stream::Stream4 => &mut self.stream4,
            Stream::Stream5 => &mut self.stream5,
            Stream::Stream6 => &mut self.stream6,
            Stream::Stream7 => &mut self.stream7,
        }
    }

    /// The registers of `stream`, to read.
    pub fn stream_ref(&self, stream: Stream) -> (registers: &DMAStreamRegisters)
        ensures
            *registers == self.stream(stream),
    {
        match stream {
            Stream::Stream0 => &self.stream0,
            Stream::Stream1 => &self.stream1,
            Stream::Stream2 => &self.stream2,
            Stream::Stream3 => &self.stream3,
            Stream::Stream4 => &self.stream4,
            Stream::Stream5 => &self.stream5,
            Stream::Stream6 => &self.stream6,
            Stream::Stream7 => &self.stream7,
        }
    }
}

/// One of the controllers, with its clock gate.
#[derive(Clone, Copy, PartialEq, Eq, Structural, Debug)]
pub struct DMAPeripheral {
    pub controller: Controller,
    pub clock: RCCPeripheral,
}

impl Peripheral for DMAPeripheral {
    /// The clock gate of the controller is opened.
    open spec fn init_settings(&self) -> Seq<Setting> {
        self.clock.init_settings()
    }

    open spec fn init_result(&self) -> Result<(), InitError> {
        self.clock.init_result()
    }

    fn init(&self, chip: &mut Chip) -> (result: Result<(), InitError>) {
        self.clock.init(chip)
    }
}

/// The width of a data item.
#[derive(Clone, Copy, PartialEq, Eq, Structural, Debug)]
pub enum DataSize {
    Byte,
    HalfWord,
    Word,
}

impl DataSize {
    /// The width in bytes.
    pub open spec fn spec_bytes(self) -> usize {
        match self {
            DataSize::Byte => 1,
            DataSize::HalfWord => 2,
            DataSize::Word => 4,
        }
    }

    /// The width as the configuration register holds it.
    pub open spec fn spec_field(self) -> Config_DataSize {
        match self {
            DataSize::Byte => Config_DataSize::Byte,
            DataSize::HalfWord => Config_DataSize::HalfWord,
            DataSize::Word => Config_DataSize::Word,
        }
    }

    #[verifier::when_used_as_spec(spec_bytes)]
    pub fn bytes(self) -> (bytes: usize)
        ensures
            bytes == self.spec_bytes(),
    {
        match self {
            DataSize::Byte => 1,
            DataSize::HalfWord => 2,
            DataSize::Word => 4,
        }
    }

    #[verifier::when_used_as_spec(spec_field)]
    pub fn field(self) -> (field: Config_DataSize)
        ensures
            field == self.spec_field(),
    {
        match self {
            DataSize::Byte => Config_DataSize::Byte,
            DataSize::HalfWord => Config_DataSize::HalfWord,
            DataSize::Word => Config_DataSize::Word,
        }
    }
}

/// The number of data items moved in one burst.
#[derive(Clone, Copy, PartialEq, Eq, Structural, Debug)]
pub enum BurstSize {
    Byte,
    Word,
    DoubleWord,
    QuadWord,
}

impl BurstSize {
    /// The number of beats.
    pub open spec fn spec_beats(self) -> usize {
        match self {
            BurstSize::Byte => 1,
            BurstSize::Word => 4,
            BurstSize::DoubleWord => 8,
            BurstSize::QuadWord => 16,
        }
    }

    /// The burst as the configuration register holds it.
    pub open spec fn spec_field(self) -> Config_BurstTransfert {
        match self {
            BurstSize::Byte => Config_BurstTransfert::Single,
            BurstSize::Word => Config_BurstTransfert::Incr4,
            BurstSize::DoubleWord => Config_BurstTransfert::Incr8,
            BurstSize::QuadWord => Config_BurstTransfert::Incr16,
        }
    }

    #[verifier::when_used_as_spec(spec_beats)]
    pub fn beats(self) -> (beats: usize)
        ensures
            beats == self.spec_beats(),
    {
        match self {
            BurstSize::Byte => 1,
            BurstSize::Word => 4,
            BurstSize::DoubleWord => 8,
            BurstSize::QuadWord => 16,
        }
    }

    #[verifier::when_used_as_spec(spec_field)]
    pub fn field(self) -> (field: Config_BurstTransfert)
        ensures
            field == self.spec_field(),
    {
        match self {
            BurstSize::Byte => Config_BurstTransfert::Single,
            BurstSize::Word => Config_BurstTransfert::Incr4,
            BurstSize::DoubleWord => Config_BurstTransfert::Incr8,
            BurstSize::QuadWord => Config_BurstTransfert::Incr16,
        }
    }
}

/// The step of a peripheral address that increments: the width of the data
/// item, or four bytes whatever the width.
#[derive(Clone, Copy, PartialEq, Eq, Structural, Debug)]
pub enum IncOffset {
    PSize,
    Word,
}

#[derive(Clone, Copy, PartialEq, Eq, Structural, Debug)]
pub enum FifoThreshold {
    OneQuarterFull,
    HalfFull,
    ThreeQuarterFull,
    Full,
}

impl FifoThreshold {
    /// The threshold as the FIFO control register holds it.
    pub open spec fn spec_field(self) -> FiFo_ThresholdSelection {
        match self {
            FifoThreshold::OneQuarterFull => FiFo_ThresholdSelection::OneQuarterFull,
            FifoThreshold::HalfFull => FiFo_ThresholdSelection::HalfFull,
            FifoThreshold::ThreeQuarterFull => FiFo_ThresholdSelection::ThreeQuarterFull,
            FifoThreshold::Full => FiFo_ThresholdSelection::Full,
        }
    }

    #[verifier::when_used_as_spec(spec_field)]
    pub fn field(self) -> (field: FiFo_ThresholdSelection)
        ensures
            field == self.spec_field(),
    {
        match self {
            FifoThreshold::OneQuarterFull => FiFo_ThresholdSelection::OneQuarterFull,
            FifoThreshold::HalfFull => FiFo_ThresholdSelection::HalfFull,
            FifoThreshold::ThreeQuarterFull => FiFo_ThresholdSelection::ThreeQuarterFull,
            FifoThreshold::Full => FiFo_ThresholdSelection::Full,
        }
    }
}

/// Whether data pass straight through or wait in the FIFO up to a threshold.
#[derive(Clone, Copy, PartialEq, Eq, Structural, Debug)]
pub enum FifoMode {
    Direct,
    Fifo(FifoThreshold),
}

/// Who ends the transfer: the peripheral, or the controller when the count of
/// items runs out.
#[derive(Clone, Copy, PartialEq, Eq, Structural, Debug)]
pub enum FlowControl {
    Peripheral,
    DMA,
}

/// A type whose values a stream can move.
pub trait DMAAble {
    /// The width a stream moves a value of the type with.
    spec fn spec_datasize(&self) -> DataSize;

    /// The width a stream moves a value of the type with.
    fn datasize(&self) -> (size: DataSize)
        ensures
            size == self.spec_datasize(),
    ;
}

impl DMAAble for u32 {
    open spec fn spec_datasize(&self) -> DataSize {
        DataSize::Word
    }

    fn datasize(&self) -> (size: DataSize) {
        DataSize::Word
    }
}

impl DMAAble for u16 {
    open spec fn spec_datasize(&self) -> DataSize {
        DataSize::HalfWord
    }

    fn datasize(&self) -> (size: DataSize) {
        DataSize::HalfWord
    }
}

impl DMAAble for u8 {
    open spec fn spec_datasize(&self) -> DataSize {
        DataSize::Byte
    }

    fn datasize(&self) -> (size: DataSize) {
        DataSize::Byte
    }
}

impl DMAAble for i32 {
    open spec fn spec_datasize(&self) -> DataSize {
        DataSize::Word
    }

    fn datasize(&self) -> (size: DataSize) {
        DataSize::Word
    }
}

impl DMAAble for i16 {
    open spec fn spec_datasize(&self) -> DataSize {
        DataSize::HalfWord
    }

    fn datasize(&self) -> (size: DataSize) {
        DataSize::HalfWord
    }
}

impl DMAAble for i8 {
    open spec fn spec_datasize(&self) -> DataSize {
        DataSize::Byte
    }

    fn datasize(&self) -> (size: DataSize) {
        DataSize::Byte
    }
}

impl DMAStreamRegisters {
    /// The image with every register at zero.
    pub open spec fn blank() -> DMAStreamRegisters {
        DMAStreamRegisters {
            config: 0,
            number_of_data: 0,
            peripheral_addr: 0,
            memory_0_addr: 0,
            memory_1_addr: 0,
            fifo_control: 0,
        }
    }
}

impl Default for DMAStreamRegisters {
    /// The image with every register at zero.
    fn default() -> (image: DMAStreamRegisters)
        ensures
            image == DMAStreamRegisters::blank(),
    {
        DMAStreamRegisters {
            config: 0,
            number_of_data: 0,
            peripheral_addr: 0,
            memory_0_addr: 0,
            memory_1_addr: 0,
            fifo_control: 0,
        }
    }
}

impl DMARegisters {
    /// The image with every register at zero.
    pub open spec fn blank() -> DMARegisters {
        DMARegisters {
            interrupt_status_low: 0,
            interrupt_status_high: 0,
            interrupt_flag_clear_low: 0,
            interrupt_flag_clear_high: 0,
            stream0: DMAStreamRegisters::blank(),
            stream1: DMAStreamRegisters::blank(),
            stream2: DMAStreamRegisters::blank(),
            stream3: DMAStreamRegisters::blank(),
            stream4: DMAStreamRegisters::blank(),
            stream5: DMAStreamRegisters::blank(),
            stream6: DMAStreamRegisters::blank(),
            stream7: DMAStreamRegisters::blank(),
        }
    }
}

impl Default for DMARegisters {
    /// The image with every register at zero.
    fn default() -> (image: DMARegisters)
        ensures
            image == DMARegisters::blank(),
    {
        DMARegisters {
            interrupt_status_low: 0,
            interrupt_status_high: 0,
            interrupt_flag_clear_low: 0,
            interrupt_flag_clear_high: 0,
            stream0: DMAStreamRegisters::default(),
            stream1: DMAStreamRegisters::default(),
            stream2: DMAStreamRegisters::default(),
            stream3: DMAStreamRegisters::default(),
            stream4: DMAStreamRegisters::default(),
            stream5: DMAStreamRegisters::default(),
            stream6: DMAStreamRegisters::default(),
            stream7: DMAStreamRegisters::default(),
        }
    }
}

} // verus!
