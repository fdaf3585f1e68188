//! Bit fields of the configuration and the FIFO control register of a stream.

use vstd::prelude::*;

verus! {

pub const CONFIG_CHANNEL_SELECTION_SHIFT: u32 = 25;

pub const CONFIG_CHANNEL_SELECTION_MASK: u32 = 0x0E00_0000;

pub const CONFIG_MEMORY_BURST_TRANSFERT_SHIFT: u32 = 23;

pub const CONFIG_MEMORY_BURST_TRANSFERT_MASK: u32 = 0x0180_0000;

pub const CONFIG_PERIPHERAL_BURST_TRANSFERT_SHIFT: u32 = 21;

pub const CONFIG_PERIPHERAL_BURST_TRANSFERT_MASK: u32 = 0x0060_0000;

/// How many beats a burst has.
#[allow(non_camel_case_types)]
#[derive(Clone, Copy, PartialEq, Eq, Structural, Debug)]
pub enum Config_BurstTransfert {
    Single,
    Incr4,
    Incr8,
    Incr16,
}

impl Config_BurstTransfert {
    /// The burst as it stands, unshifted, in either burst field.
    pub open spec fn spec_bits(self) -> u32 {
        match self {
            Config_BurstTransfert::Single => 0b00,
            Config_BurstTransfert::Incr4 => 0b01,
            Config_BurstTransfert::Incr8 => 0b10,
            Config_BurstTransfert::Incr16 => 0b11,
        }
    }

    #[verifier::when_used_as_spec(spec_bits)]
    pub fn bits(self) -> (bits: u32)
        ensures
            bits == self.spec_bits(),
    {
        match self {
            Config_BurstTransfert::Single => 0b00,
            Config_BurstTransfert::Incr4 => 0b01,
            Config_BurstTransfert::Incr8 => 0b10,
            Config_BurstTransfert::Incr16 => 0b11,
        }
    }
}

pub const CONFIG_CURRENT_TARGET_SHIFT: u32 = 19;

pub const CONFIG_CURRENT_TARGET_MASK: u32 = 0x0008_0000;

pub const CONFIG_DOUBLE_BUFFER_MODE: u32 = 0x0004_0000;

pub const CONFIG_PRIORITY_LEVEL_MASK: u32 = 0x0003_0000;

/// The priority of a stream among the streams of its controller.
#[allow(non_camel_case_types)]
#[derive(Clone, Copy, PartialEq, Eq, Structural, Debug)]
pub enum Config_PriorityLevel {
    Low,
    Medium,
    High,
    VeryHigh,
}

impl Config_PriorityLevel {
    /// The priority as it stands in the configuration register.
    pub open spec fn spec_bits(self) -> u32 {
        match self {
            Config_PriorityLevel::Low => 0x0000_0000,
            Config_PriorityLevel::Medium => 0x0001_0000,
            Config_PriorityLevel::High => 0x0002_0000,
            Config_PriorityLevel::VeryHigh => 0x0003_0000,
        }
    }

    #[verifier::when_used_as_spec(spec_bits)]
    pub fn bits(self) -> (bits: u32)
        ensures
            bits == self.spec_bits(),
    {
        match self {
            Config_PriorityLevel::Low => 0x0000_0000,
            Config_PriorityLevel::Medium => 0x0001_0000,
            Config_PriorityLevel::High => 0x0002_0000,
            Config_PriorityLevel::VeryHigh => 0x0003_0000,
        }
    }
}

pub const CONFIG_PERIPHERAL_INCREMENT_OFFSET_SIZE_MASK: u32 = 0x0000_8000;

/// The step of the peripheral address when it increments.
#[allow(non_camel_case_types)]
#[derive(Clone, Copy, PartialEq, Eq, Structural, Debug)]
pub enum Config_PeripheralIncrOffsetSize {
    LinkedToPSize,
    FixedTo4Bytes,
}

impl Config_PeripheralIncrOffsetSize {
    /// The step as it stands in the configuration register.
    pub open spec fn spec_bits(self) -> u32 {
        match self {
            Config_PeripheralIncrOffsetSize::LinkedToPSize => 0,
            Config_PeripheralIncrOffsetSize::FixedTo4Bytes => 0x0000_8000,
        }
    }

    #[verifier::when_used_as_spec(spec_bits)]
    pub fn bits(self) -> (bits: u32)
        ensures
            bits == self.spec_bits(),
    {
        match self {
            Config_PeripheralIncrOffsetSize::LinkedToPSize => 0,
            Config_PeripheralIncrOffsetSize::FixedTo4Bytes => 0x0000_8000,
        }
    }
}

pub const CONFIG_MEMORY_DATA_SIZE_SHIFT: u32 = 13;

pub const CONFIG_MEMORY_DATA_SIZE_MASK: u32 = 0x0000_6000;

pub const CONFIG_PERIPHERAL_DATA_SIZE_SHIFT: u32 = 11;

pub const CONFIG_PERIPHERAL_DATA_SIZE_MASK: u32 = 0x0000_1800;

/// The width of a data item.
#[allow(non_camel_case_types)]
#[derive(Clone, Copy, PartialEq, Eq, Structural, Debug)]
pub enum Config_DataSize {
    Byte,
    HalfWord,
    Word,
}

impl Config_DataSize {
    /// The width as it stands, unshifted, in either data size field.
    pub open spec fn spec_bits(self) -> u32 {
        match self {
            Config_DataSize::Byte => 0b00,
            Config_DataSize::HalfWord => 0b01,
            Config_DataSize::Word => 0b10,
        }
    }

    #[verifier::when_used_as_spec(spec_bits)]
    pub fn bits(self) -> (bits: u32)
        ensures
            bits == self.spec_bits(),
    {
        match self {
            Config_DataSize::Byte => 0b00,
            Config_DataSize::HalfWord => 0b01,
            Config_DataSize::Word => 0b10,
        }
    }
}

pub const CONFIG_MEMORY_INCREMENT: u32 = 0x0000_0400;

pub const CONFIG_PERIPHERAL_INCREMENT: u32 = 0x0000_0200;

pub const CONFIG_CIRCULAR_MODE: u32 = 0x0000_0100;

pub const CONFIG_TRANFERT_DIRECTION_MASK: u32 = 0x0000_00C0;

/// Where the data come from and where they go.
#[allow(non_camel_case_types)]
#[derive(Clone, Copy, PartialEq, Eq, Structural, Debug)]
pub enum Config_TranfertDirection {
    PeripheralToMemory,
    MemoryToPeripheral,
    MemoryToMemory,
}

impl Config_TranfertDirection {
    /// The direction as it stands in the configuration register.
    pub open spec fn spec_bits(self) -> u32 {
        match self {
            Config_TranfertDirection::PeripheralToMemory => 0x0000_0000,
            Config_TranfertDirection::MemoryToPeripheral => 0x0000_0040,
            Config_TranfertDirection::MemoryToMemory => 0x0000_0080,
        }
    }

    #[verifier::when_used_as_spec(spec_bits)]
    pub fn bits(self) -> (bits: u32)
        ensures
            bits == self.spec_bits(),
    {
        match self {
            Config_TranfertDirection::PeripheralToMemory => 0x0000_0000,
            Config_TranfertDirection::MemoryToPeripheral => 0x0000_0040,
            Config_TranfertDirection::MemoryToMemory => 0x0000_0080,
        }
    }
}

pub const CONFIG_PERIPHERAL_FLOW_CONTROL: u32 = 0x0000_0020;

pub const CONFIG_TRANFER_COMPLETE_INTERUPT_ENABLE: u32 = 0x0000_0010;

pub const CONFIG_HALF_TRANFER_INTERUPT_ENABLE: u32 = 0x0000_0008;

pub const CONFIG_TRANFER_ERROR_INTERUPT_ENABLE: u32 = 0x0000_0004;

pub const CONFIG_DIRECT_MODE_INTERUPT_ENABLE: u32 = 0x0000_0002;

pub const CONFIG_STREAM_ENABLE: u32 = 0x0000_0001;

pub const FIFO_STATUS_MASK: u32 = 0x0000_0038;

/// The fill level of the FIFO.
#[allow(non_camel_case_types)]
#[derive(Clone, Copy, PartialEq, Eq, Structural, Debug)]
pub enum Fifo_Status {
    Low,
    Medium,
    High,
    VeryHigh,
    Empty,
    Full,
}

impl Fifo_Status {
    /// The level as it stands in the FIFO control register.
    pub open spec fn spec_bits(self) -> u32 {
        match self {
            Fifo_Status::Low => 0,
            Fifo_Status::Medium => 0x0000_0008,
            Fifo_Status::High => 0x0000_0010,
            Fifo_Status::VeryHigh => 0x0000_0018,
            Fifo_Status::Empty => 0x0000_0020,
            Fifo_Status::Full => 0x0000_0028,
        }
    }

    #[verifier::when_used_as_spec(spec_bits)]
    pub fn bits(self) -> (bits: u32)
        ensures
            bits == self.spec_bits(),
    {
        match self {
            Fifo_Status::Low => 0,
            Fifo_Status::Medium => 0x0000_0008,
            Fifo_Status::High => 0x0000_0010,
            Fifo_Status::VeryHigh => 0x0000_0018,
            Fifo_Status::Empty => 0x0000_0020,
            Fifo_Status::Full => 0x0000_0028,
        }
    }
}

pub const FIFO_DIRECT_MODE_ENABLE: u32 = 0x0000_0004;

pub const FIFO_THRESHOLD_SELECTION_MASK: u32 = 0x0000_0003;

/// The fill level at which the FIFO is served.
#[allow(non_camel_case_types)]
#[derive(Clone, Copy, PartialEq, Eq, Structural, Debug)]
pub enum FiFo_ThresholdSelection {
    OneQuarterFull,
    HalfFull,
    ThreeQuarterFull,
    Full,
}

impl FiFo_ThresholdSelection {
    /// The threshold as it stands in the FIFO control register.
    pub open spec fn spec_bits(self) -> u32 {
        match self {
            FiFo_ThresholdSelection::OneQuarterFull => 0b00,
            FiFo_ThresholdSelection::HalfFull => 0b01,
            FiFo_ThresholdSelection::ThreeQuarterFull => 0b10,
            FiFo_ThresholdSelection::Full => 0b11,
        }
    }

    #[verifier::when_used_as_spec(spec_bits)]
    pub fn bits(self) -> (bits: u32)
        ensures
            bits == self.spec_bits(),
    {
        match self {
            FiFo_ThresholdSelection::OneQuarterFull => 0b00,
            FiFo_ThresholdSelection::HalfFull => 0b01,
            FiFo_ThresholdSelection::ThreeQuarterFull => 0b10,
            FiFo_ThresholdSelection::Full => 0b11,
        }
    }
}

/// Every field of the configuration register that setting a transfer up
/// writes: all but the reserved bits.
pub const CONFIG_ALL_FIELDS: u32 = 0x0FEF_FFFF;

} // verus!
