//! The two ends of a transfer.

use vstd::prelude::*;

use crate::dma::{BurstSize, DMAAble, DataSize, FifoMode, FlowControl, IncOffset};

verus! {

/// The peripheral side of a transfer: a data register at a fixed address.
#[derive(Clone, Copy, PartialEq, Eq, Structural, Debug)]
pub struct PeriphDescriptor {
    /// Address of the data register
    pub address: u32,
    /// Width of the data register
    pub size: DataSize,
    /// Whether the address moves on after each item, and by how much
    pub increment: Option<IncOffset>,
    /// Burst on the peripheral port, if any
    pub burst: Option<BurstSize>,
    pub fifo_mode: FifoMode,
    pub flow_ctrl: FlowControl,
}

/// The memory side of a transfer: a buffer that belongs to the stream while
/// the transfer lasts. The type of its items fixes the width of the memory port.
pub struct MemDescriptor<T: DMAAble> {
    pub data: Vec<T>,
    /// Address at which `data` lies
    pub address: u32,
    /// Burst on the memory port, if any
    pub burst: Option<BurstSize>,
    /// Start again at the beginning whenever the end is reached
    pub circular_mode: bool,
    /// A second buffer, and its address, to fill or empty in turn with the first
    pub double_buffer: Option<(Vec<T>, u32)>,
}

/// One end of a transfer.
pub enum Endpoint<T: DMAAble> {
    Peripheral(PeriphDescriptor),
    Memory(MemDescriptor<T>),
}

/// What a second buffer looks like to a stream.
#[derive(Clone, Copy, PartialEq, Eq, Structural, Debug)]
pub struct SecondBuffer {
    /// Number of items in the buffer
    pub items: usize,
    pub address: u32,
}

/// What a buffer looks like to a stream.
#[derive(Clone, Copy, PartialEq, Eq, Structural, Debug)]
pub struct MemorySummary {
    /// Number of items in the buffer
    pub items: usize,
    /// Width of an item; a byte for an empty buffer
    pub width: DataSize,
    pub address: u32,
    pub burst: Option<BurstSize>,
    pub circular_mode: bool,
    pub double_buffer: Option<SecondBuffer>,
}

/// What one end of a transfer looks like to a stream.
#[derive(Clone, Copy, PartialEq, Eq, Structural, Debug)]
pub enum EndpointSummary {
    Peripheral(PeriphDescriptor),
    Memory(MemorySummary),
}

impl<T: DMAAble> MemDescriptor<T> {
    /// What the buffer looks like to a stream.
    pub open spec fn spec_summary(&self) -> MemorySummary {
        MemorySummary {
            items: self.data@.len() as usize,
            width: if self.data@.len() > 0 {
                self.data@[0].spec_datasize()
            } else {
                DataSize::Byte
            },
            address: self.address,
            burst: self.burst,
            circular_mode: self.circular_mode,
            double_buffer: match self.double_buffer {
                None => None,
                Some((second, address)) => Some(
                    SecondBuffer { items: second@.len() as usize, address },
                ),
            },
        }
    }

    #[verifier::when_used_as_spec(spec_summary)]
    pub fn summary(&self) -> (summary: MemorySummary)
        ensures
            summary == self.spec_summary(),
    {
        let width: DataSize = if self.data.len() > 0 {
            self.data[0].datasize()
        } else {
            DataSize::Byte
        };
        let double_buffer: Option<SecondBuffer> = match &self.double_buffer {
            None => None,
            Some((second, address)) => Some(SecondBuffer { items: second.len(), address: *address }),
        };
        MemorySummary {
            items: self.data.len(),
            width,
            address: self.address,
            burst: self.burst,
            circular_mode: self.circular_mode,
            double_buffer,
        }
    }
}

impl<T: DMAAble> Endpoint<T> {
    /// What the end looks like to a stream.
    pub open spec fn spec_summary(&self) -> EndpointSummary {
        match self {
            Endpoint::Peripheral(descriptor) => EndpointSummary::Peripheral(*descriptor),
            Endpoint::Memory(descriptor) => EndpointSummary::Memory(descriptor.spec_summary()),
        }
    }

    #[verifier::when_used_as_spec(spec_summary)]
    pub fn summary(&self) -> (summary: EndpointSummary)
        ensures
            summary == self.spec_summary(),
    {
        match self {
            Endpoint::Peripheral(descriptor) => EndpointSummary::Peripheral(*descriptor),
            Endpoint::Memory(descriptor) => EndpointSummary::Memory(descriptor.summary()),
        }
    }
}

} // verus!
