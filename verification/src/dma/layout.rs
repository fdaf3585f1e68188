//! Laying a transfer out on the two ports of a stream, and the rules a layout
//! has to keep.

use vstd::prelude::*;

use crate::dma::descriptor::{EndpointSummary, SecondBuffer};
use crate::dma::stream::Config_TranfertDirection;
use crate::dma::{BurstSize, DataSize, FifoMode, FifoThreshold, FlowControl, IncOffset};
use crate::ErrorKind;

verus! {

/// Largest number of items a stream can count
pub const MAX_ITEMS: usize = 65_535;

/// Why a stream could not be set up for a transfer.
#[derive(Clone, Copy, PartialEq, Eq, Structural, Debug)]
pub enum DMAError {
    /// The stream is enabled: it has to be stopped, or to complete, first.
    StreamActive,
    /// The ends are not of the kinds the direction calls for.
    DirectionMismatch,
    /// Circular mode and double buffering were asked for together.
    ModeConflict,
    /// Circular mode or double buffering was asked for between two memories.
    ModeNotAvailable,
    /// A buffer is empty, the buffers do not hold the same amount of data, the
    /// data do not make a whole number of items on the peripheral port, or
    /// there are more items than a stream can count.
    InvalidLength,
    /// A burst does not divide the number of items on its port.
    BurstMismatch,
}

impl DMAError {
    pub open spec fn spec_kind(self) -> ErrorKind {
        match self {
            DMAError::StreamActive => ErrorKind::Protocol,
            _ => ErrorKind::Validation,
        }
    }

    /// The class of the error.
    #[verifier::when_used_as_spec(spec_kind)]
    pub fn kind(self) -> (kind: ErrorKind)
        ensures
            kind == self.spec_kind(),
    {
        match self {
            DMAError::StreamActive => ErrorKind::Protocol,
            _ => ErrorKind::Validation,
        }
    }

    pub open spec fn spec_message(self) -> Seq<char> {
        match self {
            DMAError::StreamActive => "The stream is active."@,
            DMAError::DirectionMismatch => "The descriptors do not match the direction."@,
            DMAError::ModeConflict => "Circular and double buffer modes exclude each other."@,
            DMAError::ModeNotAvailable =>
                "Circular and double buffer modes are not available from memory to memory."@,
            DMAError::InvalidLength => "The transfer length is not valid."@,
            DMAError::BurstMismatch => "The burst size must divide the transfer length."@,
        }
    }

    /// The error in words.
    pub fn message(self) -> (text: &'static str)
        ensures
            text@ == self.spec_message(),
    {
        match self {
            DMAError::StreamActive => "The stream is active.",
            DMAError::DirectionMismatch => "The descriptors do not match the direction.",
            DMAError::ModeConflict => "Circular and double buffer modes exclude each other.",
            DMAError::ModeNotAvailable =>
                "Circular and double buffer modes are not available from memory to memory.",
            DMAError::InvalidLength => "The transfer length is not valid.",
            DMAError::BurstMismatch => "The burst size must divide the transfer length.",
        }
    }
}

/// The ends are of the kinds the direction calls for.
pub open spec fn direction_matches(
    direction: Config_TranfertDirection,
    source: EndpointSummary,
    destination: EndpointSummary,
) -> bool {
    match direction {
        Config_TranfertDirection::PeripheralToMemory => source is Peripheral && destination is Memory,
        Config_TranfertDirection::MemoryToPeripheral => source is Memory && destination is Peripheral,
        Config_TranfertDirection::MemoryToMemory => source is Memory && destination is Memory,
    }
}

/// What stands on the peripheral port of a stream.
#[derive(Clone, Copy, PartialEq, Eq, Structural, Debug)]
pub struct PeripheralPort {
    pub address: u32,
    pub size: DataSize,
    pub increment: Option<IncOffset>,
    pub burst: Option<BurstSize>,
    /// Number of items behind the port where a buffer stands on it
    pub items: Option<usize>,
}

/// What stands on the memory port of a stream.
#[derive(Clone, Copy, PartialEq, Eq, Structural, Debug)]
pub struct MemoryPort {
    pub address: u32,
    pub size: DataSize,
    pub burst: Option<BurstSize>,
    pub items: usize,
}

/// A transfer as a stream sees it: what stands on each of its two ports, and
/// how it runs.
#[derive(Clone, Copy, PartialEq, Eq, Structural, Debug)]
pub struct Layout {
    pub direction: Config_TranfertDirection,
    pub peripheral: PeripheralPort,
    pub memory: MemoryPort,
    pub circular_mode: bool,
    pub double_buffer: Option<SecondBuffer>,
    pub fifo_mode: FifoMode,
    pub flow_ctrl: FlowControl,
}

/// The layout of a transfer whose ends match its direction. A peripheral
/// stands on the peripheral port and a buffer on the memory port; between two
/// memories the source stands on the peripheral port, which then steps by the
/// width of an item, the FIFO is used to its full depth, and a mode asked for
/// on either buffer counts.
pub open spec fn layout_of(
    direction: Config_TranfertDirection,
    source: EndpointSummary,
    destination: EndpointSummary,
) -> Layout {
    match (source, destination) {
        (EndpointSummary::Memory(from), EndpointSummary::Memory(to)) => Layout {
            direction,
            peripheral: PeripheralPort {
                address: from.address,
                size: from.width,
                increment: Some(IncOffset::PSize),
                burst: from.burst,
                items: Some(from.items),
            },
            memory: MemoryPort {
                address: to.address,
                size: to.width,
                burst: to.burst,
                items: to.items,
            },
            circular_mode: from.circular_mode || to.circular_mode,
            double_buffer: if from.double_buffer is Some {
                from.double_buffer
            } else {
                to.double_buffer
            },
            fifo_mode: FifoMode::Fifo(FifoThreshold::Full),
            flow_ctrl: FlowControl::DMA,
        },
        (EndpointSummary::Peripheral(periph), EndpointSummary::Memory(mem))
        | (EndpointSummary::Memory(mem), EndpointSummary::Peripheral(periph)) => Layout {
            direction,
            peripheral: PeripheralPort {
                address: periph.address,
                size: periph.size,
                increment: periph.increment,
                burst: periph.burst,
                items: None,
            },
            memory: MemoryPort {
                address: mem.address,
                size: mem.width,
                burst: mem.burst,
                items: mem.items,
            },
            circular_mode: mem.circular_mode,
            double_buffer: mem.double_buffer,
            fifo_mode: periph.fifo_mode,
            flow_ctrl: periph.flow_ctrl,
        },
        (EndpointSummary::Peripheral(from), EndpointSummary::Peripheral(to)) => Layout {
            direction,
            peripheral: PeripheralPort {
                address: from.address,
                size: from.size,
                increment: from.increment,
                burst: from.burst,
                items: None,
            },
            memory: MemoryPort { address: to.address, size: to.size, burst: to.burst, items: 0 },
            circular_mode: false,
            double_buffer: None,
            fifo_mode: from.fifo_mode,
            flow_ctrl: from.flow_ctrl,
        },
    }
}

/// The ratio of the width `memory` to the width `peripheral` is one of 1, 2, 4,
/// 1/2 and 1/4.
pub open spec fn width_ratio_legal(memory: DataSize, peripheral: DataSize) -> bool {
    let m = memory.spec_bytes() as int;
    let p = peripheral.spec_bytes() as int;
    m == p || m == 2 * p || m == 4 * p || 2 * m == p || 4 * m == p
}

/// A burst of `burst`, if one is asked for, divides `items`.
pub open spec fn burst_divides(burst: Option<BurstSize>, items: int) -> bool {
    match burst {
        None => true,
        Some(burst) => items % (burst.spec_beats() as int) == 0,
    }
}

impl Layout {
    /// Number of bytes the buffer on the memory port holds.
    pub open spec fn bytes(self) -> int {
        self.memory.items * self.memory.size.spec_bytes()
    }

    /// Number of items the stream has to count: the data of the buffer in
    /// items of the peripheral port.
    pub open spec fn length(self) -> int {
        self.bytes() / (self.peripheral.size.spec_bytes() as int)
    }

    /// The buffer holds something, what it holds makes a whole number of items on
    /// the peripheral port, no more of them than a stream can count, and where
    /// another buffer takes part it holds as much.
    pub open spec fn length_valid(self) -> bool {
        &&& self.memory.items > 0
        &&& self.bytes() % (self.peripheral.size.spec_bytes() as int) == 0
        &&& self.length() <= MAX_ITEMS
        &&& self.peripheral.items matches Some(items) ==> items == self.length()
        &&& self.double_buffer matches Some(second) ==> second.items == self.memory.items
    }

    /// The first rule the layout breaks, if any: the modes, then the length,
    /// then the bursts. The widths of the two ports break none: whatever they
    /// are, their ratio is one the hardware can pack and unpack.
    pub open spec fn violation(self) -> Option<DMAError> {
        if self.circular_mode && self.double_buffer is Some {
            Some(DMAError::ModeConflict)
        } else if self.direction == Config_TranfertDirection::MemoryToMemory && (self.circular_mode
            || self.double_buffer is Some) {
            Some(DMAError::ModeNotAvailable)
        } else if !self.length_valid() {
            Some(DMAError::InvalidLength)
        } else if !burst_divides(self.memory.burst, self.memory.items as int) || !burst_divides(
            self.peripheral.burst,
            self.length(),
        ) {
            Some(DMAError::BurstMismatch)
        } else {
            None
        }
    }
}

/// The first rule that a transfer breaks on a stream that is active or not, if
/// any: the stream has to be idle, the ends have to match the direction, and the
/// layout has to be valid.
pub open spec fn transfer_violation(
    active: bool,
    direction: Config_TranfertDirection,
    source: EndpointSummary,
    destination: EndpointSummary,
) -> Option<DMAError> {
    if active {
        Some(DMAError::StreamActive)
    } else if !direction_matches(direction, source, destination) {
        Some(DMAError::DirectionMismatch)
    } else {
        layout_of(direction, source, destination).violation()
    }
}

fn divides(burst: Option<BurstSize>, items: usize) -> (divides: bool)
    ensures
        divides == burst_divides(burst, items as int),
{
    match burst {
        None => true,
        Some(burst) => items % burst.beats() == 0,
    }
}

/// Lays a transfer out on the two ports of a stream; fails where the ends do
/// not match the direction.
pub fn lay_out(
    direction: Config_TranfertDirection,
    source: EndpointSummary,
    destination: EndpointSummary,
) -> (layout: Result<Layout, DMAError>)
    ensures
        direction_matches(direction, source, destination) ==> layout == Ok::<Layout, DMAError>(
            layout_of(direction, source, destination),
        ),
        !direction_matches(direction, source, destination) ==> layout == Err::<Layout, DMAError>(
            DMAError::DirectionMismatch,
        ),
{
    match (direction, source, destination) {
        (
            Config_TranfertDirection::MemoryToMemory,
            EndpointSummary::Memory(from),
            EndpointSummary::Memory(to),
        ) => Ok(
            Layout {
                direction,
                peripheral: PeripheralPort {
                    address: from.address,
                    size: from.width,
                    increment: Some(IncOffset::PSize),
                    burst: from.burst,
                    items: Some(from.items),
                },
                memory: MemoryPort {
                    address: to.address,
                    size: to.width,
                    burst: to.burst,
                    items: to.items,
                },
                circular_mode: from.circular_mode || to.circular_mode,
                double_buffer: if from.double_buffer.is_some() {
                    from.double_buffer
                } else {
                    to.double_buffer
                },
                fifo_mode: FifoMode::Fifo(FifoThreshold::Full),
                flow_ctrl: FlowControl::DMA,
            },
        ),
        (
            Config_TranfertDirection::PeripheralToMemory,
            EndpointSummary::Peripheral(periph),
            EndpointSummary::Memory(mem),
        )
        | (
            Config_TranfertDirection::MemoryToPeripheral,
            EndpointSummary::Memory(mem),
            EndpointSummary::Peripheral(periph),
        ) => Ok(
            Layout {
                direction,
                peripheral: PeripheralPort {
                    address: periph.address,
                    size: periph.size,
                    increment: periph.increment,
                    burst: periph.burst,
                    items: None,
                },
                memory: MemoryPort {
                    address: mem.address,
                    size: mem.width,
                    burst: mem.burst,
                    items: mem.items,
                },
                circular_mode: mem.circular_mode,
                double_buffer: mem.double_buffer,
                fifo_mode: periph.fifo_mode,
                flow_ctrl: periph.flow_ctrl,
            },
        ),
        _ => Err(DMAError::DirectionMismatch),
    }
}

impl Layout {
    /// Checks the layout against the rules of the hardware and returns the
    /// number of items the stream has to count. Fails, with the first rule
    /// broken, exactly when the layout breaks a rule.
    pub fn check(&self) -> (length: Result<u32, DMAError>)
        ensures
            match self.violation() {
                Some(error) => length == Err::<u32, DMAError>(error),
                None => length matches Ok(items) && items == self.length() && 1 <= items
                    <= MAX_ITEMS,
            },
    {
        if self.circular_mode && self.double_buffer.is_some() {
            return Err(DMAError::ModeConflict);
        }
        match self.direction {
            Config_TranfertDirection::MemoryToMemory => {
                if self.circular_mode || self.double_buffer.is_some() {
                    return Err(DMAError::ModeNotAvailable);
                }
            },
            _ => {},
        }
        let items: usize = self.memory.items;
        let width: usize = self.memory.size.bytes();
        let step: usize = self.peripheral.size.bytes();
        proof {
            lemma_widths(items as int, self.memory.size, self.peripheral.size);
        }
        if items == 0 || items > 4 * MAX_ITEMS {
            return Err(DMAError::InvalidLength);
        }
        let bytes: usize = items * width;
        if bytes % step != 0 {
            return Err(DMAError::InvalidLength);
        }
        let length: usize = bytes / step;
        if length > MAX_ITEMS {
            return Err(DMAError::InvalidLength);
        }
        match self.peripheral.items {
            Some(behind) => {
                if behind != length {
                    return Err(DMAError::InvalidLength);
                }
            },
            None => {},
        }
        match self.double_buffer {
            Some(second) => {
                if second.items != items {
                    return Err(DMAError::InvalidLength);
                }
            },
            None => {},
        }
        if !divides(self.memory.burst, items) || !divides(self.peripheral.burst, length) {
            return Err(DMAError::BurstMismatch);
        }
        Ok(length as u32)
    }
}

/// A transfer keeps every rule of the hardware: the ends are of the kinds the
/// direction calls for; circular mode and double buffering are not asked for
/// together, and neither between two memories; the length is valid; each burst
/// divides the number of items on its port; and the widths of the two ports are
/// in a ratio of 1, 2 or 4 either way.
pub open spec fn transfer_legal(
    direction: Config_TranfertDirection,
    source: EndpointSummary,
    destination: EndpointSummary,
) -> bool {
    let layout = layout_of(direction, source, destination);
    &&& direction_matches(direction, source, destination)
    &&& !(layout.circular_mode && layout.double_buffer is Some)
    &&& direction == Config_TranfertDirection::MemoryToMemory ==> !layout.circular_mode
        && layout.double_buffer is None
    &&& layout.length_valid()
    &&& burst_divides(layout.memory.burst, layout.memory.items as int)
    &&& burst_divides(layout.peripheral.burst, layout.length())
    &&& width_ratio_legal(layout.memory.size, layout.peripheral.size)
}

/// A transfer is accepted exactly when the stream is idle and the transfer
/// keeps every rule, whatever its direction. A busy stream refuses it as a
/// misuse, a broken rule as a validation error.
pub proof fn lemma_accepted_exactly_when_legal(
    active: bool,
    direction: Config_TranfertDirection,
    source: EndpointSummary,
    destination: EndpointSummary,
)
    ensures
        transfer_violation(active, direction, source, destination) is None <==> !active
            && transfer_legal(direction, source, destination),
        active ==> transfer_violation(active, direction, source, destination) == Some(
            DMAError::StreamActive,
        ),
        transfer_violation(active, direction, source, destination) matches Some(error) ==> (
        error.kind() == ErrorKind::Protocol <==> active),
        transfer_violation(active, direction, source, destination) matches Some(error) ==> (
        error.kind() == ErrorKind::Validation <==> !active),
{
}

proof fn lemma_widths(items: int, width: DataSize, step: DataSize)
    ensures
        items * width.spec_bytes() == match width {
            DataSize::Byte => items,
            DataSize::HalfWord => 2 * items,
            DataSize::Word => 4 * items,
        },
        (items * width.spec_bytes()) / (step.spec_bytes() as int) == match step {
            DataSize::Byte => items * width.spec_bytes(),
            DataSize::HalfWord => (items * width.spec_bytes()) / 2,
            DataSize::Word => (items * width.spec_bytes()) / 4,
        },
        (items * width.spec_bytes()) % (step.spec_bytes() as int) == match step {
            DataSize::Byte => 0,
            DataSize::HalfWord => (items * width.spec_bytes()) % 2,
            DataSize::Word => (items * width.spec_bytes()) % 4,
        },
{
}

/// Whatever the two widths are, their ratio is one of those the hardware can
/// pack and unpack.
pub proof fn lemma_every_width_ratio_is_legal(memory: DataSize, peripheral: DataSize)
    ensures
        width_ratio_legal(memory, peripheral),
{
}

} // verus!
