//! Setting a stream up for a transfer, running it, and keeping its buffers.

use vstd::prelude::*;

use crate::chip::{Chip, Controller};
use crate::dma::descriptor::{Endpoint, EndpointSummary, MemDescriptor, PeriphDescriptor};
use crate::dma::layout::{
    lay_out, layout_of, transfer_violation, DMAError, Layout, MemoryPort, PeripheralPort,
};
use crate::dma::stream::{
    Config_BurstTransfert, Config_PeripheralIncrOffsetSize, Config_TranfertDirection,
    CONFIG_ALL_FIELDS, CONFIG_CHANNEL_SELECTION_SHIFT, CONFIG_CIRCULAR_MODE,
    CONFIG_DOUBLE_BUFFER_MODE, CONFIG_MEMORY_BURST_TRANSFERT_SHIFT, CONFIG_MEMORY_DATA_SIZE_SHIFT,
    CONFIG_MEMORY_INCREMENT, CONFIG_PERIPHERAL_BURST_TRANSFERT_SHIFT,
    CONFIG_PERIPHERAL_DATA_SIZE_SHIFT, CONFIG_PERIPHERAL_FLOW_CONTROL, CONFIG_PERIPHERAL_INCREMENT,
    CONFIG_STREAM_ENABLE, FIFO_DIRECT_MODE_ENABLE, FIFO_THRESHOLD_SELECTION_MASK,
};
use crate::dma::{
    BurstSize, Channel, DMAAble, DMAPeripheral, DMAStreamRegisters, FifoMode, FlowControl,
    IncOffset, Priority, Stream,
};
use crate::peripheral::{InitError, Peripheral, Setting};
use crate::registers::{all_set, is_set, update, update_bits};

verus! {

/// The burst field for a port: a single beat where no burst is asked for.
pub open spec fn burst_bits(burst: Option<BurstSize>) -> u32 {
    match burst {
        None => Config_BurstTransfert::Single.bits(),
        Some(burst) => burst.field().bits(),
    }
}

/// The fields of the configuration register that say what stands on the two
/// ports: the bursts, the widths, and how the addresses step. The memory
/// address always steps.
pub open spec fn ports_word(peripheral: PeripheralPort, memory: MemoryPort) -> u32 {
    (burst_bits(memory.burst) << CONFIG_MEMORY_BURST_TRANSFERT_SHIFT) | (burst_bits(
        peripheral.burst,
    ) << CONFIG_PERIPHERAL_BURST_TRANSFERT_SHIFT) | (match peripheral.increment {
        Some(IncOffset::Word) => Config_PeripheralIncrOffsetSize::FixedTo4Bytes.bits(),
        _ => Config_PeripheralIncrOffsetSize::LinkedToPSize.bits(),
    }) | (memory.size.field().bits() << CONFIG_MEMORY_DATA_SIZE_SHIFT) | (
    peripheral.size.field().bits() << CONFIG_PERIPHERAL_DATA_SIZE_SHIFT)
        | CONFIG_MEMORY_INCREMENT | (if peripheral.increment is Some {
        CONFIG_PERIPHERAL_INCREMENT
    } else {
        0
    })
}

/// The fields of the configuration register that say how the transfer runs:
/// the direction, the modes and who controls the flow.
pub open spec fn modes_word(layout: Layout) -> u32 {
    (if layout.double_buffer is Some {
        CONFIG_DOUBLE_BUFFER_MODE
    } else {
        0
    }) | (if layout.circular_mode {
        CONFIG_CIRCULAR_MODE
    } else {
        0
    }) | layout.direction.bits() | (if layout.flow_ctrl == FlowControl::Peripheral {
        CONFIG_PERIPHERAL_FLOW_CONTROL
    } else {
        0
    })
}

/// The configuration register of a stream set up for `layout` on `channel` with
/// `priority`: every field in its place, no interrupt enabled and the stream
/// not enabled.
pub open spec fn config_word(channel: Channel, priority: Priority, layout: Layout) -> u32 {
    (channel.code() << CONFIG_CHANNEL_SELECTION_SHIFT) | priority.bits() | ports_word(
        layout.peripheral,
        layout.memory,
    ) | modes_word(layout)
}

/// The fields of the FIFO control register for `mode`.
pub open spec fn fifo_word(mode: FifoMode) -> u32 {
    match mode {
        FifoMode::Direct => 0,
        FifoMode::Fifo(threshold) => FIFO_DIRECT_MODE_ENABLE | threshold.field().bits(),
    }
}

impl DMAStreamRegisters {
    /// The stream is enabled.
    pub open spec fn active(self) -> bool {
        all_set(self.config, CONFIG_STREAM_ENABLE)
    }

    /// The registers of a stream set up for `layout`: the two addresses, and
    /// the third for a second buffer; the number of items; the FIFO; and the
    /// configuration. Reserved bits stay as they are.
    pub open spec fn set_up(self, channel: Channel, priority: Priority, layout: Layout) -> DMAStreamRegisters {
        DMAStreamRegisters {
            peripheral_addr: layout.peripheral.address,
            memory_0_addr: layout.memory.address,
            memory_1_addr: match layout.double_buffer {
                Some(second) => second.address,
                None => self.memory_1_addr,
            },
            number_of_data: layout.length() as u32,
            fifo_control: update_bits(
                self.fifo_control,
                fifo_word(layout.fifo_mode),
                FIFO_DIRECT_MODE_ENABLE | FIFO_THRESHOLD_SELECTION_MASK,
            ),
            config: update_bits(
                self.config,
                config_word(channel, priority, layout),
                CONFIG_ALL_FIELDS,
            ),
        }
    }

    /// The registers with the stream enabled.
    pub open spec fn started(self) -> DMAStreamRegisters {
        DMAStreamRegisters {
            config: update_bits(self.config, CONFIG_STREAM_ENABLE, CONFIG_STREAM_ENABLE),
            ..self
        }
    }

    /// The registers with the stream disabled.
    pub open spec fn stopped(self) -> DMAStreamRegisters {
        DMAStreamRegisters { config: update_bits(self.config, 0, CONFIG_STREAM_ENABLE), ..self }
    }
}

/// A transfer that a stream has been set up for. It keeps the two ends, and
/// with them the buffers, for as long as the stream may touch them.
pub struct Transfer<T: DMAAble> {
    controller: Controller,
    stream: Stream,
    source: Endpoint<T>,
    destination: Endpoint<T>,
}

/// A transfer that was refused, with the reason and the two ends as they were
/// handed in.
pub struct Rejected<T: DMAAble> {
    pub error: DMAError,
    pub source: Endpoint<T>,
    pub destination: Endpoint<T>,
}

impl<T: DMAAble> Transfer<T> {
    /// The controller of the stream that runs the transfer.
    pub closed spec fn controller(&self) -> Controller {
        self.controller
    }

    /// The stream that runs the transfer.
    pub closed spec fn stream(&self) -> Stream {
        self.stream
    }

    /// The end the data come from.
    pub closed spec fn source(&self) -> Endpoint<T> {
        self.source
    }

    /// The end the data go to.
    pub closed spec fn destination(&self) -> Endpoint<T> {
        self.destination
    }

    /// The stream of the transfer is enabled on `chip`.
    pub open spec fn in_flight(&self, chip: Chip) -> bool {
        chip.dma(self.controller()).stream(self.stream()).active()
    }

    /// Gives the two ends back, source first, once the stream is disabled:
    /// stopped, or at the end of a transfer that is not circular. While the
    /// stream is enabled the transfer is returned unchanged.
    pub fn release(self, chip: &Chip) -> (ends: Result<(Endpoint<T>, Endpoint<T>), Transfer<T>>)
        ensures
            self.in_flight(*chip) ==> ends == Err::<(Endpoint<T>, Endpoint<T>), Transfer<T>>(self),
            !self.in_flight(*chip) ==> ends == Ok::<(Endpoint<T>, Endpoint<T>), Transfer<T>>(
                (self.source(), self.destination()),
            ),
    {
        let registers = chip.dma_ref(self.controller).stream_ref(self.stream);
        if is_set(registers.config, CONFIG_STREAM_ENABLE) {
            Err(self)
        } else {
            Ok((self.source, self.destination))
        }
    }
}

fn ports_bits(peripheral: &PeripheralPort, memory: &MemoryPort) -> (bits: u32)
    ensures
        bits == ports_word(*peripheral, *memory),
{
    let memory_burst: u32 = match memory.burst {
        None => Config_BurstTransfert::Single.bits(),
        Some(burst) => burst.field().bits(),
    };
    let peripheral_burst: u32 = match peripheral.burst {
        None => Config_BurstTransfert::Single.bits(),
        Some(burst) => burst.field().bits(),
    };
    let offset: u32 = match peripheral.increment {
        Some(IncOffset::Word) => Config_PeripheralIncrOffsetSize::FixedTo4Bytes.bits(),
        _ => Config_PeripheralIncrOffsetSize::LinkedToPSize.bits(),
    };
    let stepping: u32 = if peripheral.increment.is_some() {
        CONFIG_PERIPHERAL_INCREMENT
    } else {
        0
    };
    (memory_burst << CONFIG_MEMORY_BURST_TRANSFERT_SHIFT) | (peripheral_burst
        << CONFIG_PERIPHERAL_BURST_TRANSFERT_SHIFT) | offset | (memory.size.field().bits()
        << CONFIG_MEMORY_DATA_SIZE_SHIFT) | (peripheral.size.field().bits()
        << CONFIG_PERIPHERAL_DATA_SIZE_SHIFT) | CONFIG_MEMORY_INCREMENT | stepping
}

fn modes_bits(layout: &Layout) -> (bits: u32)
    ensures
        bits == modes_word(*layout),
{
    let double: u32 = if layout.double_buffer.is_some() {
        CONFIG_DOUBLE_BUFFER_MODE
    } else {
        0
    };
    let circular: u32 = if layout.circular_mode {
        CONFIG_CIRCULAR_MODE
    } else {
        0
    };
    let flow: u32 = match layout.flow_ctrl {
        FlowControl::Peripheral => CONFIG_PERIPHERAL_FLOW_CONTROL,
        FlowControl::DMA => 0,
    };
    double | circular | layout.direction.bits() | flow
}

/// One stream of a controller, bound to a channel.
#[derive(Clone, Copy, Debug)]
pub struct DMAStreamPeripheral<'a> {
    pub dma: &'a DMAPeripheral,
    /// Identifier of the interrupt of the stream
    pub isr_id: u32,
    pub stream: Stream,
    pub channel: Channel,
    pub priority: Priority,
}

impl<'a> DMAStreamPeripheral<'a> {
    /// The registers of the stream on `chip`.
    pub open spec fn registers(&self, chip: Chip) -> DMAStreamRegisters {
        chip.dma(self.dma.controller).stream(self.stream)
    }

    /// The chip with `registers` in the place of the registers of the stream.
    pub open spec fn with_registers(&self, chip: Chip, registers: DMAStreamRegisters) -> Chip {
        chip.with_dma(
            self.dma.controller,
            chip.dma(self.dma.controller).with_stream(self.stream, registers),
        )
    }

    fn setup(&self, registers: &mut DMAStreamRegisters, layout: &Layout, length: u32)
        requires
            length == layout.length(),
        ensures
            *final(registers) == old(registers).set_up(self.channel, self.priority, *layout),
    {
        let fifo: u32 = match layout.fifo_mode {
            FifoMode::Direct => 0,
            FifoMode::Fifo(threshold) => FIFO_DIRECT_MODE_ENABLE | threshold.field().bits(),
        };
        let config: u32 = (self.channel.code() << CONFIG_CHANNEL_SELECTION_SHIFT)
            | self.priority.bits() | ports_bits(&layout.peripheral, &layout.memory) | modes_bits(
            layout,
        );

        registers.peripheral_addr = layout.peripheral.address;
        registers.memory_0_addr = layout.memory.address;
        match layout.double_buffer {
            Some(second) => {
                registers.memory_1_addr = second.address;
            },
            None => {},
        }
        registers.number_of_data = length;
        update(
            &mut registers.fifo_control,
            fifo,
            FIFO_DIRECT_MODE_ENABLE | FIFO_THRESHOLD_SELECTION_MASK,
        );
        update(&mut registers.config, config, CONFIG_ALL_FIELDS);
    }

    /// Sets the stream up for a transfer in `direction` from `source` to
    /// `destination`.
    ///
    /// The transfer is refused, and every register left as it is, while the
    /// stream is enabled, where the ends do not match the direction, and where
    /// the layout breaks a rule of the hardware; the ends are then handed back.
    /// Otherwise the registers of the stream are written, the stream is left
    /// disabled, and the ends are kept by the transfer that is returned.
    pub fn configure<T: DMAAble>(
        &self,
        chip: &mut Chip,
        direction: Config_TranfertDirection,
        source: Endpoint<T>,
        destination: Endpoint<T>,
    ) -> (transfer: Result<Transfer<T>, Rejected<T>>)
        ensures
            match transfer_violation(
                self.registers(*old(chip)).active(),
                direction,
                source.summary(),
                destination.summary(),
            ) {
                Some(error) => {
                    &&& transfer matches Err(rejected)
                    &&& rejected.error == error
                    &&& rejected.source == source
                    &&& rejected.destination == destination
                    &&& *final(chip) == *old(chip)
                },
                None => {
                    &&& transfer matches Ok(kept)
                    &&& kept.controller() == self.dma.controller
                    &&& kept.stream() == self.stream
                    &&& kept.source() == source
                    &&& kept.destination() == destination
                    &&& *final(chip) == self.with_registers(
                        *old(chip),
                        self.registers(*old(chip)).set_up(
                            self.channel,
                            self.priority,
                            layout_of(direction, source.summary(), destination.summary()),
                        ),
                    )
                },
            },
    {
        if self.is_enabled(chip) {
            return Err(Rejected { error: DMAError::StreamActive, source, destination });
        }
        let layout: Layout = match lay_out(direction, source.summary(), destination.summary()) {
            Err(error) => {
                return Err(Rejected { error, source, destination });
            },
            Ok(layout) => layout,
        };
        let length: u32 = match layout.check() {
            Err(error) => {
                return Err(Rejected { error, source, destination });
            },
            Ok(length) => length,
        };
        let registers = chip.dma_mut(self.dma.controller).stream_mut(self.stream);
        self.setup(registers, &layout, length);
        Ok(Transfer { controller: self.dma.controller, stream: self.stream, source, destination })
    }

    /// Sets the stream up to move the buffer `from` to the peripheral `to`: see
    /// [`DMAStreamPeripheral::configure`].
    pub fn mem_to_periph<T: DMAAble>(
        &self,
        chip: &mut Chip,
        from: MemDescriptor<T>,
        to: PeriphDescriptor,
    ) -> (transfer: Result<Transfer<T>, Rejected<T>>)
        ensures
            match transfer_violation(
                self.registers(*old(chip)).active(),
                Config_TranfertDirection::MemoryToPeripheral,
                EndpointSummary::Memory(from.summary()),
                EndpointSummary::Peripheral(to),
            ) {
                Some(error) => {
                    &&& transfer matches Err(rejected)
                    &&& rejected.error == error
                    &&& rejected.source == Endpoint::Memory(from)
                    &&& rejected.destination == Endpoint::<T>::Peripheral(to)
                    &&& *final(chip) == *old(chip)
                },
                None => {
                    &&& transfer matches Ok(kept)
                    &&& kept.controller() == self.dma.controller
                    &&& kept.stream() == self.stream
                    &&& kept.source() == Endpoint::Memory(from)
                    &&& kept.destination() == Endpoint::<T>::Peripheral(to)
                    &&& *final(chip) == self.with_registers(
                        *old(chip),
                        self.registers(*old(chip)).set_up(
                            self.channel,
                            self.priority,
                            layout_of(
                                Config_TranfertDirection::MemoryToPeripheral,
                                EndpointSummary::Memory(from.summary()),
                                EndpointSummary::Peripheral(to),
                            ),
                        ),
                    )
                },
            },
    {
        self.configure(
            chip,
            Config_TranfertDirection::MemoryToPeripheral,
            Endpoint::Memory(from),
            Endpoint::Peripheral(to),
        )
    }

    /// Sets the stream up to fill the buffer `to` from the peripheral `from`:
    /// see [`DMAStreamPeripheral::configure`].
    pub fn periph_to_mem<T: DMAAble>(
        &self,
        chip: &mut Chip,
        from: PeriphDescriptor,
        to: MemDescriptor<T>,
    ) -> (transfer: Result<Transfer<T>, Rejected<T>>)
        ensures
            match transfer_violation(
                self.registers(*old(chip)).active(),
                Config_TranfertDirection::PeripheralToMemory,
                EndpointSummary::Peripheral(from),
                EndpointSummary::Memory(to.summary()),
            ) {
                Some(error) => {
                    &&& transfer matches Err(rejected)
                    &&& rejected.error == error
                    &&& rejected.source == Endpoint::<T>::Peripheral(from)
                    &&& rejected.destination == Endpoint::Memory(to)
                    &&& *final(chip) == *old(chip)
                },
                None => {
                    &&& transfer matches Ok(kept)
                    &&& kept.controller() == self.dma.controller
                    &&& kept.stream() == self.stream
                    &&& kept.source() == Endpoint::<T>::Peripheral(from)
                    &&& kept.destination() == Endpoint::Memory(to)
                    &&& *final(chip) == self.with_registers(
                        *old(chip),
                        self.registers(*old(chip)).set_up(
                            self.channel,
                            self.priority,
                            layout_of(
                                Config_TranfertDirection::PeripheralToMemory,
                                EndpointSummary::Peripheral(from),
                                EndpointSummary::Memory(to.summary()),
                            ),
                        ),
                    )
                },
            },
    {
        self.configure(
            chip,
            Config_TranfertDirection::PeripheralToMemory,
            Endpoint::Peripheral(from),
            Endpoint::Memory(to),
        )
    }

    /// Sets the stream up to copy the buffer `from` to the buffer `to`: see
    /// [`DMAStreamPeripheral::configure`].
    pub fn mem_to_mem<T: DMAAble>(
        &self,
        chip: &mut Chip,
        from: MemDescriptor<T>,
        to: MemDescriptor<T>,
    ) -> (transfer: Result<Transfer<T>, Rejected<T>>)
        ensures
            match transfer_violation(
                self.registers(*old(chip)).active(),
                Config_TranfertDirection::MemoryToMemory,
                EndpointSummary::Memory(from.summary()),
                EndpointSummary::Memory(to.summary()),
            ) {
                Some(error) => {
                    &&& transfer matches Err(rejected)
                    &&& rejected.error == error
                    &&& rejected.source == Endpoint::Memory(from)
                    &&& rejected.destination == Endpoint::Memory(to)
                    &&& *final(chip) == *old(chip)
                },
                None => {
                    &&& transfer matches Ok(kept)
                    &&& kept.controller() == self.dma.controller
                    &&& kept.stream() == self.stream
                    &&& kept.source() == Endpoint::Memory(from)
                    &&& kept.destination() == Endpoint::Memory(to)
                    &&& *final(chip) == self.with_registers(
                        *old(chip),
                        self.registers(*old(chip)).set_up(
                            self.channel,
                            self.priority,
                            layout_of(
                                Config_TranfertDirection::MemoryToMemory,
                                EndpointSummary::Memory(from.summary()),
                                EndpointSummary::Memory(to.summary()),
                            ),
                        ),
                    )
                },
            },
    {
        self.configure(
            chip,
            Config_TranfertDirection::MemoryToMemory,
            Endpoint::Memory(from),
            Endpoint::Memory(to),
        )
    }

    /// Enables the stream. Nothing changes where it is enabled already.
    pub fn start(&self, chip: &mut Chip) -> (result: Result<(), DMAError>)
        ensures
            result == Ok::<(), DMAError>(()),
            *final(chip) == self.with_registers(*old(chip), self.registers(*old(chip)).started()),
    {
        let registers = chip.dma_mut(self.dma.controller).stream_mut(self.stream);
        update(&mut registers.config, CONFIG_STREAM_ENABLE, CONFIG_STREAM_ENABLE);
        Ok(())
    }

    /// Tells whether the stream is enabled.
    pub fn is_enabled(&self, chip: &Chip) -> (enabled: bool)
        ensures
            enabled == self.registers(*chip).active(),
    {
        is_set(
            chip.dma_ref(self.dma.controller).stream_ref(self.stream).config,
            CONFIG_STREAM_ENABLE,
        )
    }

    /// The number of items that are still to be moved.
    pub fn ndata(&self, chip: &Chip) -> (remaining: Result<usize, DMAError>)
        ensures
            remaining == Ok::<usize, DMAError>(self.registers(*chip).number_of_data as usize),
    {
        Ok(chip.dma_ref(self.dma.controller).stream_ref(self.stream).number_of_data as usize)
    }

    /// Disables the stream. Nothing changes where it is disabled already.
    pub fn stop(&self, chip: &mut Chip) -> (result: Result<(), DMAError>)
        ensures
            result == Ok::<(), DMAError>(()),
            *final(chip) == self.with_registers(*old(chip), self.registers(*old(chip)).stopped()),
    {
        let registers = chip.dma_mut(self.dma.controller).stream_mut(self.stream);
        update(&mut registers.config, 0, CONFIG_STREAM_ENABLE);
        Ok(())
    }
}

impl<'a> Peripheral for DMAStreamPeripheral<'a> {
    /// The clock gate of the controller is opened.
    open spec fn init_settings(&self) -> Seq<Setting> {
        self.dma.init_settings()
    }

    open spec fn init_result(&self) -> Result<(), InitError> {
        self.dma.init_result()
    }

    fn init(&self, chip: &mut Chip) -> (result: Result<(), InitError>) {
        self.dma.init(chip)
    }
}

/// Enabling a stream makes it active, and enabling it again changes nothing.
pub proof fn lemma_started(registers: DMAStreamRegisters)
    ensures
        registers.started().active(),
        registers.started().started() == registers.started(),
        registers.active() ==> registers.started() == registers,
{
    lemma_enable_bit(registers.config);
}

/// Disabling a stream makes it idle and leaves the number of items alone, and
/// disabling it again changes nothing.
pub proof fn lemma_stopped(registers: DMAStreamRegisters)
    ensures
        !registers.stopped().active(),
        registers.stopped().stopped() == registers.stopped(),
        !registers.active() ==> registers.stopped() == registers,
        registers.stopped().number_of_data == registers.number_of_data,
{
    lemma_enable_bit(registers.config);
}

/// A stream that has just been set up is idle.
pub proof fn lemma_set_up_is_idle(
    registers: DMAStreamRegisters,
    channel: Channel,
    priority: Priority,
    layout: Layout,
)
    ensures
        !registers.set_up(channel, priority, layout).active(),
{
    let offset = match layout.peripheral.increment {
        Some(IncOffset::Word) => Config_PeripheralIncrOffsetSize::FixedTo4Bytes.bits(),
        _ => Config_PeripheralIncrOffsetSize::LinkedToPSize.bits(),
    };
    let stepping = if layout.peripheral.increment is Some {
        CONFIG_PERIPHERAL_INCREMENT
    } else {
        0
    };
    let double = if layout.double_buffer is Some {
        CONFIG_DOUBLE_BUFFER_MODE
    } else {
        0
    };
    let circular = if layout.circular_mode {
        CONFIG_CIRCULAR_MODE
    } else {
        0
    };
    let flow = if layout.flow_ctrl == FlowControl::Peripheral {
        CONFIG_PERIPHERAL_FLOW_CONTROL
    } else {
        0
    };
    lemma_word_leaves_enable_clear(
        registers.config,
        channel.code(),
        priority.bits(),
        burst_bits(layout.memory.burst),
        burst_bits(layout.peripheral.burst),
        offset,
        layout.memory.size.field().bits(),
        layout.peripheral.size.field().bits(),
        stepping,
        double,
        circular,
        layout.direction.bits(),
        flow,
    );
}

proof fn lemma_enable_bit(config: u32)
    by (bit_vector)
    ensures
        update_bits(config, CONFIG_STREAM_ENABLE, CONFIG_STREAM_ENABLE) & CONFIG_STREAM_ENABLE
            == CONFIG_STREAM_ENABLE,
        update_bits(config, 0, CONFIG_STREAM_ENABLE) & CONFIG_STREAM_ENABLE != CONFIG_STREAM_ENABLE,
        update_bits(
            update_bits(config, CONFIG_STREAM_ENABLE, CONFIG_STREAM_ENABLE),
            CONFIG_STREAM_ENABLE,
            CONFIG_STREAM_ENABLE,
        ) == update_bits(config, CONFIG_STREAM_ENABLE, CONFIG_STREAM_ENABLE),
        update_bits(update_bits(config, 0, CONFIG_STREAM_ENABLE), 0, CONFIG_STREAM_ENABLE)
            == update_bits(config, 0, CONFIG_STREAM_ENABLE),
        config & CONFIG_STREAM_ENABLE == CONFIG_STREAM_ENABLE ==> update_bits(
            config,
            CONFIG_STREAM_ENABLE,
            CONFIG_STREAM_ENABLE,
        ) == config,
        config & CONFIG_STREAM_ENABLE != CONFIG_STREAM_ENABLE ==> update_bits(
            config,
            0,
            CONFIG_STREAM_ENABLE,
        ) == config,
{
}

proof fn lemma_word_leaves_enable_clear(
    config: u32,
    channel: u32,
    priority: u32,
    memory_burst: u32,
    peripheral_burst: u32,
    offset: u32,
    memory_size: u32,
    peripheral_size: u32,
    stepping: u32,
    double: u32,
    circular: u32,
    direction: u32,
    flow: u32,
)
    by (bit_vector)
    requires
        priority % 2 == 0,
        offset % 2 == 0,
        stepping % 2 == 0,
        double % 2 == 0,
        circular % 2 == 0,
        direction % 2 == 0,
        flow % 2 == 0,
    ensures
        update_bits(
            config,
            (channel << CONFIG_CHANNEL_SELECTION_SHIFT) | priority | ((memory_burst
                << CONFIG_MEMORY_BURST_TRANSFERT_SHIFT) | (peripheral_burst
                << CONFIG_PERIPHERAL_BURST_TRANSFERT_SHIFT) | offset | (memory_size
                << CONFIG_MEMORY_DATA_SIZE_SHIFT) | (peripheral_size
                << CONFIG_PERIPHERAL_DATA_SIZE_SHIFT) | CONFIG_MEMORY_INCREMENT | stepping) | (
            double | circular | direction | flow),
            CONFIG_ALL_FIELDS,
        ) & CONFIG_STREAM_ENABLE != CONFIG_STREAM_ENABLE,
{
}

} // verus!
