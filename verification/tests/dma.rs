use stm32f2_hal::chip::{Chip, Controller};
use stm32f2_hal::dma::stream::Config_TranfertDirection;
use stm32f2_hal::dma::descriptor::{EndpointSummary, MemorySummary};
use stm32f2_hal::dma::layout::lay_out;
use stm32f2_hal::dma::{
    BurstSize, Channel, DMAAble, DMAError, DMAPeripheral, DMAStreamPeripheral,
    DMAStreamRegisters, DataSize, Endpoint, FifoMode, FifoThreshold, FlowControl, IncOffset,
    MemDescriptor, PeriphDescriptor, Priority, Stream,
};
use stm32f2_hal::peripheral::Peripheral;
use stm32f2_hal::rcc::{Clock, RCCPeripheral};
use stm32f2_hal::ErrorKind;

fn controller() -> DMAPeripheral {
    DMAPeripheral { controller: Controller::DMA2, clock: RCCPeripheral { clock: Clock::DMA2 } }
}

fn stream(dma: &DMAPeripheral) -> DMAStreamPeripheral<'_> {
    DMAStreamPeripheral {
        dma,
        isr_id: 58,
        stream: Stream::Stream2,
        channel: Channel::Channel4,
        priority: Priority::High,
    }
}

fn data_register() -> PeriphDescriptor {
    PeriphDescriptor {
        address: 0x4001_1004,
        size: DataSize::Byte,
        increment: None,
        burst: None,
        fifo_mode: FifoMode::Direct,
        flow_ctrl: FlowControl::DMA,
    }
}

fn buffer<T: DMAAble + Clone>(item: T, len: usize, address: u32) -> MemDescriptor<T> {
    MemDescriptor {
        data: vec![item; len],
        address,
        burst: None,
        circular_mode: false,
        double_buffer: None,
    }
}

fn sized<T: DMAAble>(size: DataSize) -> Endpoint<T> {
    Endpoint::Peripheral(PeriphDescriptor { size, ..data_register() })
}

fn bursting<T: DMAAble>(burst: Option<BurstSize>) -> Endpoint<T> {
    Endpoint::Peripheral(PeriphDescriptor { burst, ..data_register() })
}

fn refusal<T: DMAAble>(
    handle: &DMAStreamPeripheral<'_>,
    direction: Config_TranfertDirection,
    source: Endpoint<T>,
    destination: Endpoint<T>,
) -> DMAError {
    let mut chip = Chip::default();
    match handle.configure(&mut chip, direction, source, destination) {
        Ok(_) => panic!("the transfer was accepted"),
        Err(rejected) => {
            assert_eq!(chip, Chip::default());
            rejected.error
        }
    }
}

#[test]
fn stream_init_opens_the_gate_of_its_controller() {
    let dma = controller();
    let handle = stream(&dma);
    let mut chip = Chip::default();
    assert_eq!(handle.init(&mut chip), Ok(()));
    assert_eq!(dma.init(&mut chip), Ok(()));
    let mut expected = Chip::default();
    expected.rcc.ahb1_clock_enable = 0x0040_0000;
    assert_eq!(chip, expected);
}

#[test]
fn circular_reception_runs_until_it_is_stopped() {
    let dma = controller();
    let handle = stream(&dma);
    let mut chip = Chip::default();
    let mut to = buffer(0u8, 16, 0x2000_0000);
    to.circular_mode = true;
    let transfer = match handle.periph_to_mem(&mut chip, data_register(), to) {
        Ok(transfer) => transfer,
        Err(rejected) => panic!("refused: {}", rejected.error.message()),
    };

    let mut expected = Chip::default();
    expected.dma2.stream2 = DMAStreamRegisters {
        config: 0x0802_0500,
        number_of_data: 16,
        peripheral_addr: 0x4001_1004,
        memory_0_addr: 0x2000_0000,
        memory_1_addr: 0,
        fifo_control: 0,
    };
    assert_eq!(chip, expected);
    assert!(!handle.is_enabled(&chip));

    assert_eq!(handle.start(&mut chip), Ok(()));
    assert_eq!(chip.dma2.stream2.config, 0x0802_0501);
    assert!(handle.is_enabled(&chip));
    let mut last = handle.ndata(&chip).unwrap();
    assert_eq!(last, 16);
    for _ in 0..8 {
        let now = handle.ndata(&chip).unwrap();
        assert!(now <= last);
        last = now;
    }

    // the buffer stays with the stream while it is enabled
    let transfer = match transfer.release(&chip) {
        Ok(_) => panic!("the buffer was handed back in flight"),
        Err(transfer) => transfer,
    };

    assert_eq!(handle.stop(&mut chip), Ok(()));
    assert!(!handle.is_enabled(&chip));
    assert_eq!(chip.dma2.stream2.config, 0x0802_0500);
    assert_eq!(handle.ndata(&chip), Ok(16));

    match transfer.release(&chip) {
        Ok((Endpoint::Peripheral(source), Endpoint::Memory(destination))) => {
            assert_eq!(source, data_register());
            assert_eq!(destination.data, vec![0u8; 16]);
            assert_eq!(destination.address, 0x2000_0000);
        }
        _ => panic!("the ends did not come back"),
    }
}

#[test]
fn start_and_stop_change_nothing_in_their_target_state() {
    let dma = controller();
    let handle = stream(&dma);
    let mut chip = Chip::default();
    chip.dma2.stream2.config = 0x0802_0500;
    handle.stop(&mut chip).unwrap();
    assert_eq!(chip.dma2.stream2.config, 0x0802_0500);
    handle.start(&mut chip).unwrap();
    let started = chip;
    handle.start(&mut chip).unwrap();
    assert_eq!(chip, started);
    handle.stop(&mut chip).unwrap();
    let stopped = chip;
    handle.stop(&mut chip).unwrap();
    assert_eq!(chip, stopped);
    // the other streams are not touched
    assert_eq!(stopped.dma2.stream1, DMAStreamRegisters::default());
    assert_eq!(stopped.dma1, Chip::default().dma1);
}

#[test]
fn transmission_packs_words_into_half_words() {
    let dma = controller();
    let handle = stream(&dma);
    let mut chip = Chip::default();
    chip.dma2.stream2.config = 0xF010_0000; // reserved bits
    chip.dma2.stream2.fifo_control = 0x0000_00B8;
    let mut from = buffer(0u32, 8, 0x2000_1000);
    from.burst = Some(BurstSize::Word);
    let to = PeriphDescriptor {
        address: 0x4000_380C,
        size: DataSize::HalfWord,
        increment: Some(IncOffset::Word),
        burst: Some(BurstSize::DoubleWord),
        fifo_mode: FifoMode::Fifo(FifoThreshold::HalfFull),
        flow_ctrl: FlowControl::Peripheral,
    };
    assert!(handle.mem_to_periph(&mut chip, from, to).is_ok());
    assert_eq!(
        chip.dma2.stream2,
        DMAStreamRegisters {
            config: 0xF8D2_CE60,
            number_of_data: 16,
            peripheral_addr: 0x4000_380C,
            memory_0_addr: 0x2000_1000,
            memory_1_addr: 0,
            fifo_control: 0x0000_00BD,
        }
    );
}

#[test]
fn double_buffering_programs_the_second_address() {
    let dma = controller();
    let handle = stream(&dma);
    let mut chip = Chip::default();
    let mut to = buffer(0u16, 32, 0x2000_0000);
    to.double_buffer = Some((vec![0u16; 32], 0x2000_0040));
    let from = PeriphDescriptor { size: DataSize::HalfWord, ..data_register() };
    assert!(handle.periph_to_mem(&mut chip, from, to).is_ok());
    assert_eq!(
        chip.dma2.stream2,
        DMAStreamRegisters {
            config: 0x0806_2C00,
            number_of_data: 32,
            peripheral_addr: 0x4001_1004,
            memory_0_addr: 0x2000_0000,
            memory_1_addr: 0x2000_0040,
            fifo_control: 0,
        }
    );
}

#[test]
fn memory_to_memory_puts_the_source_on_the_peripheral_port() {
    let dma = controller();
    let handle = stream(&dma);
    let mut chip = Chip::default();
    let from = buffer(7u16, 4, 0x2000_0100);
    let to = buffer(0u16, 4, 0x2000_0200);
    let transfer = match handle.mem_to_mem(&mut chip, from, to) {
        Ok(transfer) => transfer,
        Err(rejected) => panic!("refused: {}", rejected.error.message()),
    };
    assert_eq!(
        chip.dma2.stream2,
        DMAStreamRegisters {
            config: 0x0802_2E80,
            number_of_data: 4,
            peripheral_addr: 0x2000_0100,
            memory_0_addr: 0x2000_0200,
            memory_1_addr: 0,
            fifo_control: 0x0000_0007,
        }
    );
    match transfer.release(&chip) {
        Ok((Endpoint::Memory(source), Endpoint::Memory(destination))) => {
            assert_eq!(source.data, vec![7u16; 4]);
            assert_eq!(destination.data, vec![0u16; 4]);
        }
        _ => panic!("the ends did not come back"),
    }
}

#[test]
fn an_enabled_stream_is_not_set_up_again() {
    let dma = controller();
    let handle = stream(&dma);
    let mut chip = Chip::default();
    handle.start(&mut chip).unwrap();
    let before = chip;
    match handle.periph_to_mem(&mut chip, data_register(), buffer(0u8, 16, 0x2000_0000)) {
        Ok(_) => panic!("the transfer was accepted"),
        Err(rejected) => {
            assert_eq!(rejected.error, DMAError::StreamActive);
            assert_eq!(rejected.error.kind(), ErrorKind::Protocol);
            // the ends come back as they were handed in
            assert!(matches!(rejected.source, Endpoint::Peripheral(source) if source == data_register()));
            assert!(matches!(rejected.destination, Endpoint::Memory(ref to) if to.data.len() == 16));
        }
    }
    assert_eq!(chip, before);
    handle.stop(&mut chip).unwrap();
    assert!(handle
        .periph_to_mem(&mut chip, data_register(), buffer(0u8, 16, 0x2000_0000))
        .is_ok());
}

#[test]
fn ends_must_match_the_direction() {
    let dma = controller();
    let handle = stream(&dma);
    let periph = || Endpoint::<u8>::Peripheral(data_register());
    let memory = || Endpoint::Memory(buffer(0u8, 16, 0x2000_0000));
    let p2m = Config_TranfertDirection::PeripheralToMemory;
    let m2p = Config_TranfertDirection::MemoryToPeripheral;
    let m2m = Config_TranfertDirection::MemoryToMemory;

    for (direction, source, destination) in [
        (p2m, memory(), periph()),
        (p2m, periph(), periph()),
        (p2m, memory(), memory()),
        (m2p, periph(), memory()),
        (m2p, periph(), periph()),
        (m2p, memory(), memory()),
        (m2m, periph(), memory()),
        (m2m, memory(), periph()),
        (m2m, periph(), periph()),
    ] {
        let error = refusal(&handle, direction, source, destination);
        assert_eq!(error, DMAError::DirectionMismatch);
        assert_eq!(error.kind(), ErrorKind::Validation);
    }

    let mut chip = Chip::default();
    assert!(handle.configure(&mut chip, p2m, periph(), memory()).is_ok());
    let mut chip = Chip::default();
    assert!(handle.configure(&mut chip, m2p, memory(), periph()).is_ok());
    let mut chip = Chip::default();
    assert!(handle.configure(&mut chip, m2m, memory(), memory()).is_ok());
}

#[test]
fn circular_mode_and_double_buffering_exclude_each_other() {
    let dma = controller();
    let handle = stream(&dma);
    let both = || {
        let mut to = buffer(0u8, 16, 0x2000_0000);
        to.circular_mode = true;
        to.double_buffer = Some((vec![0u8; 16], 0x2000_0010));
        Endpoint::Memory(to)
    };
    assert_eq!(
        refusal(
            &handle,
            Config_TranfertDirection::PeripheralToMemory,
            Endpoint::Peripheral(data_register()),
            both()
        ),
        DMAError::ModeConflict
    );
    assert_eq!(
        refusal(
            &handle,
            Config_TranfertDirection::MemoryToPeripheral,
            both(),
            Endpoint::Peripheral(data_register())
        ),
        DMAError::ModeConflict
    );
}

#[test]
fn neither_mode_is_available_between_memories() {
    let dma = controller();
    let handle = stream(&dma);
    let plain = || Endpoint::Memory(buffer(0u8, 16, 0x2000_0000));
    let circular = || {
        let mut to = buffer(0u8, 16, 0x2000_0100);
        to.circular_mode = true;
        Endpoint::Memory(to)
    };
    let double = || {
        let mut to = buffer(0u8, 16, 0x2000_0100);
        to.double_buffer = Some((vec![0u8; 16], 0x2000_0200));
        Endpoint::Memory(to)
    };
    let m2m = Config_TranfertDirection::MemoryToMemory;
    assert_eq!(refusal(&handle, m2m, plain(), circular()), DMAError::ModeNotAvailable);
    assert_eq!(refusal(&handle, m2m, circular(), plain()), DMAError::ModeNotAvailable);
    assert_eq!(refusal(&handle, m2m, plain(), double()), DMAError::ModeNotAvailable);
    assert_eq!(refusal(&handle, m2m, double(), plain()), DMAError::ModeNotAvailable);
    // asked for together, on whichever buffers, the two modes clash first
    assert_eq!(refusal(&handle, m2m, circular(), double()), DMAError::ModeConflict);
}

#[test]
fn the_length_has_to_fit_the_stream() {
    let dma = controller();
    let handle = stream(&dma);
    let p2m = Config_TranfertDirection::PeripheralToMemory;

    // no data at all
    assert_eq!(
        refusal(&handle, p2m, sized(DataSize::Byte), Endpoint::Memory(buffer(0u8, 0, 0))),
        DMAError::InvalidLength
    );
    // more items than the stream can count
    assert_eq!(
        refusal(&handle, p2m, sized(DataSize::Byte), Endpoint::Memory(buffer(0u8, 65_536, 0))),
        DMAError::InvalidLength
    );
    // three bytes are not a whole number of half words
    assert_eq!(
        refusal(&handle, p2m, sized(DataSize::HalfWord), Endpoint::Memory(buffer(0u8, 3, 0))),
        DMAError::InvalidLength
    );
    // a second buffer of another length
    let mut to = buffer(0u8, 16, 0x2000_0000);
    to.double_buffer = Some((vec![0u8; 15], 0x2000_0010));
    assert_eq!(
        refusal(&handle, p2m, sized(DataSize::Byte), Endpoint::Memory(to)),
        DMAError::InvalidLength
    );
    // buffers of different lengths
    assert_eq!(
        refusal(
            &handle,
            Config_TranfertDirection::MemoryToMemory,
            Endpoint::Memory(buffer(0u8, 16, 0x2000_0000)),
            Endpoint::Memory(buffer(0u8, 17, 0x2000_0100))
        ),
        DMAError::InvalidLength
    );

    // the most a stream can count, in bytes and in words behind a byte port
    let mut chip = Chip::default();
    assert!(handle
        .configure(&mut chip, p2m, sized(DataSize::Byte), Endpoint::Memory(buffer(0u8, 65_535, 0)))
        .is_ok());
    assert_eq!(chip.dma2.stream2.number_of_data, 65_535);
    let mut chip = Chip::default();
    assert!(handle
        .configure(&mut chip, p2m, sized(DataSize::Byte), Endpoint::Memory(buffer(0u32, 16_383, 0)))
        .is_ok());
    assert_eq!(chip.dma2.stream2.number_of_data, 65_532);
    assert_eq!(
        refusal(&handle, p2m, sized(DataSize::Byte), Endpoint::Memory(buffer(0u32, 16_384, 0))),
        DMAError::InvalidLength
    );
    // bytes behind a word port
    let mut chip = Chip::default();
    assert!(handle
        .configure(&mut chip, p2m, sized(DataSize::Word), Endpoint::Memory(buffer(0u8, 64, 0)))
        .is_ok());
    assert_eq!(chip.dma2.stream2.number_of_data, 16);
}

#[test]
fn a_burst_has_to_divide_the_length() {
    let dma = controller();
    let handle = stream(&dma);
    let p2m = Config_TranfertDirection::PeripheralToMemory;
    let memory = |len, burst| {
        let mut to = buffer(0u8, len, 0x2000_0000);
        to.burst = burst;
        Endpoint::Memory(to)
    };

    for (len, burst) in [
        (10, BurstSize::Word),
        (12, BurstSize::DoubleWord),
        (24, BurstSize::QuadWord),
        (1, BurstSize::Word),
    ] {
        assert_eq!(
            refusal(&handle, p2m, bursting(None), memory(len, Some(burst))),
            DMAError::BurstMismatch
        );
        assert_eq!(
            refusal(&handle, p2m, bursting(Some(burst)), memory(len, None)),
            DMAError::BurstMismatch
        );
    }
    for (len, burst) in [
        (10, BurstSize::Byte),
        (12, BurstSize::Word),
        (24, BurstSize::DoubleWord),
        (32, BurstSize::QuadWord),
    ] {
        let mut chip = Chip::default();
        assert!(handle
            .configure(&mut chip, p2m, bursting(Some(burst)), memory(len, Some(burst)))
            .is_ok());
    }
    // each burst counts the items of its own port: 8 words are 32 bytes
    let mut chip = Chip::default();
    let mut from = buffer(0u32, 8, 0x2000_0000);
    from.burst = Some(BurstSize::DoubleWord);
    assert!(handle
        .configure(
            &mut chip,
            Config_TranfertDirection::MemoryToPeripheral,
            Endpoint::Memory(from),
            bursting(Some(BurstSize::QuadWord))
        )
        .is_ok());
    assert_eq!(chip.dma2.stream2.number_of_data, 32);
    assert_eq!(chip.dma2.stream2.config & 0x01E0_0000, 0x0160_0000);
}

#[test]
fn every_pair_of_widths_can_be_packed() {
    let items = [(DataSize::Byte, 1usize), (DataSize::HalfWord, 2), (DataSize::Word, 4)];
    let dma = controller();
    let handle = stream(&dma);
    for (peripheral, step) in items {
        // 8 bytes, 8 half words and 8 words, counted in items of the peripheral port
        let mut chip = Chip::default();
        let to: Endpoint<u8> = Endpoint::Memory(buffer(0u8, 8, 0));
        assert!(handle
            .configure(&mut chip, Config_TranfertDirection::PeripheralToMemory, sized(peripheral), to)
            .is_ok());
        assert_eq!(chip.dma2.stream2.number_of_data as usize, 8 / step);
        let mut chip = Chip::default();
        let to: Endpoint<u16> = Endpoint::Memory(buffer(0u16, 8, 0));
        assert!(handle
            .configure(&mut chip, Config_TranfertDirection::PeripheralToMemory, sized(peripheral), to)
            .is_ok());
        assert_eq!(chip.dma2.stream2.number_of_data as usize, 16 / step);
        let mut chip = Chip::default();
        let to: Endpoint<u32> = Endpoint::Memory(buffer(0u32, 8, 0));
        assert!(handle
            .configure(&mut chip, Config_TranfertDirection::PeripheralToMemory, sized(peripheral), to)
            .is_ok());
        assert_eq!(chip.dma2.stream2.number_of_data as usize, 32 / step);
    }
    assert_eq!(DataSize::Byte.bytes(), 1);
    assert_eq!(DataSize::HalfWord.bytes(), 2);
    assert_eq!(DataSize::Word.bytes(), 4);
}

#[test]
fn the_type_of_an_item_fixes_its_width() {
    assert_eq!(0u8.datasize(), DataSize::Byte);
    assert_eq!(0i8.datasize(), DataSize::Byte);
    assert_eq!(0u16.datasize(), DataSize::HalfWord);
    assert_eq!(0i16.datasize(), DataSize::HalfWord);
    assert_eq!(0u32.datasize(), DataSize::Word);
    assert_eq!(0i32.datasize(), DataSize::Word);
    assert_eq!(buffer(0i16, 3, 0x10).summary().width, DataSize::HalfWord);
    assert_eq!(
        buffer(0i32, 3, 0x10).summary(),
        MemorySummary {
            items: 3,
            width: DataSize::Word,
            address: 0x10,
            burst: None,
            circular_mode: false,
            double_buffer: None,
        }
    );
}

#[test]
fn bursts_and_channels_keep_their_codes() {
    assert_eq!(BurstSize::Byte.beats(), 1);
    assert_eq!(BurstSize::Word.beats(), 4);
    assert_eq!(BurstSize::DoubleWord.beats(), 8);
    assert_eq!(BurstSize::QuadWord.beats(), 16);
    assert_eq!(Channel::Channel0.code(), 0);
    assert_eq!(Channel::Channel7.code(), 7);
    assert_eq!(Priority::VeryHigh.bits(), 0x0003_0000);
    assert_eq!(Config_TranfertDirection::MemoryToMemory.bits(), 0x0000_0080);
}

#[test]
fn lay_out_refuses_ends_of_the_wrong_kind() {
    let periph = EndpointSummary::Peripheral(data_register());
    assert_eq!(
        lay_out(Config_TranfertDirection::MemoryToMemory, periph, periph),
        Err(DMAError::DirectionMismatch)
    );
}

#[test]
fn each_stream_has_its_own_registers() {
    let dma = DMAPeripheral {
        controller: Controller::DMA1,
        clock: RCCPeripheral { clock: Clock::DMA1 },
    };
    let streams = [
        Stream::Stream0,
        Stream::Stream1,
        Stream::Stream2,
        Stream::Stream3,
        Stream::Stream4,
        Stream::Stream5,
        Stream::Stream6,
        Stream::Stream7,
    ];
    let mut chip = Chip::default();
    for (index, stream) in streams.into_iter().enumerate() {
        let handle = DMAStreamPeripheral {
            dma: &dma,
            isr_id: 0,
            stream,
            channel: Channel::Channel0,
            priority: Priority::Low,
        };
        let to = buffer(0u8, index + 1, 0x2000_0000);
        assert!(handle.periph_to_mem(&mut chip, data_register(), to).is_ok());
    }
    let counts = [
        chip.dma1.stream0.number_of_data,
        chip.dma1.stream1.number_of_data,
        chip.dma1.stream2.number_of_data,
        chip.dma1.stream3.number_of_data,
        chip.dma1.stream4.number_of_data,
        chip.dma1.stream5.number_of_data,
        chip.dma1.stream6.number_of_data,
        chip.dma1.stream7.number_of_data,
    ];
    assert_eq!(counts, [1, 2, 3, 4, 5, 6, 7, 8]);
    assert_eq!(chip.dma2, Chip::default().dma2);
}

#[test]
fn dma_errors_know_their_kind() {
    assert_eq!(DMAError::StreamActive.kind(), ErrorKind::Protocol);
    for error in [
        DMAError::DirectionMismatch,
        DMAError::ModeConflict,
        DMAError::ModeNotAvailable,
        DMAError::InvalidLength,
        DMAError::BurstMismatch,
    ] {
        assert_eq!(error.kind(), ErrorKind::Validation);
        assert!(!error.message().is_empty());
    }
}
