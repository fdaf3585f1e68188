//! The register image of the whole chip.

use vstd::prelude::*;

use crate::dma::DMARegisters;
use crate::flash::FlashRegisters;
use crate::gpio::PortRegisters;
use crate::rcc::RCCRegisters;
use crate::usart::USARTRegisters;

verus! {

/// One of the nine general-purpose ports.
#[derive(Clone, Copy, PartialEq, Eq, Structural, Debug)]
pub enum Port {
    A,
    B,
    C,
    D,
    E,
    F,
    G,
    H,
    I,
}

/// One of the two DMA controllers.
#[derive(Clone, Copy, PartialEq, Eq, Structural, Debug)]
pub enum Controller {
    DMA1,
    DMA2,
}

/// One of the six serial interfaces.
#[derive(Clone, Copy, PartialEq, Eq, Structural, Debug)]
pub enum Line {
    USART1,
    USART2,
    USART3,
    UART4,
    UART5,
    USART6,
}

impl Line {
    /// Address of the data register of the line, which a stream needs to serve
    /// it.
    pub open spec fn spec_data_register(self) -> u32 {
        match self {
            Line::USART1 => 0x4001_1004,
            Line::USART2 => 0x4000_4404,
            Line::USART3 => 0x4000_4804,
            Line::UART4 => 0x4000_4C04,
            Line::UART5 => 0x4000_5004,
            Line::USART6 => 0x4001_1404,
        }
    }

    #[verifier::when_used_as_spec(spec_data_register)]
    pub fn data_register(self) -> (address: u32)
        ensures
            address == self.spec_data_register(),
    {
        match self {
            Line::USART1 => 0x4001_1004,
            Line::USART2 => 0x4000_4404,
            Line::USART3 => 0x4000_4804,
            Line::UART4 => 0x4000_4C04,
            Line::UART5 => 0x4000_5004,
            Line::USART6 => 0x4001_1404,
        }
    }
}

/// Images of the register blocks the library drives. Each block exists once;
/// whoever holds the chip by unique reference is the only one to write to it.
#[derive(Clone, Copy, PartialEq, Eq, Structural, Debug)]
pub struct Chip {
    pub rcc: RCCRegisters,
    pub flash: FlashRegisters,
    pub gpioa: PortRegisters,
    pub gpiob: PortRegisters,
    pub gpioc: PortRegisters,
    pub gpiod: PortRegisters,
    pub gpioe: PortRegisters,
    pub gpiof: PortRegisters,
    pub gpiog: PortRegisters,
    pub gpioh: PortRegisters,
    pub gpioi: PortRegisters,
    pub dma1: DMARegisters,
    pub dma2: DMARegisters,
    pub usart1: USARTRegisters,
    pub usart2: USARTRegisters,
    pub usart3: USARTRegisters,
    pub uart4: USARTRegisters,
    pub uart5: USARTRegisters,
    pub usart6: USARTRegisters,
}

impl Chip {
    /// The registers of `port`.
    pub open spec fn port(self, port: Port) -> PortRegisters {
        match port {
            Port::A => self.gpioa,
            Port::B => self.gpiob,
            Port::C => self.gpioc,
            Port::D => self.gpiod,
            Port::E => self.gpioe,
            Port::F => self.gpiof,
            Port::G => self.gpiog,
            Port::H => self.gpioh,
            Port::I => self.gpioi,
        }
    }

    /// The chip with `registers` in the place of the registers of `port`.
    pub open spec fn with_port(self, port: Port, registers: PortRegisters) -> Chip {
        match port {
            Port::A => Chip { gpioa: registers, ..self },
            Port::B => Chip { gpiob: registers, ..self },
            Port::C => Chip { gpioc: registers, ..self },
            Port::D => Chip { gpiod: registers, ..self },
            Port::E => Chip { gpioe: registers, ..self },
            Port::F => Chip { gpiof: registers, ..self },
            Port::G => Chip { gpiog: registers, ..self },
            Port::H => Chip { gpioh: registers, ..self },
            Port::I => Chip { gpioi: registers, ..self },
        }
    }

    /// The registers of `controller`.
    pub open spec fn dma(self, controller: Controller) -> DMARegisters {
        match controller {
            Controller::DMA1 => self.dma1,
            Controller::DMA2 => self.dma2,
        }
    }

    /// The chip with `registers` in the place of the registers of `controller`.
    pub open spec fn with_dma(self, controller: Controller, registers: DMARegisters) -> Chip {
        match controller {
            Controller::DMA1 => Chip { dma1: registers, ..self },
            Controller::DMA2 => Chip { dma2: registers, ..self },
        }
    }

    /// The registers of `line`.
    pub open spec fn usart(self, line: Line) -> USARTRegisters {
        match line {
            Line::USART1 => self.usart1,
            Line::USART2 => self.usart2,
            Line::USART3 => self.usart3,
            Line::UART4 => self.uart4,
            Line::UART5 => self.uart5,
            Line::USART6 => self.usart6,
        }
    }

    /// The chip with `registers` in the place of the registers of `line`.
    pub open spec fn with_usart(self, line: Line, registers: USARTRegisters) -> Chip {
        match line {
            Line::USART1 => Chip { usart1: registers, ..self },
            Line::USART2 => Chip { usart2: registers, ..self },
            Line::USART3 => Chip { usart3: registers, ..self },
            Line::UART4 => Chip { uart4: registers, ..self },
            Line::UART5 => Chip { uart5: registers, ..self },
            Line::USART6 => Chip { usart6: registers, ..self },
        }
    }

    /// The registers of `port`, to read and to write.
    pub fn port_mut(&mut self, port: Port) -> (registers: &mut PortRegisters)
        ensures
            *registers == old(self).port(port),
            *final(self) == old(self).with_port(port, *final(registers)),
    {
        match port {
            Port::A => &mut self.gpioa,
            Port::B => &mut self.gpiob,
            Port::C => &mut self.gpioc,
            Port::D => &mut self.gpiod,
            Port::E => &mut self.gpioe,
            Port::F => &mut self.gpiof,
            Port::G => &mut self.gpiog,
            Port::H => &mut self.gpioh,
            Port::I => &mut self.gpioi,
        }
    }

    /// The registers of `port`, to read.
    pub fn port_ref(&self, port: Port) -> (registers: &PortRegisters)
        ensures
            *registers == self.port(port),
    {
        match port {
            Port::A => &self.gpioa,
            Port::B => &self.gpiob,
            Port::C => &self.gpioc,
            Port::D => &self.gpiod,
            Port::E => &self.gpioe,
            Port::F => &self.gpiof,
            Port::G => &self.gpiog,
            Port::H => &self.gpioh,
            Port::I => &self.gpioi,
        }
    }

    /// The registers of `controller`, to read and to write.
    pub fn dma_mut(&mut self, controller: Controller) -> (registers: &mut DMARegisters)
        ensures
            *registers == old(self).dma(controller),
            *final(self) == old(self).with_dma(controller, *final(registers)),
    {
        match controller {
            Controller::DMA1 => &mut self.dma1,
            Controller::DMA2 => &mut self.dma2,
        }
    }

    /// The registers of `controller`, to read.
    pub fn dma_ref(&self, controller: Controller) -> (registers: &DMARegisters)
        ensures
            *registers == self.dma(controller),
    {
        match controller {
            Controller::DMA1 => &self.dma1,
            Controller::DMA2 => &self.dma2,
        }
    }

    /// The registers of `line`, to read and to write.
    pub fn usart_mut(&mut self, line: Line) -> (registers: &mut USARTRegisters)
        ensures
            *registers == old(self).usart(line),
            *final(self) == old(self).with_usart(line, *final(registers)),
    {
        match line {
            Line::USART1 => &mut self.usart1,
            Line::USART2 => &mut self.usart2,
            Line::USART3 => &mut self.usart3,
            Line::UART4 => &mut self.uart4,
            Line::UART5 => &mut self.uart5,
            Line::USART6 => &mut self.usart6,
        }
    }

    /// The registers of `line`, to read.
    pub fn usart_ref(&self, line: Line) -> (registers: &USARTRegisters)
        ensures
            *registers == self.usart(line),
    {
        match line {
            Line::USART1 => &self.usart1,
            Line::USART2 => &self.usart2,
            Line::USART3 => &self.usart3,
            Line::UART4 => &self.uart4,
            Line::UART5 => &self.uart5,
            Line::USART6 => &self.usart6,
        }
    }
}

impl Chip {
    /// The image with every register of every block at zero.
    pub open spec fn blank() -> Chip {
        Chip {
            rcc: RCCRegisters::blank(),
            flash: FlashRegisters::blank(),
            gpioa: PortRegisters::blank(),
            gpiob: PortRegisters::blank(),
            gpioc: PortRegisters::blank(),
            gpiod: PortRegisters::blank(),
            gpioe: PortRegisters::blank(),
            gpiof: PortRegisters::blank(),
            gpiog: PortRegisters::blank(),
            gpioh: PortRegisters::blank(),
            gpioi: PortRegisters::blank(),
            dma1: DMARegisters::blank(),
            dma2: DMARegisters::blank(),
            usart1: USARTRegisters::blank(),
            usart2: USARTRegisters::blank(),
            usart3: USARTRegisters::blank(),
            uart4: USARTRegisters::blank(),
            uart5: USARTRegisters::blank(),
            usart6: USARTRegisters::blank(),
        }
    }
}

impl Default for Chip {
    /// The image with every register of every block at zero.
    fn default() -> (image: Chip)
        ensures
            image == Chip::blank(),
    {
        Chip {
            rcc: RCCRegisters::default(),
            flash: FlashRegisters::default(),
            gpioa: PortRegisters::default(),
            gpiob: PortRegisters::default(),
            gpioc: PortRegisters::default(),
            gpiod: PortRegisters::default(),
            gpioe: PortRegisters::default(),
            gpiof: PortRegisters::default(),
            gpiog: PortRegisters::default(),
            gpioh: PortRegisters::default(),
            gpioi: PortRegisters::default(),
            dma1: DMARegisters::default(),
            dma2: DMARegisters::default(),
            usart1: USARTRegisters::default(),
            usart2: USARTRegisters::default(),
            usart3: USARTRegisters::default(),
            uart4: USARTRegisters::default(),
            uart5: USARTRegisters::default(),
            usart6: USARTRegisters::default(),
        }
    }
}

} // verus!
