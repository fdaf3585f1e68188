//! The clock gates: one enable bit per peripheral.

use vstd::prelude::*;

verus! {

/// The bus a peripheral sits on, which is also the enable register that holds
/// its clock gate.
#[derive(Clone, Copy, PartialEq, Eq, Structural, Debug)]
pub enum Bus {
    AHB1,
    AHB2,
    AHB3,
    APB1,
    APB2,
}

/// The clock gate of a peripheral.
#[derive(Clone, Copy, PartialEq, Eq, Structural, Debug)]
pub enum Clock {
    TIM11,
    TIM10,
    TIM9,
    SYSCFG,
    SPI1,
    SDIO,
    ADC3,
    ADC2,
    ADC1,
    USART6,
    USART1,
    TIM8,
    TIM1,
    DAC,
    PWR,
    CAN2,
    CAN1,
    I2C3,
    I2C2,
    I2C1,
    UART5,
    UART4,
    USART3,
    USART2,
    SPI3,
    SPI2,
    WWDG,
    TIM14,
    TIM13,
    TIM12,
    TIM7,
    TIM6,
    TIM5,
    TIM4,
    TIM3,
    TIM2,
    FSMC,
    OTGFS,
    RNG,
    HASH,
    CRYP,
    DCMI,
    OTGHSULPI,
    OTGHS,
    ETHMACPTP,
    ETHMACRX,
    ETHMACTX,
    ETHMAC,
    DMA2,
    DMA1,
    BKPSRAM,
    CRC,
    GPIOI,
    GPIOH,
    GPIOG,
    GPIOF,
    GPIOE,
    GPIOD,
    GPIOC,
    GPIOB,
    GPIOA,
}

impl Clock {
    /// The clock gate as a number: the index of its enable register, AHB1 to
    /// APB2, times 32, plus the position of its bit in that register.
    pub open spec fn spec_code(self) -> u8 {
        match self {
            Clock::TIM11 => 0x92,
            Clock::TIM10 => 0x91,
            Clock::TIM9 => 0x90,
            Clock::SYSCFG => 0x8E,
            Clock::SPI1 => 0x8C,
            Clock::SDIO => 0x8B,
            Clock::ADC3 => 0x8A,
            Clock::ADC2 => 0x89,
            Clock::ADC1 => 0x88,
            Clock::USART6 => 0x85,
            Clock::USART1 => 0x84,
            Clock::TIM8 => 0x81,
            Clock::TIM1 => 0x80,
            Clock::DAC => 0x7D,
            Clock::PWR => 0x7C,
            Clock::CAN2 => 0x7A,
            Clock::CAN1 => 0x79,
            Clock::I2C3 => 0x77,
            Clock::I2C2 => 0x76,
            Clock::I2C1 => 0x75,
            Clock::UART5 => 0x74,
            Clock::UART4 => 0x73,
            Clock::USART3 => 0x72,
            Clock::USART2 => 0x71,
            Clock::SPI3 => 0x6F,
            Clock::SPI2 => 0x6E,
            Clock::WWDG => 0x6B,
            Clock::TIM14 => 0x68,
            Clock::TIM13 => 0x67,
            Clock::TIM12 => 0x66,
            Clock::TIM7 => 0x65,
            Clock::TIM6 => 0x64,
            Clock::TIM5 => 0x63,
            Clock::TIM4 => 0x62,
            Clock::TIM3 => 0x61,
            Clock::TIM2 => 0x60,
            Clock::FSMC => 0x40,
            Clock::OTGFS => 0x27,
            Clock::RNG => 0x26,
            Clock::HASH => 0x25,
            Clock::CRYP => 0x24,
            Clock::DCMI => 0x20,
            Clock::OTGHSULPI => 0x1E,
            Clock::OTGHS => 0x1D,
            Clock::ETHMACPTP => 0x1C,
            Clock::ETHMACRX => 0x1B,
            Clock::ETHMACTX => 0x1A,
            Clock::ETHMAC => 0x19,
            Clock::DMA2 => 0x16,
            Clock::DMA1 => 0x15,
            Clock::BKPSRAM => 0x12,
            Clock::CRC => 0x0C,
            Clock::GPIOI => 0x08,
            Clock::GPIOH => 0x07,
            Clock::GPIOG => 0x06,
            Clock::GPIOF => 0x05,
            Clock::GPIOE => 0x04,
            Clock::GPIOD => 0x03,
            Clock::GPIOC => 0x02,
            Clock::GPIOB => 0x01,
            Clock::GPIOA => 0x00,
        }
    }

    #[verifier::when_used_as_spec(spec_code)]
    pub fn code(self) -> (code: u8)
        ensures
            code == self.spec_code(),
            code < 160,
    {
        match self {
            Clock::TIM11 => 0x92,
            Clock::TIM10 => 0x91,
            Clock::TIM9 => 0x90,
            Clock::SYSCFG => 0x8E,
            Clock::SPI1 => 0x8C,
            Clock::SDIO => 0x8B,
            Clock::ADC3 => 0x8A,
            Clock::ADC2 => 0x89,
            Clock::ADC1 => 0x88,
            Clock::USART6 => 0x85,
            Clock::USART1 => 0x84,
            Clock::TIM8 => 0x81,
            Clock::TIM1 => 0x80,
            Clock::DAC => 0x7D,
            Clock::PWR => 0x7C,
            Clock::CAN2 => 0x7A,
            Clock::CAN1 => 0x79,
            Clock::I2C3 => 0x77,
            Clock::I2C2 => 0x76,
            Clock::I2C1 => 0x75,
            Clock::UART5 => 0x74,
            Clock::UART4 => 0x73,
            Clock::USART3 => 0x72,
            Clock::USART2 => 0x71,
            Clock::SPI3 => 0x6F,
            Clock::SPI2 => 0x6E,
            Clock::WWDG => 0x6B,
            Clock::TIM14 => 0x68,
            Clock::TIM13 => 0x67,
            Clock::TIM12 => 0x66,
            Clock::TIM7 => 0x65,
            Clock::TIM6 => 0x64,
            Clock::TIM5 => 0x63,
            Clock::TIM4 => 0x62,
            Clock::TIM3 => 0x61,
            Clock::TIM2 => 0x60,
            Clock::FSMC => 0x40,
            Clock::OTGFS => 0x27,
            Clock::RNG => 0x26,
            Clock::HASH => 0x25,
            Clock::CRYP => 0x24,
            Clock::DCMI => 0x20,
            Clock::OTGHSULPI => 0x1E,
            Clock::OTGHS => 0x1D,
            Clock::ETHMACPTP => 0x1C,
            Clock::ETHMACRX => 0x1B,
            Clock::ETHMACTX => 0x1A,
            Clock::ETHMAC => 0x19,
            Clock::DMA2 => 0x16,
            Clock::DMA1 => 0x15,
            Clock::BKPSRAM => 0x12,
            Clock::CRC => 0x0C,
            Clock::GPIOI => 0x08,
            Clock::GPIOH => 0x07,
            Clock::GPIOG => 0x06,
            Clock::GPIOF => 0x05,
            Clock::GPIOE => 0x04,
            Clock::GPIOD => 0x03,
            Clock::GPIOC => 0x02,
            Clock::GPIOB => 0x01,
            Clock::GPIOA => 0x00,
        }
    }

    /// The bus of the peripheral.
    pub open spec fn spec_bus(self) -> Bus {
        let index = self.spec_code() / 32;
        if index == 0 {
            Bus::AHB1
        } else if index == 1 {
            Bus::AHB2
        } else if index == 2 {
            Bus::AHB3
        } else if index == 3 {
            Bus::APB1
        } else {
            Bus::APB2
        }
    }

    #[verifier::when_used_as_spec(spec_bus)]
    pub fn bus(self) -> (bus: Bus)
        ensures
            bus == self.spec_bus(),
    {
        let index: u8 = self.code() / 32;
        if index == 0 {
            Bus::AHB1
        } else if index == 1 {
            Bus::AHB2
        } else if index == 2 {
            Bus::AHB3
        } else if index == 3 {
            Bus::APB1
        } else {
            Bus::APB2
        }
    }

    /// Position of the clock gate in its enable register.
    pub open spec fn spec_bit(self) -> u32 {
        (self.spec_code() % 32) as u32
    }

    #[verifier::when_used_as_spec(spec_bit)]
    pub fn bit(self) -> (bit: u32)
        ensures
            bit == self.spec_bit(),
            bit < 32,
    {
        (self.code() % 32) as u32
    }

    /// The clock gate as a mask of its enable register.
    pub open spec fn spec_mask(self) -> u32 {
        1u32 << self.spec_bit()
    }

    #[verifier::when_used_as_spec(spec_mask)]
    pub fn mask(self) -> (mask: u32)
        ensures
            mask == self.spec_mask(),
    {
        1u32 << self.bit()
    }
}

} // verus!
