//! Bit fields of the reset and clock control registers.

use vstd::prelude::*;

verus! {

/// Internal high-speed oscillator enable
pub const CR_HSION: u32 = 0x0000_0001;

/// Internal high-speed oscillator ready
pub const CR_HSIRDY: u32 = 0x0000_0002;

/// External high-speed oscillator enable
pub const CR_HSEON: u32 = 0x0001_0000;

/// External high-speed oscillator ready
pub const CR_HSERDY: u32 = 0x0002_0000;

/// External high-speed oscillator bypass
pub const CR_HSEBYP: u32 = 0x0004_0000;

/// Clock security system enable
pub const CR_CSSON: u32 = 0x0008_0000;

/// Main PLL enable
pub const CR_PLLON: u32 = 0x0100_0000;

/// Main PLL ready
pub const CR_PLLRDY: u32 = 0x0200_0000;

/// Value of the PLL configuration register after a reset
pub const PLLCFGR_RESET: u32 = 0x2400_3010;

/// Position of the feedback multiplier N
pub const PLLCFGR_N_SHIFT: u32 = 6;

/// Position of the encoded main output divider P
pub const PLLCFGR_P_SHIFT: u32 = 16;

/// PLL fed by the internal oscillator
pub const PLLCFGR_SRC_HSI: u32 = 0x0000_0000;

/// PLL fed by the external oscillator
pub const PLLCFGR_SRC_HSE: u32 = 0x0040_0000;

/// Position of the auxiliary output divider Q
pub const PLLCFGR_Q_SHIFT: u32 = 24;

/// System clock switch
pub const CFGR_SW_MASK: u32 = 0x0000_0003;

pub const CFGR_SW_HSI: u32 = 0x0000_0000;

pub const CFGR_SW_HSE: u32 = 0x0000_0001;

pub const CFGR_SW_PLL: u32 = 0x0000_0002;

/// System clock switch status, set by hardware
pub const CFGR_SWS_MASK: u32 = 0x0000_000C;

pub const CFGR_SWS_HSI: u32 = 0x0000_0000;

pub const CFGR_SWS_HSE: u32 = 0x0000_0004;

pub const CFGR_SWS_PLL: u32 = 0x0000_0008;

/// AHB prescaler
pub const CFGR_HPRE_MASK: u32 = 0x0000_00F0;

pub const CFGR_HPRE_SHIFT: u32 = 4;

/// APB1 (low speed) prescaler
pub const CFGR_PPRE1_MASK: u32 = 0x0000_1C00;

pub const CFGR_PPRE1_SHIFT: u32 = 10;

/// APB2 (high speed) prescaler
pub const CFGR_PPRE2_MASK: u32 = 0x0000_E000;

pub const CFGR_PPRE2_SHIFT: u32 = 13;

/// Division of the system clock that feeds the AHB bus.
#[allow(non_camel_case_types)]
#[derive(Clone, Copy, PartialEq, Eq, Structural, Debug)]
pub enum CFGR_HPrescaler {
    Div1,
    Div2,
    Div4,
    Div8,
    Div16,
    Div64,
    Div128,
    Div256,
    Div512,
}

impl CFGR_HPrescaler {
    /// The field as it stands in the configuration register.
    pub open spec fn spec_bits(self) -> u32 {
        match self {
            CFGR_HPrescaler::Div1 => 0x00,
            CFGR_HPrescaler::Div2 => 0x80,
            CFGR_HPrescaler::Div4 => 0x90,
            CFGR_HPrescaler::Div8 => 0xA0,
            CFGR_HPrescaler::Div16 => 0xB0,
            CFGR_HPrescaler::Div64 => 0xC0,
            CFGR_HPrescaler::Div128 => 0xD0,
            CFGR_HPrescaler::Div256 => 0xE0,
            CFGR_HPrescaler::Div512 => 0xF0,
        }
    }

    /// The number the system clock is divided by.
    pub open spec fn spec_divisor(self) -> u32 {
        match self {
            CFGR_HPrescaler::Div1 => 1,
            CFGR_HPrescaler::Div2 => 2,
            CFGR_HPrescaler::Div4 => 4,
            CFGR_HPrescaler::Div8 => 8,
            CFGR_HPrescaler::Div16 => 16,
            CFGR_HPrescaler::Div64 => 64,
            CFGR_HPrescaler::Div128 => 128,
            CFGR_HPrescaler::Div256 => 256,
            CFGR_HPrescaler::Div512 => 512,
        }
    }

    #[verifier::when_used_as_spec(spec_bits)]
    pub fn bits(self) -> (bits: u32)
        ensures
            bits == self.spec_bits(),
    {
        match self {
            CFGR_HPrescaler::Div1 => 0x00,
            CFGR_HPrescaler::Div2 => 0x80,
            CFGR_HPrescaler::Div4 => 0x90,
            CFGR_HPrescaler::Div8 => 0xA0,
            CFGR_HPrescaler::Div16 => 0xB0,
            CFGR_HPrescaler::Div64 => 0xC0,
            CFGR_HPrescaler::Div128 => 0xD0,
            CFGR_HPrescaler::Div256 => 0xE0,
            CFGR_HPrescaler::Div512 => 0xF0,
        }
    }
}

/// Division of the AHB clock that feeds the APB1 bus.
#[allow(non_camel_case_types)]
#[derive(Clone, Copy, PartialEq, Eq, Structural, Debug)]
pub enum CFGR_PPrescaler1 {
    Div1,
    Div2,
    Div4,
    Div8,
    Div16,
}

impl CFGR_PPrescaler1 {
    /// The field as it stands in the configuration register.
    pub open spec fn spec_bits(self) -> u32 {
        match self {
            CFGR_PPrescaler1::Div1 => 0x0000,
            CFGR_PPrescaler1::Div2 => 0x1000,
            CFGR_PPrescaler1::Div4 => 0x1400,
            CFGR_PPrescaler1::Div8 => 0x1800,
            CFGR_PPrescaler1::Div16 => 0x1C00,
        }
    }

    /// The number the AHB clock is divided by.
    pub open spec fn spec_divisor(self) -> u32 {
        match self {
            CFGR_PPrescaler1::Div1 => 1,
            CFGR_PPrescaler1::Div2 => 2,
            CFGR_PPrescaler1::Div4 => 4,
            CFGR_PPrescaler1::Div8 => 8,
            CFGR_PPrescaler1::Div16 => 16,
        }
    }

    #[verifier::when_used_as_spec(spec_bits)]
    pub fn bits(self) -> (bits: u32)
        ensures
            bits == self.spec_bits(),
    {
        match self {
            CFGR_PPrescaler1::Div1 => 0x0000,
            CFGR_PPrescaler1::Div2 => 0x1000,
            CFGR_PPrescaler1::Div4 => 0x1400,
            CFGR_PPrescaler1::Div8 => 0x1800,
            CFGR_PPrescaler1::Div16 => 0x1C00,
        }
    }
}

/// Division of the AHB clock that feeds the APB2 bus.
#[allow(non_camel_case_types)]
#[derive(Clone, Copy, PartialEq, Eq, Structural, Debug)]
pub enum CFGR_PPrescaler2 {
    Div1,
    Div2,
    Div4,
    Div8,
    Div16,
}

impl CFGR_PPrescaler2 {
    /// The field as it stands in the configuration register.
    pub open spec fn spec_bits(self) -> u32 {
        match self {
            CFGR_PPrescaler2::Div1 => 0x0000,
            CFGR_PPrescaler2::Div2 => 0x8000,
            CFGR_PPrescaler2::Div4 => 0xA000,
            CFGR_PPrescaler2::Div8 => 0xC000,
            CFGR_PPrescaler2::Div16 => 0xE000,
        }
    }

    /// The number the AHB clock is divided by.
    pub open spec fn spec_divisor(self) -> u32 {
        match self {
            CFGR_PPrescaler2::Div1 => 1,
            CFGR_PPrescaler2::Div2 => 2,
            CFGR_PPrescaler2::Div4 => 4,
            CFGR_PPrescaler2::Div8 => 8,
            CFGR_PPrescaler2::Div16 => 16,
        }
    }

    #[verifier::when_used_as_spec(spec_bits)]
    pub fn bits(self) -> (bits: u32)
        ensures
            bits == self.spec_bits(),
    {
        match self {
            CFGR_PPrescaler2::Div1 => 0x0000,
            CFGR_PPrescaler2::Div2 => 0x8000,
            CFGR_PPrescaler2::Div4 => 0xA000,
            CFGR_PPrescaler2::Div8 => 0xC000,
            CFGR_PPrescaler2::Div16 => 0xE000,
        }
    }
}

} // verus!
