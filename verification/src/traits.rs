//! Traits used across the library, chiefly the clock-frequency query
//! capability that peripheral drivers consume at construction time.

use vstd::prelude::*;

verus! {

/// Is a set of clock speeds valid?
#[derive(Clone, Copy)]
pub enum ClocksValid {
    Valid,
    NotValid,
}

/// Frequency-query capability: reports the speeds of the clock tree.
/// It is used for configuring peripherals; each exec method returns
/// exactly the speed its spec counterpart names.
pub trait ClockCfg {
    /// System clock speed, in Hz.
    spec fn sysclk_spec(&self) -> u32;

    /// HCLK speed, in Hz: AHB bus, core, memory, and DMA.
    spec fn hclk_spec(&self) -> u32;

    /// Cortex system timer speed, in Hz.
    spec fn systick_spec(&self) -> u32;

    /// USB speed, in Hz.
    spec fn usb_spec(&self) -> u32;

    /// APB1 peripheral clock speed, in Hz.
    spec fn apb1_spec(&self) -> u32;

    /// APB1 timer clock speed, in Hz.
    spec fn apb1_timer_spec(&self) -> u32;

    /// APB2 peripheral clock speed, in Hz.
    spec fn apb2_spec(&self) -> u32;

    /// APB2 timer clock speed, in Hz.
    spec fn apb2_timer_spec(&self) -> u32;

    /// Whether the configured speeds are acceptable for the chip.
    spec fn validate_speeds_spec(&self) -> ClocksValid;

    /// System clock speed, in Hz.
    fn sysclk(&self) -> (r: u32)
        ensures
            r == self.sysclk_spec(),
    ;

    /// HCLK speed, in Hz: AHB bus, core, memory, and DMA.
    fn hclk(&self) -> (r: u32)
        ensures
            r == self.hclk_spec(),
    ;

    /// Cortex system timer speed, in Hz.
    fn systick(&self) -> (r: u32)
        ensures
            r == self.systick_spec(),
    ;

    /// USB speed, in Hz.
    fn usb(&self) -> (r: u32)
        ensures
            r == self.usb_spec(),
    ;

    /// APB1 peripheral clock speed, in Hz.
    fn apb1(&self) -> (r: u32)
        ensures
            r == self.apb1_spec(),
    ;

    /// APB1 timer clock speed, in Hz.
    fn apb1_timer(&self) -> (r: u32)
        ensures
            r == self.apb1_timer_spec(),
    ;

    /// APB2 peripheral clock speed, in Hz.
    fn apb2(&self) -> (r: u32)
        ensures
            r == self.apb2_spec(),
    ;

    /// APB2 timer clock speed, in Hz.
    fn apb2_timer(&self) -> (r: u32)
        ensures
            r == self.apb2_timer_spec(),
    ;

    /// Validate that the clock speeds are all within the acceptable
    /// range for the chip.
    fn validate_speeds(&self) -> (r: ClocksValid)
        ensures
            r == self.validate_speeds_spec(),
    ;
}

/// A clock tree whose speeds are fixed at construction: the simplest
/// frequency source, used where the speeds are known up front.
pub struct FixedClocks {
    pub sysclk: u32,
    pub hclk: u32,
    pub systick: u32,
    pub usb: u32,
    pub apb1: u32,
    pub apb1_timer: u32,
    pub apb2: u32,
    pub apb2_timer: u32,
}

impl ClockCfg for FixedClocks {
    open spec fn sysclk_spec(&self) -> u32 {
        self.sysclk
    }

    open spec fn hclk_spec(&self) -> u32 {
        self.hclk
    }

    open spec fn systick_spec(&self) -> u32 {
        self.systick
    }

    open spec fn usb_spec(&self) -> u32 {
        self.usb
    }

    open spec fn apb1_spec(&self) -> u32 {
        self.apb1
    }

    open spec fn apb1_timer_spec(&self) -> u32 {
        self.apb1_timer
    }

    open spec fn apb2_spec(&self) -> u32 {
        self.apb2
    }

    open spec fn apb2_timer_spec(&self) -> u32 {
        self.apb2_timer
    }

    open spec fn validate_speeds_spec(&self) -> ClocksValid {
        ClocksValid::Valid
    }

    fn sysclk(&self) -> u32 {
        self.sysclk
    }

    fn hclk(&self) -> u32 {
        self.hclk
    }

    fn systick(&self) -> u32 {
        self.systick
    }

    fn usb(&self) -> u32 {
        self.usb
    }

    fn apb1(&self) -> u32 {
        self.apb1
    }

    fn apb1_timer(&self) -> u32 {
        self.apb1_timer
    }

    fn apb2(&self) -> u32 {
        self.apb2
    }

    fn apb2_timer(&self) -> u32 {
        self.apb2_timer
    }

    fn validate_speeds(&self) -> ClocksValid {
        ClocksValid::Valid
    }
}

} // verus!
