//! Where the peripherals of the supported boards lie in memory.

use vstd::prelude::*;

verus! {

/// The systems on a chip that the drivers know.
#[derive(Clone, Copy, Debug, PartialEq, Eq, Structural)]
pub enum Soc {
    Bcm2711,
    Bcm2837,
}

pub struct RasPiBsp {}

impl RasPiBsp {
    /// Base of the common peripherals on the BCM2711.
    pub const BCM2711_MMIO_BASE: u32 = 0xfe00_0000;

    /// Base of the ARM-local peripherals on the BCM2711, among them the
    /// interrupt controller.
    pub const BCM2711_MMIO_BASE2: u32 = 0xff80_0000;

    /// Base of the common peripherals on the BCM2837.
    pub const BCM2837_MMIO_BASE: u32 = 0x3f00_0000;

    /// Base of the common peripherals.
    pub fn mmio_base(soc: Soc) -> (r: u32)
        ensures
            r == (match soc {
                Soc::Bcm2711 => Self::BCM2711_MMIO_BASE,
                Soc::Bcm2837 => Self::BCM2837_MMIO_BASE,
            }),
    {
        match soc {
            Soc::Bcm2711 => Self::BCM2711_MMIO_BASE,
            Soc::Bcm2837 => Self::BCM2837_MMIO_BASE,
        }
    }

    /// Base of the ARM-local peripherals, on the one chip that has them.
    pub fn mmio_base2(soc: Soc) -> (r: Option<u32>)
        ensures
            r == (match soc {
                Soc::Bcm2711 => Some(Self::BCM2711_MMIO_BASE2),
                Soc::Bcm2837 => None,
            }),
    {
        match soc {
            Soc::Bcm2711 => Some(Self::BCM2711_MMIO_BASE2),
            Soc::Bcm2837 => None,
        }
    }
}

} // verus!
