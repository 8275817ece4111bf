//! The GPIO block, as far as the board needs it: pins 5 and 6 as outputs
//! and pins 14 and 15 as the UART's lines.

use crate::bitfield::Field;
use vstd::prelude::*;

verus! {

/// Offset of the GPIO registers from the peripheral base.
pub const GPIO_OFFSET: u32 = 0x20_0000;

/// Width mask of a function select field.
pub const FSEL_MASK: u32 = 0b111;

/// Function select value of an output pin.
pub const FSEL_OUTPUT: u32 = 0b001;

/// Function select value of alternate function 0, the UART on pins 14
/// and 15.
pub const FSEL_ALT0: u32 = 0b100;

// Function select register 0.
pub const GPFSEL0_FSEL5: u32 = 15;
pub const GPFSEL0_FSEL6: u32 = 18;

// Function select register 1.
pub const GPFSEL1_FSEL14: u32 = 12;
pub const GPFSEL1_FSEL15: u32 = 15;

/// Bit of pin 5 in the set and clear registers.
pub const PIN5: u32 = 5;

// Pull-up/down clock register 0.
pub const GPPUDCLK0_PUDCLK14: u32 = 14;
pub const GPPUDCLK0_PUDCLK15: u32 = 15;

#[derive(Clone, Copy, Debug)]
#[allow(non_snake_case)]
pub struct RegisterBlock {
    pub GPFSEL0: u32,
    pub GPFSEL1: u32,
    /// A one drives the pin high.
    pub GPSET0: u32,
    /// A one drives the pin low.
    pub GPCLR0: u32,
    pub GPPUD: u32,
    pub GPPUDCLK0: u32,
}

impl RegisterBlock {
    pub open spec fn spec_reset() -> RegisterBlock {
        RegisterBlock { GPFSEL0: 0, GPFSEL1: 0, GPSET0: 0, GPCLR0: 0, GPPUD: 0, GPPUDCLK0: 0 }
    }

    /// A block with every register zero.
    pub fn reset() -> (r: RegisterBlock)
        ensures
            r == Self::spec_reset(),
    {
        RegisterBlock { GPFSEL0: 0, GPFSEL1: 0, GPSET0: 0, GPCLR0: 0, GPPUD: 0, GPPUDCLK0: 0 }
    }

    /// The block after `GPIO::init`: pins 5 and 6 are outputs, and pin 5 is
    /// driven low.
    pub open spec fn spec_init(self) -> RegisterBlock {
        RegisterBlock {
            GPFSEL0: (self.GPFSEL0 & !0x1f_8000u32) | 0x4_8000,
            GPCLR0: 0x20,
            ..self
        }
    }
}

pub struct GPIO {
    pub regs: RegisterBlock,
}

impl GPIO {
    /// The block over registers that were all zero, initialised.
    pub fn new() -> (r: GPIO)
        ensures
            r.regs == RegisterBlock::spec_reset().spec_init(),
    {
        let mut g = GPIO { regs: RegisterBlock::reset() };
        g.init();
        g
    }

    /// Makes pins 5 and 6 outputs and drives pin 5 low.
    pub fn init(&mut self)
        ensures
            final(self).regs == old(self).regs.spec_init(),
    {
        let outputs = Field::new(FSEL_MASK, GPFSEL0_FSEL5).val(FSEL_OUTPUT).add(
            Field::new(FSEL_MASK, GPFSEL0_FSEL6).val(FSEL_OUTPUT),
        );
        proof {
            lemma_gpio_fields(self.regs.GPFSEL0);
        }
        self.regs.GPFSEL0 = outputs.modify(self.regs.GPFSEL0);
        self.regs.GPCLR0 = Field::new(1, PIN5).val(1).value;
    }

    /// Drives pin 5 high or low.
    pub fn pin5(&mut self, set: bool)
        ensures
            set ==> final(self).regs == (RegisterBlock { GPSET0: 0x20, ..old(self).regs }),
            !set ==> final(self).regs == (RegisterBlock { GPCLR0: 0x20, ..old(self).regs }),
    {
        proof {
            lemma_gpio_fields(0);
        }
        if set {
            self.regs.GPSET0 = Field::new(1, PIN5).val(1).value;
        } else {
            self.regs.GPCLR0 = Field::new(1, PIN5).val(1).value;
        }
    }

    /// Hands pins 14 and 15 to the UART and leaves the other pins of the
    /// register.
    pub fn map_gpio_to_uart(&mut self)
        ensures
            final(self).regs == (RegisterBlock {
                GPFSEL1: (old(self).regs.GPFSEL1 & !0x3_f000u32) | 0x2_4000,
                ..old(self).regs
            }),
    {
        let uart = Field::new(FSEL_MASK, GPFSEL1_FSEL14).val(FSEL_ALT0).add(
            Field::new(FSEL_MASK, GPFSEL1_FSEL15).val(FSEL_ALT0),
        );
        proof {
            lemma_gpio_fields(self.regs.GPFSEL1);
        }
        self.regs.GPFSEL1 = uart.modify(self.regs.GPFSEL1);
    }

    /// Clocks the pull-up/down setting into pins 14 and 15.
    pub fn assert_uart_clock(&mut self)
        ensures
            final(self).regs == (RegisterBlock { GPPUDCLK0: 0xc000, ..old(self).regs }),
    {
        let clocks = Field::new(1, GPPUDCLK0_PUDCLK14).val(1).add(
            Field::new(1, GPPUDCLK0_PUDCLK15).val(1),
        );
        proof {
            lemma_gpio_fields(0);
        }
        self.regs.GPPUDCLK0 = clocks.value;
    }

    /// Takes the clock from every pin.
    pub fn negate_all_clock(&mut self)
        ensures
            final(self).regs == (RegisterBlock { GPPUDCLK0: 0, ..old(self).regs }),
    {
        self.regs.GPPUDCLK0 = 0;
    }

    /// Selects neither pull-up nor pull-down.
    pub fn disable_pull_up_down(&mut self)
        ensures
            final(self).regs == (RegisterBlock { GPPUD: 0, ..old(self).regs }),
    {
        proof {
            lemma_gpio_fields(0);
        }
        self.regs.GPPUD = Field::new(0b11, 0).val(0).value;
    }
}

proof fn lemma_gpio_fields(reg: u32)
    by (bit_vector)
    ensures
        (reg & !((0b111u32 << 15u32) | (0b111u32 << 18u32))) | (((0b001u32 & 0b111u32) << 15u32) | ((
        0b001u32 & 0b111u32) << 18u32)) == (reg & !0x1f_8000u32) | 0x4_8000,
        (reg & !((0b111u32 << 12u32) | (0b111u32 << 15u32))) | (((0b100u32 & 0b111u32) << 12u32) | ((
        0b100u32 & 0b111u32) << 15u32)) == (reg & !0x3_f000u32) | 0x2_4000,
        (1u32 & 1u32) << 5u32 == 0x20,
        ((1u32 & 1u32) << 14u32) | ((1u32 & 1u32) << 15u32) == 0xc000,
        (0u32 & 0b11u32) << 0u32 == 0,
{
}

} // verus!
