//! The ARM-side timer: a count-down with an interrupt and a free-running
//! counter.

use crate::bitfield::{lemma_modify_sets_bit, Field};
use crate::exception::InterruptDevice;
use crate::interrupt_gic::Id;
use crate::optional_cell::OptionalCell;
use vstd::prelude::*;

verus! {

broadcast use OptionalCell::lemma_spec_from;

/// Offset of the timer's registers from the peripheral base.
pub const TIMER_OFFSET: u32 = 0xB400;

// Bits of the control register.
pub const CONTROL_FREE_RUN: u32 = 9;
pub const CONTROL_ENABLED: u32 = 7;
pub const CONTROL_INT_EN: u32 = 5;
pub const CONTROL_BIT_WIDTH: u32 = 1;

/// The line that the timer's interrupt arrives on at the two-register
/// controller, among its basic lines.
pub const BASIC_INT_NO_ARM_TIMER: u32 = 0;

/// The line that the timer's interrupt arrives on at the GIC.
pub const GIC_INT_NO_ARM_TIMER: u32 = Id::ARMC_TIMER;

#[derive(Clone, Copy, Debug)]
#[allow(non_snake_case)]
pub struct RegisterBlock {
    /// The value that the count-down starts from.
    pub LOAD: u32,
    /// The count-down as it stands.
    pub VALUE: u32,
    pub CONTROL: u32,
    /// A write clears the pending interrupt.
    pub IRQ_CLEAR: u32,
    pub RAW_IRQ: u32,
    pub MASKED_IRQ: u32,
    pub RELOAD: u32,
    pub PRE_DIVIDER: u32,
    pub FREE_RUN_COUNTER: u32,
}

impl RegisterBlock {
    pub open spec fn spec_reset() -> RegisterBlock {
        RegisterBlock {
            LOAD: 0,
            VALUE: 0,
            CONTROL: 0,
            IRQ_CLEAR: 0,
            RAW_IRQ: 0,
            MASKED_IRQ: 0,
            RELOAD: 0,
            PRE_DIVIDER: 0,
            FREE_RUN_COUNTER: 0,
        }
    }

    /// A block with every register zero.
    pub fn reset() -> (r: RegisterBlock)
        ensures
            r == Self::spec_reset(),
    {
        RegisterBlock {
            LOAD: 0,
            VALUE: 0,
            CONTROL: 0,
            IRQ_CLEAR: 0,
            RAW_IRQ: 0,
            MASKED_IRQ: 0,
            RELOAD: 0,
            PRE_DIVIDER: 0,
            FREE_RUN_COUNTER: 0,
        }
    }
}

pub struct ArmTimer {
    /// Set by the interrupt callback, taken by `has_fired`.
    pub fired: OptionalCell<bool>,
    pub regs: RegisterBlock,
}

impl ArmTimer {
    /// A timer that has not fired, over registers that are all zero.
    pub fn new() -> (r: ArmTimer)
        ensures
            r.fired@ == Some(false),
            r.regs == RegisterBlock::spec_reset(),
    {
        ArmTimer { fired: OptionalCell::new(false), regs: RegisterBlock::reset() }
    }

    /// Starts the timer.
    pub fn enable(&mut self)
        ensures
            final(self).regs == (RegisterBlock {
                CONTROL: old(self).regs.CONTROL | (1u32 << CONTROL_ENABLED),
                ..old(self).regs
            }),
            final(self).fired == old(self).fired,
    {
        proof {
            lemma_modify_sets_bit(self.regs.CONTROL, CONTROL_ENABLED);
        }
        self.regs.CONTROL = Field::new(1, CONTROL_ENABLED).val(1).modify(self.regs.CONTROL);
    }

    /// Starts the free-running counter and selects the wide counter.
    pub fn start_free_run(&mut self)
        ensures
            final(self).regs == (RegisterBlock {
                CONTROL: old(self).regs.CONTROL | 0x202,
                ..old(self).regs
            }),
            final(self).fired == old(self).fired,
    {
        let fv = Field::new(1, CONTROL_FREE_RUN).val(1).add(Field::new(1, CONTROL_BIT_WIDTH).val(1));
        proof {
            lemma_free_run(self.regs.CONTROL);
        }
        self.regs.CONTROL = fv.modify(self.regs.CONTROL);
    }

    pub fn read_free_run(&self) -> (r: u32)
        ensures
            r == self.regs.FREE_RUN_COUNTER,
    {
        self.regs.FREE_RUN_COUNTER
    }

    /// Loads the count-down with `t` ticks.
    pub fn set_count_down(&mut self, t: u32)
        ensures
            final(self).regs == (RegisterBlock { LOAD: t, ..old(self).regs }),
            final(self).fired == old(self).fired,
    {
        self.regs.LOAD = t;
    }

    pub fn read_count_down(&self) -> (r: u32)
        ensures
            r == self.regs.VALUE,
    {
        self.regs.VALUE
    }

    /// Lets the count-down raise an interrupt when it reaches zero.
    pub fn enable_int(&mut self)
        ensures
            final(self).regs == (RegisterBlock {
                CONTROL: old(self).regs.CONTROL | (1u32 << CONTROL_INT_EN),
                ..old(self).regs
            }),
            final(self).fired == old(self).fired,
    {
        proof {
            lemma_modify_sets_bit(self.regs.CONTROL, CONTROL_INT_EN);
        }
        self.regs.CONTROL = Field::new(1, CONTROL_INT_EN).val(1).modify(self.regs.CONTROL);
    }

    /// Clears the pending interrupt: the clear register is written with
    /// one.
    pub fn clear_irq(&mut self)
        ensures
            final(self).regs == (RegisterBlock { IRQ_CLEAR: 1, ..old(self).regs }),
            final(self).fired == old(self).fired,
    {
        self.regs.IRQ_CLEAR = 1;
    }

    /// Whether the timer has fired since this was last asked. The answer
    /// is taken out of the flag: the next one is false until the timer fires
    /// again.
    pub fn has_fired(&mut self) -> (r: bool)
        ensures
            r == (old(self).fired@ == Some(true)),
            final(self).fired@.is_none(),
            final(self).fired == old(self).fired.spec_take().1,
            final(self).regs == old(self).regs,
    {
        match self.fired.take() {
            Some(f) => f,
            None => false,
        }
    }

    /// Whether `id` is the number that the timer's line has at one of the
    /// two controllers.
    pub open spec fn spec_is_own_line(id: u32) -> bool {
        id == BASIC_INT_NO_ARM_TIMER || id == GIC_INT_NO_ARM_TIMER
    }

    /// Serves the timer's line, under the number that it has at the
    /// controller in use: the pending interrupt is cleared and the flag set.
    /// Any other line is none of this timer's and changes nothing.
    pub fn on_interruption(&mut self, id: u32)
        ensures
            Self::spec_is_own_line(id) ==> final(self).regs == (RegisterBlock {
                IRQ_CLEAR: 1,
                ..old(self).regs
            }) && final(self).fired@ == Some(true),
            !Self::spec_is_own_line(id) ==> *final(self) == *old(self),
            *final(self) == old(self).after_fire(id),
    {
        if id == BASIC_INT_NO_ARM_TIMER || id == GIC_INT_NO_ARM_TIMER {
            self.clear_irq();
            self.fired.insert(Some(true));
        }
    }
}

impl ArmTimer {
    /// A timer that has served its line has fired exactly once: whichever
    /// controller named the line, the clear register has been written, and
    /// the flag that the callback leaves hands out true to the next take and
    /// nothing to the take after that.
    pub proof fn lemma_fired_once(self, id: u32)
        requires
            Self::spec_is_own_line(id),
        ensures
            self.after_fire(id).regs.IRQ_CLEAR == 1,
            self.after_fire(id).fired.spec_take().0 == Some(true),
            self.after_fire(id).fired.spec_take().1.spec_take().0.is_none(),
    {
    }
}

impl InterruptDevice for ArmTimer {
    open spec fn after_fire(self, id: u32) -> Self {
        if Self::spec_is_own_line(id) {
            ArmTimer {
                fired: OptionalCell::spec_from(Some(true)),
                regs: RegisterBlock { IRQ_CLEAR: 1, ..self.regs },
            }
        } else {
            self
        }
    }

    fn on_fire(&mut self, id: u32) {
        self.on_interruption(id)
    }
}

proof fn lemma_free_run(control: u32)
    by (bit_vector)
    ensures
        (control & !((1u32 << 9u32) | (1u32 << 1u32))) | (((1u32 & 1u32) << 9u32) | ((1u32 & 1u32)
            << 1u32)) == control | 0x202,
{
}

} // verus!
