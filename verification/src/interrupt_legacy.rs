//! The two-register interrupt controller: 64 lines from the GPU side in two
//! pending words, and eight basic lines next to two summary bits.

use crate::bitfield::{lemma_join_words, lemma_or_twice, Field};
use crate::int_device::Device;
use crate::interrupt::Interrupt;
use vstd::prelude::*;

verus! {

/// Offset of the controller's registers from the peripheral base.
pub const INTC_OFFSET: u32 = 0xB200;

/// Summary bit of the basic pending register: a line of the first pending
/// word is asserted.
pub const BASIC_PENDING_PENDING_0: u32 = 8;

/// Summary bit of the basic pending register: a line of the second pending
/// word is asserted.
pub const BASIC_PENDING_PENDING_1: u32 = 9;

/// Lines of the GPU side.
pub struct InterruptLegacyId {}

impl InterruptLegacyId {
    pub const DMA: u32 = 16;

    pub const TIMER1: u32 = 1;
}

/// Lines of the basic register.
pub struct BasicInterruptLegacyId {}

impl BasicInterruptLegacyId {
    pub const ARM_TIMER: u32 = 0;
}

#[derive(Clone, Copy, Debug)]
#[allow(non_snake_case)]
pub struct RegisterBlock {
    pub BASIC_PENDING: u32,
    /// Lines 0 to 63 of the GPU side.
    pub IRQ_PENDING: [u32; 2],
    pub FIQ_CONTROL: u32,
    /// A one written enables the line, a zero changes nothing: the block
    /// shows the word with the ones of every write so far.
    pub ENABLE_IRQ: [u32; 2],
    /// As `ENABLE_IRQ`, for the basic lines.
    pub ENABLE_BASIC_IRQ: u32,
    /// A one written disables the line, a zero changes nothing: the block
    /// shows the word with the ones of every write so far.
    pub DISABLE_IRQ: [u32; 2],
    /// As `DISABLE_IRQ`, for the basic lines.
    pub DISABLE_BASIC_IRQ: u32,
}

impl RegisterBlock {
    /// Every register of the block is zero.
    pub open spec fn is_reset(self) -> bool {
        &&& self.BASIC_PENDING == 0
        &&& self.IRQ_PENDING@ == seq![0u32, 0u32]
        &&& self.FIQ_CONTROL == 0
        &&& self.ENABLE_IRQ@ == seq![0u32, 0u32]
        &&& self.ENABLE_BASIC_IRQ == 0
        &&& self.DISABLE_IRQ@ == seq![0u32, 0u32]
        &&& self.DISABLE_BASIC_IRQ == 0
    }

    /// A block with every register zero.
    pub fn reset() -> (r: RegisterBlock)
        ensures
            r.is_reset(),
    {
        let r = RegisterBlock {
            BASIC_PENDING: 0,
            IRQ_PENDING: [0, 0],
            FIQ_CONTROL: 0,
            ENABLE_IRQ: [0, 0],
            ENABLE_BASIC_IRQ: 0,
            DISABLE_IRQ: [0, 0],
            DISABLE_BASIC_IRQ: 0,
        };
        assert(r.IRQ_PENDING@ =~= seq![0u32, 0u32]);
        assert(r.ENABLE_IRQ@ =~= seq![0u32, 0u32]);
        assert(r.DISABLE_IRQ@ =~= seq![0u32, 0u32]);
        r
    }
}

pub struct InterruptLegacy {
    pub regs: RegisterBlock,
}

impl InterruptLegacy {
    /// The source on a line of the GPU side; `Invalid` where no source of
    /// this board is wired to it.
    pub open spec fn spec_gpu_to_device(id: u32) -> Device {
        if id == InterruptLegacyId::TIMER1 {
            Device::Timer1
        } else if id == InterruptLegacyId::DMA {
            Device::Dma
        } else {
            Device::Invalid
        }
    }

    /// The source on a line of the basic register; `Invalid` where no
    /// source of this board is wired to it.
    pub open spec fn spec_basic_to_device(id: u32) -> Device {
        if id == BasicInterruptLegacyId::ARM_TIMER {
            Device::ArmTimer
        } else {
            Device::Invalid
        }
    }

    /// Whether a source has a line on this controller.
    pub open spec fn spec_has_line(dev: Device) -> bool {
        dev == Device::Timer1 || dev == Device::Dma || dev == Device::ArmTimer
    }

    /// Whether the line of a source is one of the basic register rather
    /// than of the GPU side.
    pub open spec fn spec_is_basic(dev: Device) -> bool {
        dev == Device::ArmTimer
    }

    /// The number of a source's line within its register; 0 for a source
    /// without a line.
    pub open spec fn spec_to_id(dev: Device) -> u32 {
        match dev {
            Device::Timer1 => InterruptLegacyId::TIMER1,
            Device::Dma => InterruptLegacyId::DMA,
            Device::ArmTimer => BasicInterruptLegacyId::ARM_TIMER,
            _ => 0,
        }
    }

    /// Two words of one bit a line, with the bit of line `id` set: lines 0
    /// to 31 lie in the first word, lines 32 to 63 in the second.
    pub open spec fn spec_with_line(words: Seq<u32>, id: u32) -> Seq<u32> {
        if id < 32 {
            words.update(0, words[0] | (1u32 << id))
        } else {
            words.update(1, words[1] | (1u32 << ((id - 32) as u32)))
        }
    }

    /// Whether one of the two summary bits is set.
    pub open spec fn spec_any_irq_pending(basic_pending: u32) -> bool {
        ||| basic_pending & (1u32 << BASIC_PENDING_PENDING_0) != 0
        ||| basic_pending & (1u32 << BASIC_PENDING_PENDING_1) != 0
    }

    /// The source to serve first. While a summary bit is set only the GPU
    /// side is looked at: the timer before the DMA controller. Else the
    /// basic lines are looked at.
    pub open spec fn spec_first_pending(&self) -> Option<Device> {
        if Self::spec_any_irq_pending(self.regs.BASIC_PENDING) {
            if self.regs.IRQ_PENDING[0] & (1u32 << InterruptLegacyId::TIMER1) != 0 {
                Some(Device::Timer1)
            } else if self.regs.IRQ_PENDING[0] & (1u32 << InterruptLegacyId::DMA) != 0 {
                Some(Device::Dma)
            } else {
                None
            }
        } else if self.regs.BASIC_PENDING & (1u32 << BasicInterruptLegacyId::ARM_TIMER) != 0 {
            Some(Device::ArmTimer)
        } else {
            None
        }
    }

    /// A source that has a line maps to it, and the line maps back to the
    /// source through the register that the line belongs to. `Invalid` and
    /// the sources without a line have no line to map back from.
    pub proof fn lemma_id_round_trip(dev: Device)
        ensures
            Self::spec_has_line(dev) && Self::spec_is_basic(dev) ==> Self::spec_basic_to_device(
                Self::spec_to_id(dev),
            ) == dev,
            Self::spec_has_line(dev) && !Self::spec_is_basic(dev) ==> Self::spec_gpu_to_device(
                Self::spec_to_id(dev),
            ) == dev,
    {
    }

    pub fn new() -> (r: InterruptLegacy)
        ensures
            r.regs.is_reset(),
    {
        InterruptLegacy { regs: RegisterBlock::reset() }
    }

    pub fn gpu_to_device(id: u32) -> (r: Device)
        ensures
            r == Self::spec_gpu_to_device(id),
    {
        if id == InterruptLegacyId::TIMER1 {
            Device::Timer1
        } else if id == InterruptLegacyId::DMA {
            Device::Dma
        } else {
            Device::Invalid
        }
    }

    pub fn basic_to_device(id: u32) -> (r: Device)
        ensures
            r == Self::spec_basic_to_device(id),
    {
        if id == BasicInterruptLegacyId::ARM_TIMER {
            Device::ArmTimer
        } else {
            Device::Invalid
        }
    }

    /// The 64 lines of the GPU side in one word, line 0 lowest.
    pub fn get_raw_pending(&self) -> (r: u64)
        ensures
            r == self.regs.IRQ_PENDING[1] * 0x1_0000_0000 + self.regs.IRQ_PENDING[0],
    {
        let l = self.regs.IRQ_PENDING[0];
        let h = self.regs.IRQ_PENDING[1];
        proof {
            lemma_join_words(l, h);
        }
        ((h as u64) << (32 as u64)) + l as u64
    }

    /// Enables a line of the GPU side and leaves the other lines as they
    /// are. A number above 63 names no line and changes nothing.
    pub fn enable_irq(&mut self, id: u32)
        ensures
            id < 64 ==> final(self).regs == (RegisterBlock {
                ENABLE_IRQ: final(self).regs.ENABLE_IRQ,
                ..old(self).regs
            }) && final(self).regs.ENABLE_IRQ@ == Self::spec_with_line(old(self).regs.ENABLE_IRQ@, id),
            id >= 64 ==> final(self).regs == old(self).regs,
    {
        if id < 32 {
            self.regs.ENABLE_IRQ[0] = self.regs.ENABLE_IRQ[0] | 1 << id;
        } else if id < 64 {
            self.regs.ENABLE_IRQ[1] = self.regs.ENABLE_IRQ[1] | 1 << (id - 32);
        } else {
            return ;
        }
    }

    /// Disables a line of the GPU side and leaves the other lines as they
    /// are. A number above 63 names no line and changes nothing.
    pub fn disable_irq(&mut self, id: u32)
        ensures
            id < 64 ==> final(self).regs == (RegisterBlock {
                DISABLE_IRQ: final(self).regs.DISABLE_IRQ,
                ..old(self).regs
            }) && final(self).regs.DISABLE_IRQ@ == Self::spec_with_line(
                old(self).regs.DISABLE_IRQ@,
                id,
            ),
            id >= 64 ==> final(self).regs == old(self).regs,
    {
        if id < 32 {
            self.regs.DISABLE_IRQ[0] = self.regs.DISABLE_IRQ[0] | 1 << id;
        } else if id < 64 {
            self.regs.DISABLE_IRQ[1] = self.regs.DISABLE_IRQ[1] | 1 << (id - 32);
        } else {
            return ;
        }
    }

    /// Whether the bit of a GPU-side line is set in the pending words,
    /// which is where this controller shows an enabled line at work. False
    /// for a number above 63.
    pub fn is_irq_enabled(&self, id: u32) -> (r: bool)
        ensures
            id < 32 ==> r == (self.regs.IRQ_PENDING[0] & (1u32 << id) != 0),
            32 <= id < 64 ==> r == (self.regs.IRQ_PENDING[1] & (1u32 << ((id - 32) as u32)) != 0),
            id >= 64 ==> !r,
    {
        if id < 32 {
            (self.regs.IRQ_PENDING[0] & (1 << id)) != 0
        } else if id < 64 {
            (self.regs.IRQ_PENDING[1] & (1 << (id - 32))) != 0
        } else {
            return false;
        }
    }

    /// Enables a basic line and leaves the other lines as they are. A
    /// number above 7 names no line and changes nothing.
    pub fn enable_basic_irq(&mut self, id: u32)
        ensures
            id < 8 ==> final(self).regs == (RegisterBlock {
                ENABLE_BASIC_IRQ: old(self).regs.ENABLE_BASIC_IRQ | (1u32 << id),
                ..old(self).regs
            }),
            id >= 8 ==> final(self).regs == old(self).regs,
    {
        if id < 8 {
            self.regs.ENABLE_BASIC_IRQ = self.regs.ENABLE_BASIC_IRQ | 1 << id;
        }
    }

    /// Disables a basic line and leaves the other lines as they are. A
    /// number above 7 names no line and changes nothing.
    pub fn disable_basic_irq(&mut self, id: u32)
        ensures
            id < 8 ==> final(self).regs == (RegisterBlock {
                DISABLE_BASIC_IRQ: old(self).regs.DISABLE_BASIC_IRQ | (1u32 << id),
                ..old(self).regs
            }),
            id >= 8 ==> final(self).regs == old(self).regs,
    {
        if id < 8 {
            self.regs.DISABLE_BASIC_IRQ = self.regs.DISABLE_BASIC_IRQ | 1 << id;
        }
    }

    /// Whether a basic line is asserted. False for a number above 7.
    pub fn is_basic_irq_pending(&self, id: u32) -> (r: bool)
        ensures
            r == (id < 8 && self.regs.BASIC_PENDING & (1u32 << id) != 0),
    {
        if id < 8 {
            return (self.regs.BASIC_PENDING & (1 << id)) != 0;
        }
        false
    }

    /// Whether a line of the GPU side is asserted, as the two summary bits
    /// tell.
    pub fn is_any_irq_pending(&self) -> (r: bool)
        ensures
            r == Self::spec_any_irq_pending(self.regs.BASIC_PENDING),
    {
        Field::new(1, BASIC_PENDING_PENDING_0).is_set(self.regs.BASIC_PENDING) || Field::new(
            1,
            BASIC_PENDING_PENDING_1,
        ).is_set(self.regs.BASIC_PENDING)
    }

    pub fn get_raw_basic_pending(&self) -> (r: u32)
        ensures
            r == self.regs.BASIC_PENDING,
    {
        self.regs.BASIC_PENDING
    }
}

impl Interrupt for InterruptLegacy {
    open spec fn spec_enable_int(&self, dev: Device, after: &Self, ok: bool) -> bool {
        &&& ok == Self::spec_has_line(dev)
        &&& match dev {
            Device::Timer1 | Device::Dma => {
                &&& after.regs == (RegisterBlock {
                    ENABLE_IRQ: after.regs.ENABLE_IRQ,
                    ..self.regs
                })
                &&& after.regs.ENABLE_IRQ@ == Self::spec_with_line(
                    self.regs.ENABLE_IRQ@,
                    Self::spec_to_id(dev),
                )
            },
            Device::ArmTimer => after.regs == (RegisterBlock {
                ENABLE_BASIC_IRQ: self.regs.ENABLE_BASIC_IRQ | (1u32
                    << BasicInterruptLegacyId::ARM_TIMER),
                ..self.regs
            }),
            _ => after.regs == self.regs,
        }
    }

    open spec fn spec_set_target_cpu(&self, dev: Device, cpu: u32, after: &Self) -> bool {
        after.regs == self.regs
    }

    open spec fn spec_enable_distribution(&self, after: &Self) -> bool {
        after.regs == self.regs
    }

    open spec fn spec_first_pending_id(&self) -> Option<u32> {
        None
    }

    open spec fn spec_first_pending_device(&self) -> Option<Device> {
        self.spec_first_pending()
    }

    open spec fn spec_end_interrupt_handling(&self, dev: Device, after: &Self) -> bool {
        after.regs == self.regs
    }

    open spec fn spec_device_to_id(&self, dev: Device) -> u32 {
        Self::spec_to_id(dev)
    }

    open spec fn spec_can_target(&self, cpu: u32) -> bool {
        true
    }

    proof fn lemma_can_target_first_core(&self) {
    }

    /// Enables the line of the system timer's channel 1, of the DMA
    /// controller or of the ARM timer. No other source has a line here.
    fn enable_int(&mut self, dev: Device) -> (ok: bool) {
        match dev {
            Device::Timer1 => self.enable_irq(InterruptLegacyId::TIMER1),
            Device::Dma => self.enable_irq(InterruptLegacyId::DMA),
            Device::ArmTimer => { self.enable_basic_irq(BasicInterruptLegacyId::ARM_TIMER) },
            _ => {
                return false;
            },
        };
        true
    }

    /// This controller routes every line to the one core: nothing to do.
    fn set_target_cpu(&mut self, _dev: Device, _cpu: u32) {
    }

    /// This controller has no switch for the whole: nothing to do.
    fn enable_distribution(&mut self) {
    }

    /// This controller acknowledges nothing by number.
    fn get_first_pending_id(&self) -> (r: Option<u32>) {
        None
    }

    fn get_first_pending_device(&self) -> (r: Option<Device>) {
        let basic_pend = self.get_raw_basic_pending();
        if self.is_any_irq_pending() {
            let pend = self.get_raw_pending();
            let mut id: u32 = 0;
            while id < 63
                invariant
                    id <= 63,
                    Self::spec_any_irq_pending(self.regs.BASIC_PENDING),
                    pend == self.regs.IRQ_PENDING[1] * 0x1_0000_0000 + self.regs.IRQ_PENDING[0],
                    id > InterruptLegacyId::TIMER1 ==> self.regs.IRQ_PENDING[0] & (1u32
                        << InterruptLegacyId::TIMER1) == 0,
                    id > InterruptLegacyId::DMA ==> self.regs.IRQ_PENDING[0] & (1u32
                        << InterruptLegacyId::DMA) == 0,
                decreases 63 - id,
            {
                proof {
                    if id < 32 {
                        lemma_line_of_joined_words(
                            self.regs.IRQ_PENDING[0],
                            self.regs.IRQ_PENDING[1],
                            pend,
                            id,
                        );
                    }
                }
                if (pend & (1 << id)) != 0 {
                    let dev = Self::gpu_to_device(id);
                    if dev != Device::Invalid {
                        return Some(dev);
                    }
                }
                id += 1;
            }
        } else if basic_pend != 0 {
            let mut id: u32 = 0;
            while id < 7
                invariant
                    id <= 7,
                    !Self::spec_any_irq_pending(self.regs.BASIC_PENDING),
                    basic_pend == self.regs.BASIC_PENDING,
                    id > BasicInterruptLegacyId::ARM_TIMER ==> self.regs.BASIC_PENDING & (1u32
                        << BasicInterruptLegacyId::ARM_TIMER) == 0,
                decreases 7 - id,
            {
                if (basic_pend & (1 << id)) != 0 {
                    if self.is_basic_irq_pending(id) {
                        let dev = Self::basic_to_device(id);
                        if dev != Device::Invalid {
                            return Some(dev);
                        }
                    }
                }
                id += 1;
            }
        } else {
            proof {
                lemma_no_bit_of_zero(BasicInterruptLegacyId::ARM_TIMER);
            }
        }
        None
    }

    /// The peripheral's own clear re-arms the line: nothing to do here.
    fn end_interrupt_handling(&mut self, _dev: Device) {
    }

    /// The number of the source's line within its register: the timer and
    /// the DMA controller on the GPU side, the ARM timer among the basic
    /// lines. 0 for a source without a line.
    fn device_to_id(&self, dev: Device) -> (r: u32) {
        match dev {
            Device::Timer1 => InterruptLegacyId::TIMER1,
            Device::Dma => InterruptLegacyId::DMA,
            Device::ArmTimer => BasicInterruptLegacyId::ARM_TIMER,
            _ => 0,
        }
    }
}

impl InterruptLegacy {
    /// The GPU side goes first: while a summary bit is set, the source to
    /// serve is never one of the basic lines, whatever these show, and it is
    /// the timer as soon as the timer's line is asserted.
    pub proof fn lemma_gpu_side_first(self)
        requires
            Self::spec_any_irq_pending(self.regs.BASIC_PENDING),
        ensures
            self.spec_first_pending() != Some(Device::ArmTimer),
            self.regs.IRQ_PENDING[0] & (1u32 << InterruptLegacyId::TIMER1) != 0
                ==> self.spec_first_pending() == Some(Device::Timer1),
    {
    }

    /// Enabling a line twice is enabling it once: the second time gives
    /// the same answer and leaves the controller as the first time left it.
    pub proof fn lemma_enable_int_idempotent(
        self,
        dev: Device,
        once: InterruptLegacy,
        first: bool,
        twice: InterruptLegacy,
        second: bool,
    )
        requires
            self.spec_enable_int(dev, &once, first),
            once.spec_enable_int(dev, &twice, second),
        ensures
            second == first,
            twice == once,
    {
        if dev == Device::Timer1 || dev == Device::Dma {
            lemma_or_twice(self.regs.ENABLE_IRQ[0], 1u32 << Self::spec_to_id(dev));
            assert(twice.regs.ENABLE_IRQ@ =~= once.regs.ENABLE_IRQ@);
            assert(twice.regs.ENABLE_IRQ =~= once.regs.ENABLE_IRQ);
        } else if dev == Device::ArmTimer {
            lemma_or_twice(
                self.regs.ENABLE_BASIC_IRQ,
                1u32 << BasicInterruptLegacyId::ARM_TIMER,
            );
        }
    }
}

proof fn lemma_line_of_joined_words(l: u32, h: u32, pend: u64, id: u32)
    by (bit_vector)
    requires
        pend == h * 0x1_0000_0000 + l,
        id < 32,
    ensures
        (pend & (1u64 << id) != 0) == (l & (1u32 << id) != 0),
{
}

proof fn lemma_no_bit_of_zero(id: u32)
    by (bit_vector)
    ensures
        0u32 & (1u32 << id) == 0,
{
}

} // verus!
