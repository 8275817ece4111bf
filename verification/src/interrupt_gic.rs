//! The distributor and CPU interface of a GICv2 interrupt controller.

use crate::bitfield::{lemma_or_twice, Field};
use crate::int_device::Device;
use crate::interrupt::Interrupt;
use vstd::arithmetic::power::pow;
use vstd::arithmetic::power2::{lemma2_to64, lemma_pow2, lemma_pow2_strictly_increases, pow2};
use vstd::prelude::*;

verus! {

/// Offset of the controller's registers from the second peripheral base.
pub const GIC_OFFSET: u32 = 0x4_1000;

/// First id of the interrupts private to a core.
pub const PPI_BASE: u32 = 16;

/// First id of the interrupts shared between cores.
pub const SPI_BASE: u32 = 32;

/// First id of the interrupts of the ARM-side peripherals.
pub const ARMC_PERI_IRQS_BASE: u32 = 64;

/// First id of the interrupts of the VideoCore peripherals.
pub const VIDEOCORE_IRQS_BASE: u32 = 96;

/// Width mask of the interrupt line number field of the type register.
pub const GICD_TYPER_ITLN_MASK: u32 = 0x1f;

/// Width mask of the interrupt id field of the acknowledge register.
pub const GICC_IAR_INT_ID_MASK: u32 = 0x3ff;

/// The largest id that an acknowledge is taken to name a line by.
pub const MAX_PENDING_ID: u32 = 256;

/// Line numbers of the controller.
pub struct Id {}

impl Id {
    pub const TIMER0: u32 = PPI_BASE + 13;

    pub const TIMER1: u32 = PPI_BASE + 14;

    pub const TIMER2: u32 = PPI_BASE + 11;

    pub const TIMER3: u32 = PPI_BASE + 10;

    pub const LOCAL_TIMER: u32 = 53;

    pub const ARMC_TIMER: u32 = ARMC_PERI_IRQS_BASE;

    pub const VC_TIMER0: u32 = VIDEOCORE_IRQS_BASE + 0;

    pub const VC_TIMER1: u32 = VIDEOCORE_IRQS_BASE + 1;

    pub const VC_TIMER2: u32 = VIDEOCORE_IRQS_BASE + 2;

    pub const VC_TIMER3: u32 = VIDEOCORE_IRQS_BASE + 3;

    pub const DMA0: u32 = SPI_BASE + 80;
}

/// The distributor's registers.
#[derive(Clone, Copy, Debug)]
#[allow(non_snake_case)]
pub struct GICD {
    pub CTLR: u32,
    pub TYPER: u32,
    /// Set-enable, one bit a line.
    pub ISENABLER: [u32; 8],
    /// Clear-enable, one bit a line.
    pub ICENABLER: [u32; 8],
    pub IPRIORITYR: [u32; 8],
    /// Target cores, one byte a line.
    pub ITARGETSR: [u32; 32],
}

/// The registers of the CPU interface.
#[derive(Clone, Copy, Debug)]
#[allow(non_snake_case)]
pub struct GICC {
    pub CTLR: u32,
    /// Acknowledge.
    pub IAR: u32,
    /// End of interrupt.
    pub EOIR: u32,
}

#[derive(Clone, Copy, Debug)]
#[allow(non_snake_case)]
pub struct RegisterBlock {
    pub GICD: GICD,
    pub GICC: GICC,
}

impl RegisterBlock {
    /// Every register of the block is zero.
    pub open spec fn is_reset(self) -> bool {
        &&& self.GICD.CTLR == 0
        &&& self.GICD.TYPER == 0
        &&& forall|i: int| 0 <= i < 8 ==> self.GICD.ISENABLER[i] == 0
        &&& forall|i: int| 0 <= i < 8 ==> self.GICD.ICENABLER[i] == 0
        &&& forall|i: int| 0 <= i < 8 ==> self.GICD.IPRIORITYR[i] == 0
        &&& forall|i: int| 0 <= i < 32 ==> self.GICD.ITARGETSR[i] == 0
        &&& self.GICC == (GICC { CTLR: 0, IAR: 0, EOIR: 0 })
    }

    /// A block with every register zero.
    pub fn reset() -> (r: RegisterBlock)
        ensures
            r.is_reset(),
    {
        RegisterBlock {
            GICD: GICD {
                CTLR: 0,
                TYPER: 0,
                ISENABLER: [0, 0, 0, 0, 0, 0, 0, 0],
                ICENABLER: [0, 0, 0, 0, 0, 0, 0, 0],
                IPRIORITYR: [0, 0, 0, 0, 0, 0, 0, 0],
                ITARGETSR: [
                    0,
                    0,
                    0,
                    0,
                    0,
                    0,
                    0,
                    0,
                    0,
                    0,
                    0,
                    0,
                    0,
                    0,
                    0,
                    0,
                    0,
                    0,
                    0,
                    0,
                    0,
                    0,
                    0,
                    0,
                    0,
                    0,
                    0,
                    0,
                    0,
                    0,
                    0,
                    0,
                ],
            },
            GICC: GICC { CTLR: 0, IAR: 0, EOIR: 0 },
        }
    }
}

/// `u32::pow` raises the base to the power `exp`. It overflows where the
/// power does not fit 32 bits, which the precondition leaves out.
pub assume_specification[ u32::pow ](base: u32, exp: u32) -> (r: u32)
    requires
        pow(base as int, exp as nat) <= u32::MAX,
    ensures
        r == pow(base as int, exp as nat),
;

pub struct Gic {
    /// The line number field of the type register, as read by `init`.
    pub supported_lines: u32,
    pub regs: RegisterBlock,
}

impl Gic {
    /// The line of a source; 0 for a source without a line.
    pub open spec fn spec_to_id(dev: Device) -> u32 {
        match dev {
            Device::Timer1 => Id::VC_TIMER1,
            Device::Timer3 => Id::VC_TIMER3,
            Device::ArmTimer => Id::ARMC_TIMER,
            Device::Dma => Id::DMA0,
            _ => 0,
        }
    }

    /// The source on a line; `Invalid` where no source of this board is
    /// wired to it.
    pub open spec fn spec_to_device(id: u32) -> Device {
        if id == Id::VC_TIMER1 {
            Device::Timer1
        } else if id == Id::VC_TIMER3 {
            Device::Timer3
        } else if id == Id::ARMC_TIMER {
            Device::ArmTimer
        } else if id == Id::DMA0 {
            Device::Dma
        } else {
            Device::Invalid
        }
    }

    /// Whether a source has a line on this controller.
    pub open spec fn spec_has_line(dev: Device) -> bool {
        dev == Device::Timer1 || dev == Device::Timer3 || dev == Device::ArmTimer || dev
            == Device::Dma
    }

    /// The line that an acknowledge value names: its low ten bits, unless
    /// they exceed 256, as the value for "nothing pending" does.
    pub open spec fn spec_pending_id(iar: u32) -> Option<u32> {
        if iar & GICC_IAR_INT_ID_MASK > MAX_PENDING_ID {
            None
        } else {
            Some(iar & GICC_IAR_INT_ID_MASK)
        }
    }

    /// Whether a line lies within what the controller supports.
    pub open spec fn spec_in_range(&self, id: u32) -> bool {
        id <= pow2(self.supported_lines as nat)
    }

    /// The line to name at the end of an interrupt that was reported as
    /// source `dev`: the line of the source, or, for a source without a line,
    /// the line that the acknowledge register names.
    pub open spec fn spec_end_id(&self, dev: Device) -> u32 {
        if Self::spec_has_line(dev) {
            Self::spec_to_id(dev)
        } else {
            self.regs.GICC.IAR & GICC_IAR_INT_ID_MASK
        }
    }

    pub fn has_line(dev: Device) -> (r: bool)
        ensures
            r == Self::spec_has_line(dev),
    {
        match dev {
            Device::Timer1 | Device::Timer3 | Device::ArmTimer | Device::Dma => true,
            _ => false,
        }
    }

    pub fn new() -> (r: Gic)
        ensures
            r.supported_lines == 0,
            r.regs.is_reset(),
    {
        Gic { supported_lines: 0, regs: RegisterBlock::reset() }
    }

    pub fn to_id(dev: Device) -> (r: u32)
        ensures
            r == Self::spec_to_id(dev),
    {
        match dev {
            Device::Timer1 => Id::VC_TIMER1,
            Device::Timer3 => Id::VC_TIMER3,
            Device::ArmTimer => Id::ARMC_TIMER,
            Device::Dma => Id::DMA0,
            _ => 0,
        }
    }

    pub fn to_device(id: u32) -> (r: Device)
        ensures
            r == Self::spec_to_device(id),
    {
        if id == Id::VC_TIMER1 {
            Device::Timer1
        } else if id == Id::VC_TIMER3 {
            Device::Timer3
        } else if id == Id::ARMC_TIMER {
            Device::ArmTimer
        } else if id == Id::DMA0 {
            Device::Dma
        } else {
            Device::Invalid
        }
    }

    /// Reads the number of supported lines from the type register and
    /// keeps it.
    pub fn init(&mut self)
        ensures
            final(self).supported_lines == old(self).regs.GICD.TYPER & GICD_TYPER_ITLN_MASK,
            final(self).regs == old(self).regs,
    {
        self.supported_lines = self.get_supported_int_number();
    }

    /// The line number field of the type register.
    pub fn get_supported_int_number(&self) -> (r: u32)
        ensures
            r == self.regs.GICD.TYPER & GICD_TYPER_ITLN_MASK,
    {
        proof {
            lemma_low_field(self.regs.GICD.TYPER, GICD_TYPER_ITLN_MASK);
        }
        Field::new(GICD_TYPER_ITLN_MASK, 0).read(self.regs.GICD.TYPER)
    }

    /// Draining the controller: while lines are asserted, each acknowledge
    /// names one of them, and the one after the last names none. Here `acks`
    /// are the values that the acknowledge register gives for the asserted
    /// lines, in the controller's order, and `spurious` is the value that it
    /// gives when none is left: each value but the last is reported as its
    /// line, the last as nothing pending.
    pub proof fn lemma_pending_drain(acks: Seq<u32>, spurious: u32)
        requires
            forall|i: int| 0 <= i < acks.len() ==> #[trigger] acks[i] <= MAX_PENDING_ID,
            spurious == 1023,
        ensures
            forall|i: int|
                0 <= i < acks.len() ==> Self::spec_pending_id(#[trigger] acks[i]) == Some(acks[i]),
            Self::spec_pending_id(spurious).is_none(),
    {
        assert forall|i: int| 0 <= i < acks.len() implies Self::spec_pending_id(
            #[trigger] acks[i],
        ) == Some(acks[i]) by {
            lemma_line_value(acks[i]);
        }
        lemma_line_value(0);
    }

    /// A source that has a line maps to it, and the line maps back to the
    /// source. `Invalid` and the sources without a line map to line 0, which
    /// maps back to `Invalid`.
    pub proof fn lemma_id_round_trip(dev: Device)
        ensures
            Self::spec_has_line(dev) ==> Self::spec_to_device(Self::spec_to_id(dev)) == dev,
            !Self::spec_has_line(dev) ==> Self::spec_to_device(Self::spec_to_id(dev))
                == Device::Invalid,
    {
    }
}

impl Interrupt for Gic {
    open spec fn spec_enable_int(&self, dev: Device, after: &Self, ok: bool) -> bool {
        let id = Self::spec_to_id(dev);
        let word = (id / 32) as int;
        &&& ok == (Self::spec_has_line(dev) && self.spec_in_range(id))
        &&& after.supported_lines == self.supported_lines
        &&& ok ==> {
            &&& after.regs == (RegisterBlock {
                GICD: (GICD { ISENABLER: after.regs.GICD.ISENABLER, ..self.regs.GICD }),
                ..self.regs
            })
            &&& after.regs.GICD.ISENABLER@ == self.regs.GICD.ISENABLER@.update(
                word,
                self.regs.GICD.ISENABLER[word] | (1u32 << ((id % 32) as u32)),
            )
        }
        &&& !ok ==> after.regs == self.regs
    }

    open spec fn spec_set_target_cpu(&self, dev: Device, cpu: u32, after: &Self) -> bool {
        let id = Self::spec_to_id(dev);
        &&& after.supported_lines == self.supported_lines
        &&& Self::spec_has_line(dev) ==> {
            &&& after.regs == (RegisterBlock {
                GICD: (GICD { ITARGETSR: after.regs.GICD.ITARGETSR, ..self.regs.GICD }),
                ..self.regs
            })
            &&& after.regs.GICD.ITARGETSR@ == self.regs.GICD.ITARGETSR@.update(
                (id / 4) as int,
                (1u32 << cpu) << (((id % 4) * 8) as u32),
            )
        }
        &&& !Self::spec_has_line(dev) ==> after.regs == self.regs
    }

    open spec fn spec_enable_distribution(&self, after: &Self) -> bool {
        &&& after.supported_lines == self.supported_lines
        &&& after.regs == (RegisterBlock {
            GICD: (GICD { CTLR: self.regs.GICD.CTLR | 3, ..self.regs.GICD }),
            ..self.regs
        })
    }

    open spec fn spec_first_pending_id(&self) -> Option<u32> {
        Self::spec_pending_id(self.regs.GICC.IAR)
    }

    open spec fn spec_first_pending_device(&self) -> Option<Device> {
        match Self::spec_pending_id(self.regs.GICC.IAR) {
            Some(id) => Some(Self::spec_to_device(id)),
            None => None,
        }
    }

    open spec fn spec_end_interrupt_handling(&self, dev: Device, after: &Self) -> bool {
        &&& after.supported_lines == self.supported_lines
        &&& after.regs == (RegisterBlock {
            GICC: (GICC { EOIR: self.spec_end_id(dev), ..self.regs.GICC }),
            ..self.regs
        })
    }

    open spec fn spec_device_to_id(&self, dev: Device) -> u32 {
        Self::spec_to_id(dev)
    }

    open spec fn spec_can_target(&self, cpu: u32) -> bool {
        cpu < 32
    }

    proof fn lemma_can_target_first_core(&self) {
    }

    /// Sets the enable bit of the source's line and leaves the other lines
    /// as they are. False, with nothing changed, for a source without a line
    /// and for a line beyond two to the power of the line number field.
    fn enable_int(&mut self, dev: Device) -> (ok: bool) {
        if !Gic::has_line(dev) {
            return false;
        }
        let id = Gic::to_id(dev);
        proof {
            lemma_pow2(self.supported_lines as nat);
            lemma2_to64();
            if self.supported_lines < 31 {
                lemma_pow2_strictly_increases(self.supported_lines as nat, 31);
            }
            if self.supported_lines > 32 {
                lemma_pow2_strictly_increases(32, self.supported_lines as nat);
            }
        }
        if self.supported_lines < 32 && id > 2u32.pow(self.supported_lines) {
            return false;
        }
        let orig = self.regs.GICD.ISENABLER[(id / 32) as usize];
        self.regs.GICD.ISENABLER[(id / 32) as usize] = orig | 1 << (id % 32);
        true
    }

    /// Writes the target byte of the source's line with the bit of core
    /// `cpu`. The word is written whole: the three lines that share it get
    /// no target. A source without a line changes nothing.
    fn set_target_cpu(&mut self, dev: Device, cpu: u32) {
        if !Gic::has_line(dev) {
            return ;
        }
        let id = Gic::to_id(dev);
        let c: u32 = 1 << cpu;
        self.regs.GICD.ITARGETSR[(id / 4) as usize] = c << ((id % 4) * 8);
    }

    /// Enables the forwarding of group 0 and of non-secure group 1.
    fn enable_distribution(&mut self) {
        let groups = Field::new(1, 0).val(1).add(Field::new(1, 1).val(1));
        proof {
            lemma_enable_groups(self.regs.GICD.CTLR);
        }
        self.regs.GICD.CTLR = groups.modify(self.regs.GICD.CTLR);
    }

    /// The line that the acknowledge register names. On the hardware the
    /// read marks that line active, so each read is answered with one
    /// `end_interrupt_handling`.
    fn get_first_pending_id(&self) -> (r: Option<u32>) {
        proof {
            lemma_low_field(self.regs.GICC.IAR, GICC_IAR_INT_ID_MASK);
            lemma_pow2(8);
            lemma2_to64();
        }
        let id = Field::new(GICC_IAR_INT_ID_MASK, 0).read(self.regs.GICC.IAR);
        if id > 2u32.pow(8) {
            return None;
        }
        Some(id)
    }

    fn get_first_pending_device(&self) -> (r: Option<Device>) {
        let id = self.get_first_pending_id();
        match id {
            Some(i) => Some(Gic::to_device(i)),
            None => None,
        }
    }

    /// Writes the line that has been served to the end-of-interrupt
    /// register: the line of the source, or, for a source without a line, the
    /// line that the acknowledge register names.
    fn end_interrupt_handling(&mut self, dev: Device) {
        let id = if Gic::has_line(dev) {
            Gic::to_id(dev)
        } else {
            proof {
                lemma_low_field(self.regs.GICC.IAR, GICC_IAR_INT_ID_MASK);
            }
            Field::new(GICC_IAR_INT_ID_MASK, 0).read(self.regs.GICC.IAR)
        };
        self.regs.GICC.EOIR = id;
    }

    fn device_to_id(&self, dev: Device) -> (r: u32) {
        Gic::to_id(dev)
    }
}

impl Gic {
    /// Enabling a line twice is enabling it once: the second time gives
    /// the same answer and leaves the controller as the first time left it.
    pub proof fn lemma_enable_int_idempotent(
        self,
        dev: Device,
        once: Gic,
        first: bool,
        twice: Gic,
        second: bool,
    )
        requires
            self.spec_enable_int(dev, &once, first),
            once.spec_enable_int(dev, &twice, second),
        ensures
            second == first,
            twice == once,
    {
        let id = Self::spec_to_id(dev);
        let word = (id / 32) as int;
        if first {
            lemma_or_twice(self.regs.GICD.ISENABLER[word], 1u32 << ((id % 32) as u32));
            assert(twice.regs.GICD.ISENABLER@ =~= once.regs.GICD.ISENABLER@);
            assert(twice.regs.GICD.ISENABLER =~= once.regs.GICD.ISENABLER);
        }
    }
}

proof fn lemma_enable_groups(ctlr: u32)
    by (bit_vector)
    ensures
        (ctlr & !((1u32 << 0u32) | (1u32 << 1u32))) | (((1u32 & 1u32) << 0u32) | ((1u32 & 1u32)
            << 1u32)) == ctlr | 3,
{
}

proof fn lemma_line_value(iar: u32)
    by (bit_vector)
    ensures
        iar <= 256 ==> iar & 0x3ff == iar,
        1023u32 & 0x3ff == 1023,
{
}

proof fn lemma_low_field(reg: u32, mask: u32)
    by (bit_vector)
    ensures
        (reg & (mask << 0u32)) >> 0u32 == reg & mask,
{
}

} // verus!
