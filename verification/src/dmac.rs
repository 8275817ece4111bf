//! The DMA controller: channel registers, control blocks and the drivers
//! that start, await and acknowledge a transfer.

use crate::bitfield::{
    lemma_bit_zero_value, lemma_modify_clears_bit, lemma_modify_sets_bit, lemma_one_bit_value, Field,
};
use crate::exception::InterruptDevice;
use crate::optional_cell::OptionalCell;
use vstd::prelude::*;

verus! {

/// Offset of the controller's registers from the peripheral base.
pub const DMAC_OFFSET: u32 = 0x7200;

/// Where the controller lies on the BCM2837.
pub const DMAC_FIXED_BASE: u32 = 0x3F00_7200;

// Control and status register of a channel.
pub const CS_RESET: u32 = 31;
pub const CS_INT: u32 = 2;
pub const CS_END: u32 = 1;
pub const CS_ACTIVE: u32 = 0;

// Transfer information word of a control block.
pub const TI_BURST_LENGTH: u32 = 12;
pub const TI_BURST_LENGTH_MASK: u32 = 0xf;
pub const TI_SRC_WIDTH: u32 = 9;
pub const TI_SRC_INC: u32 = 8;
pub const TI_DEST_WIDTH: u32 = 5;
pub const TI_DEST_INC: u32 = 4;

/// The registers of one channel.
#[derive(Clone, Copy, Debug)]
#[allow(non_snake_case)]
pub struct DmaChannelRegister {
    /// Control and status.
    pub CS: u32,
    /// Address of the control block.
    pub CONBLK_AD: u32,
    pub TI: u32,
    pub SOURCE_AD: u32,
    pub DEST_AD: u32,
    pub TXFR_LEN: u32,
    pub STRIDE: u32,
    pub NEXTCONBK: u32,
    pub DEBUG: u32,
}

/// The controller's registers: fifteen channels, the interrupt status and
/// the global enable register.
#[derive(Clone, Copy, Debug)]
#[allow(non_snake_case)]
pub struct RegisterBlock {
    pub Channels: [DmaChannelRegister; 15],
    pub INT_STATUS: u32,
    pub ENABLE: u32,
}

impl DmaChannelRegister {
    pub open spec fn spec_reset() -> DmaChannelRegister {
        DmaChannelRegister {
            CS: 0,
            CONBLK_AD: 0,
            TI: 0,
            SOURCE_AD: 0,
            DEST_AD: 0,
            TXFR_LEN: 0,
            STRIDE: 0,
            NEXTCONBK: 0,
            DEBUG: 0,
        }
    }

    /// A channel with every register zero.
    pub fn reset() -> (r: DmaChannelRegister)
        ensures
            r == Self::spec_reset(),
    {
        DmaChannelRegister {
            CS: 0,
            CONBLK_AD: 0,
            TI: 0,
            SOURCE_AD: 0,
            DEST_AD: 0,
            TXFR_LEN: 0,
            STRIDE: 0,
            NEXTCONBK: 0,
            DEBUG: 0,
        }
    }
}

impl RegisterBlock {
    /// Whether channel `ch` of the block asks for an interrupt, as the
    /// interrupt status register tells.
    pub open spec fn spec_interrupting(&self, ch: int) -> bool {
        0 <= ch < 15 && self.INT_STATUS & (1u32 << (ch as u32)) != 0
    }

    pub fn is_interrupting(&self, ch: usize) -> (r: bool)
        ensures
            r == self.spec_interrupting(ch as int),
    {
        if ch >= 15 {
            return false;
        }
        Field::new(1, ch as u32).is_set(self.INT_STATUS)
    }

    /// Every register of the block is zero.
    pub open spec fn is_reset(self) -> bool {
        &&& self.INT_STATUS == 0
        &&& self.ENABLE == 0
        &&& forall|i: int| 0 <= i < 15 ==> self.Channels[i] == DmaChannelRegister::spec_reset()
    }

    /// A block with every register zero.
    pub fn reset() -> (r: RegisterBlock)
        ensures
            r.is_reset(),
    {
        let c = DmaChannelRegister::reset();
        RegisterBlock {
            Channels: [c, c, c, c, c, c, c, c, c, c, c, c, c, c, c],
            INT_STATUS: 0,
            ENABLE: 0,
        }
    }
}

/// A transfer as the controller reads it from memory. This form
/// describes one fixed transfer.
#[derive(Clone, Copy, Debug)]
pub struct ControlBlock {
    pub transfer_information: u32,
    pub source_address: u32,
    pub destination_address: u32,
    pub transfer_length: u32,
    pub two_d_mode_stride: u32,
    pub next_control_block_address: u32,
    pub __reserved: [u32; 2],
}

impl ControlBlock {
    /// The fixed transfer: 64 bytes from 0x100_0160 to 0x200_0000, both
    /// addresses incrementing. The argument is not used.
    pub fn new(src: u32) -> (r: ControlBlock)
        ensures
            r.transfer_information == 0x110,
            r.source_address == 0x100_0160,
            r.destination_address == 0x200_0000,
            r.transfer_length == 64,
            r.two_d_mode_stride == 0,
            r.next_control_block_address == 0,
            r.__reserved@ == seq![0u32, 0u32],
    {
        let r = ControlBlock {
            transfer_information: 0x110,
            source_address: 0x100_0160,
            destination_address: 0x200_0000,
            transfer_length: 64,
            two_d_mode_stride: 0,
            next_control_block_address: 0,
            __reserved: [0, 0],
        };
        assert(r.__reserved@ =~= seq![0u32, 0u32]);
        r
    }
}

/// A transfer as the controller reads it from memory, with the transfer
/// information word built from its fields.
#[derive(Clone, Copy, Debug)]
#[allow(non_snake_case)]
pub struct ControlBlock4 {
    pub TI: u32,
    pub source_address: u32,
    pub destination_address: u32,
    pub transfer_length: u32,
    pub two_d_mode_stride: u32,
    pub next_control_block_address: u32,
    pub __reserved: [u32; 2],
}

impl ControlBlock4 {
    /// The transfer information word for a burst length. Bursts of 2, 4 and
    /// 8 use 128-bit accesses on both sides. A burst of 16 asks for them too,
    /// but 16 does not fit the four-bit burst field, which stays zero. Any
    /// other number gives single 32-bit transfers. Source and destination
    /// addresses always increment.
    pub open spec fn spec_transfer_information(burst: u8) -> u32 {
        if burst == 2 {
            0x2330
        } else if burst == 4 {
            0x4330
        } else if burst == 8 {
            0x8330
        } else if burst == 16 {
            0x0330
        } else {
            0x0110
        }
    }

    /// Describes a linear transfer of `length` bytes from `src` to `dest`.
    pub fn new(src: u32, dest: u32, length: u32, burst: u8) -> (r: ControlBlock4)
        ensures
            r.TI == Self::spec_transfer_information(burst),
            r.source_address == src,
            r.destination_address == dest,
            r.transfer_length == length,
            r.two_d_mode_stride == 0,
            r.next_control_block_address == 0,
            r.__reserved@ == seq![0u32, 0u32],
    {
        let mut cb = ControlBlock4 {
            TI: 0,
            source_address: src,
            destination_address: dest,
            transfer_length: length,
            two_d_mode_stride: 0,
            next_control_block_address: 0,
            __reserved: [0, 0],
        };
        assert(cb.__reserved@ =~= seq![0u32, 0u32]);
        let burst_length = Field::new(TI_BURST_LENGTH_MASK, TI_BURST_LENGTH);
        let src_width = Field::new(1, TI_SRC_WIDTH);
        let dest_width = Field::new(1, TI_DEST_WIDTH);
        match burst {
            2 => {
                cb.TI = burst_length.val(2).add(src_width.val(1)).add(dest_width.val(1)).modify(
                    cb.TI,
                );
            },
            4 => {
                cb.TI = burst_length.val(4).add(src_width.val(1)).add(dest_width.val(1)).modify(
                    cb.TI,
                );
            },
            8 => {
                cb.TI = burst_length.val(8).add(src_width.val(1)).add(dest_width.val(1)).modify(
                    cb.TI,
                );
            },
            16 => {
                cb.TI = burst_length.val(16).add(src_width.val(1)).add(dest_width.val(1)).modify(
                    cb.TI,
                );
            },
            _ => {
                cb.TI = burst_length.val(0).modify(cb.TI);
            },
        }
        let ghost selected = cb.TI;
        proof {
            if burst == 2 || burst == 4 || burst == 8 || burst == 16 {
                lemma_wide_burst(burst as u32);
            } else {
                lemma_single_burst();
            }
        }
        let dest_inc = Field::new(1, TI_DEST_INC);
        let src_inc = Field::new(1, TI_SRC_INC);
        cb.TI = dest_inc.val(1).add(src_inc.val(1)).modify(cb.TI);
        proof {
            lemma_increments(selected);
        }
        cb
    }
}

/// A driver over the register block that works channel 0 only.
pub struct DMAC {
    pub _some_data: u32,
    pub regs: RegisterBlock,
}

impl DMAC {
    pub fn new() -> (r: DMAC)
        ensures
            r.regs.is_reset(),
    {
        DMAC { _some_data: 0, regs: RegisterBlock::reset() }
    }

    /// Asks channel 0 to reset: its control and status register is written
    /// with the reset bit alone.
    pub fn reset(&mut self)
        ensures
            final(self).regs.Channels@ == old(self).regs.Channels@.update(
                0,
                (DmaChannelRegister { CS: 1u32 << 31, ..old(self).regs.Channels[0] }),
            ),
            final(self).regs.INT_STATUS == old(self).regs.INT_STATUS,
            final(self).regs.ENABLE == old(self).regs.ENABLE,
    {
        let fv = Field::new(1, CS_RESET).val(1);
        proof {
            lemma_one_bit_value(CS_RESET);
        }
        self.regs.Channels[0].CS = fv.value;
        assert(self.regs.Channels@ =~= old(self).regs.Channels@.update(
            0,
            (DmaChannelRegister { CS: 1u32 << 31, ..old(self).regs.Channels[0] }),
        ));
    }

    /// Enables channel 0 and, the register being written whole, disables
    /// every other channel.
    pub fn turn_on(&mut self)
        ensures
            final(self).regs.ENABLE == 1,
            final(self).regs.Channels == old(self).regs.Channels,
            final(self).regs.INT_STATUS == old(self).regs.INT_STATUS,
    {
        let fv = Field::new(1, 0).val(1);
        proof {
            lemma_bit_zero_value();
        }
        self.regs.ENABLE = fv.value;
    }

    /// Starts channel 0 on the control block at address `cs`: the address
    /// is written first, then the control and status register with the
    /// active bit alone.
    pub fn exec(&mut self, cs: u32)
        ensures
            final(self).regs.Channels@ == old(self).regs.Channels@.update(
                0,
                (DmaChannelRegister { CS: 1, CONBLK_AD: cs, ..old(self).regs.Channels[0] }),
            ),
            final(self).regs.INT_STATUS == old(self).regs.INT_STATUS,
            final(self).regs.ENABLE == old(self).regs.ENABLE,
    {
        self.regs.Channels[0].CONBLK_AD = cs;
        let fv = Field::new(1, CS_ACTIVE).val(1);
        proof {
            lemma_bit_zero_value();
        }
        self.regs.Channels[0].CS = fv.value;
        assert(self.regs.Channels@ =~= old(self).regs.Channels@.update(
            0,
            (DmaChannelRegister { CS: 1, CONBLK_AD: cs, ..old(self).regs.Channels[0] }),
        ));
    }

    /// As `exec`, for the address of a `ControlBlock4`.
    pub fn exec4(&mut self, cs: u32)
        ensures
            final(self).regs.Channels@ == old(self).regs.Channels@.update(
                0,
                (DmaChannelRegister { CS: 1, CONBLK_AD: cs, ..old(self).regs.Channels[0] }),
            ),
            final(self).regs.INT_STATUS == old(self).regs.INT_STATUS,
            final(self).regs.ENABLE == old(self).regs.ENABLE,
    {
        self.exec(cs)
    }
}

/// The first two registers of channel 0.
#[derive(Clone, Copy, Debug)]
#[allow(non_snake_case)]
pub struct DmacRegs {
    pub CS: u32,
    pub CONBLK_AD: u32,
}

/// The smallest driver: it writes the first two registers of channel 0.
pub struct DMAC0 {}

impl DMAC0 {
    /// Writes one into both registers.
    pub fn write_data(regs: &mut DmacRegs)
        ensures
            *final(regs) == (DmacRegs { CS: 1, CONBLK_AD: 1 }),
    {
        regs.CS = 1;
        regs.CONBLK_AD = 1;
    }
}

/// The driver that writes the first two registers of channel 0 as fields
/// of one block.
pub struct DMAC1 {}

impl DMAC1 {
    /// Writes one into the status register and two into the address
    /// register.
    pub fn write_data(regs: &mut DmacRegs)
        ensures
            *final(regs) == (DmacRegs { CS: 1, CONBLK_AD: 2 }),
    {
        regs.CS = 1;
        regs.CONBLK_AD = 2;
    }
}

/// A block of one register.
#[derive(Clone, Copy, Debug)]
#[allow(non_snake_case)]
pub struct RegisterDMAC2 {
    pub SOME_DATA: u32,
}

/// The driver that carries the address of its block.
pub struct DMAC2 {
    pub base_addr: u32,
    pub regs: RegisterDMAC2,
}

impl DMAC2 {
    /// The address that the register block lies at.
    pub fn ptr(&self) -> (r: u32)
        ensures
            r == self.base_addr,
    {
        self.base_addr
    }

    pub fn new() -> (r: DMAC2)
        ensures
            r.base_addr == DMAC_FIXED_BASE,
            r.regs.SOME_DATA == 0,
    {
        let b: u32 = DMAC_FIXED_BASE;
        DMAC2 { base_addr: b, regs: RegisterDMAC2 { SOME_DATA: 0 } }
    }

    pub fn write_data(&mut self)
        ensures
            final(self).regs.SOME_DATA == 0x10,
            final(self).base_addr == old(self).base_addr,
    {
        self.regs.SOME_DATA = 0x10;
    }
}

pub type DmaChannelRegister3 = DmaChannelRegister;

pub type RegisterBlock3 = RegisterBlock;

/// The driver that enables channel 0 without touching the other channels.
pub struct DMAC3 {
    pub regs: RegisterBlock3,
}

impl DMAC3 {
    pub fn new() -> (r: DMAC3)
        ensures
            r.regs.is_reset(),
    {
        DMAC3 { regs: RegisterBlock::reset() }
    }

    /// Sets the enable bit of channel 0 and leaves every other bit.
    pub fn turn_on(&mut self)
        ensures
            final(self).regs.ENABLE == old(self).regs.ENABLE | (1u32 << 0),
            final(self).regs.Channels == old(self).regs.Channels,
            final(self).regs.INT_STATUS == old(self).regs.INT_STATUS,
    {
        let fv = Field::new(1, 0).val(1);
        proof {
            lemma_modify_sets_bit(self.regs.ENABLE, 0);
        }
        self.regs.ENABLE = fv.modify(self.regs.ENABLE);
    }
}

/// The driver that works any channel, and that serves the controller's
/// interrupt.
pub struct DMAC4 {
    /// One flag a channel, set by the interrupt callback and taken by
    /// `has_fired`.
    pub fired: [OptionalCell<bool>; 16],
    pub regs: RegisterBlock,
}

impl DMAC4 {
    /// A driver on which nothing has fired, over registers that are all
    /// zero.
    pub fn new() -> (r: DMAC4)
        ensures
            r.regs.is_reset(),
            forall|ch: int| 0 <= ch < 16 ==> (#[trigger] r.fired[ch])@.is_none(),
    {
        DMAC4 {
            fired: [
                OptionalCell::empty(),
                OptionalCell::empty(),
                OptionalCell::empty(),
                OptionalCell::empty(),
                OptionalCell::empty(),
                OptionalCell::empty(),
                OptionalCell::empty(),
                OptionalCell::empty(),
                OptionalCell::empty(),
                OptionalCell::empty(),
                OptionalCell::empty(),
                OptionalCell::empty(),
                OptionalCell::empty(),
                OptionalCell::empty(),
                OptionalCell::empty(),
                OptionalCell::empty(),
            ],
            regs: RegisterBlock::reset(),
        }
    }

    /// Disables all sixteen channels: the enable register is written with
    /// zero.
    pub fn init(&mut self)
        ensures
            final(self).regs.ENABLE == 0,
            final(self).regs.Channels == old(self).regs.Channels,
            final(self).regs.INT_STATUS == old(self).regs.INT_STATUS,
            final(self).fired == old(self).fired,
    {
        let mut all = Field::new(1, 0).val(0);
        proof {
            lemma_disable_values(0, 0);
        }
        let mut ch: u32 = 1;
        while ch < 16
            invariant
                1 <= ch <= 16,
                all.well_formed(),
                all.value == 0,
            decreases 16 - ch,
        {
            proof {
                lemma_disable_values(ch, all.value);
            }
            all = all.add(Field::new(1, ch).val(0));
            ch += 1;
        }
        self.regs.ENABLE = all.value;
    }

    /// Enables channel `ch` and leaves the other channels as they are. A
    /// number above 15 names no channel and changes nothing.
    pub fn turn_on(&mut self, ch: usize)
        ensures
            ch <= 15 ==> final(self).regs.ENABLE == old(self).regs.ENABLE | (1u32 << (ch as u32)),
            ch > 15 ==> final(self).regs.ENABLE == old(self).regs.ENABLE,
            final(self).regs.Channels == old(self).regs.Channels,
            final(self).regs.INT_STATUS == old(self).regs.INT_STATUS,
            final(self).fired == old(self).fired,
    {
        if ch > 15 {
            return ;
        }
        let en = Field::new(1, ch as u32).val(1);
        proof {
            lemma_modify_sets_bit(self.regs.ENABLE, ch as u32);
        }
        self.regs.ENABLE = en.modify(self.regs.ENABLE);
    }

    /// Disables channel `ch` and leaves the other channels as they are. A
    /// number above 15 names no channel and changes nothing.
    pub fn turn_off(&mut self, ch: usize)
        ensures
            ch <= 15 ==> final(self).regs.ENABLE == old(self).regs.ENABLE & !(1u32 << (ch as u32)),
            ch > 15 ==> final(self).regs.ENABLE == old(self).regs.ENABLE,
            final(self).regs.Channels == old(self).regs.Channels,
            final(self).regs.INT_STATUS == old(self).regs.INT_STATUS,
            final(self).fired == old(self).fired,
    {
        if ch > 15 {
            return ;
        }
        let disable = Field::new(1, ch as u32).val(0);
        proof {
            lemma_modify_clears_bit(self.regs.ENABLE, ch as u32);
        }
        self.regs.ENABLE = disable.modify(self.regs.ENABLE);
    }

    /// Starts channel `ch` on the control block at address `cs`: the
    /// address is written first, then the control and status register with
    /// the active bit alone. The block holds channels 0 to 14; any other
    /// number changes nothing.
    pub fn exec(&mut self, ch: usize, cs: u32)
        ensures
            ch < 15 ==> final(self).regs.Channels@ == old(self).regs.Channels@.update(
                ch as int,
                (DmaChannelRegister { CS: 1, CONBLK_AD: cs, ..old(self).regs.Channels[ch as int] }),
            ),
            ch >= 15 ==> final(self).regs.Channels == old(self).regs.Channels,
            final(self).regs.INT_STATUS == old(self).regs.INT_STATUS,
            final(self).regs.ENABLE == old(self).regs.ENABLE,
            final(self).fired == old(self).fired,
    {
        if ch >= 15 {
            return ;
        }
        self.regs.Channels[ch].CONBLK_AD = cs;
        let fv = Field::new(1, CS_ACTIVE).val(1);
        proof {
            lemma_bit_zero_value();
        }
        self.regs.Channels[ch].CS = fv.value;
        assert(self.regs.Channels@ =~= old(self).regs.Channels@.update(
            ch as int,
            (DmaChannelRegister { CS: 1, CONBLK_AD: cs, ..old(self).regs.Channels[ch as int] }),
        ));
    }

    /// Whether channel `ch` has reached the end of its transfer.
    pub open spec fn spec_ended(&self, ch: usize) -> bool {
        Field { mask: 1, shift: CS_END }.spec_read(self.regs.Channels[ch as int].CS) != 0
    }

    /// Whether a wait for the end of channel `ch` is over: the end flag of
    /// the channel is read and reported. The caller reads the register again
    /// and asks again until the answer is true. For a number that names no
    /// channel of the block there is nothing to wait for.
    pub fn wait_end(&self, ch: usize) -> (r: bool)
        ensures
            r == (ch >= 15 || self.spec_ended(ch)),
    {
        if ch >= 15 {
            return true;
        }
        Field::new(1, CS_END).read(self.regs.Channels[ch].CS) != 0
    }

    /// Acknowledges the end of the transfer on channel `ch`: the control and
    /// status register is written with the end bit alone. The block holds
    /// channels 0 to 14; any other number changes nothing.
    pub fn clear(&mut self, ch: usize)
        ensures
            ch < 15 ==> final(self).regs.Channels@ == old(self).regs.Channels@.update(
                ch as int,
                (DmaChannelRegister { CS: 1u32 << 1, ..old(self).regs.Channels[ch as int] }),
            ),
            ch >= 15 ==> final(self).regs.Channels == old(self).regs.Channels,
            final(self).regs.INT_STATUS == old(self).regs.INT_STATUS,
            final(self).regs.ENABLE == old(self).regs.ENABLE,
            final(self).fired == old(self).fired,
    {
        if ch >= 15 {
            return ;
        }
        let fv = Field::new(1, CS_END).val(1);
        proof {
            lemma_one_bit_value(CS_END);
        }
        self.regs.Channels[ch].CS = fv.value;
        assert(self.regs.Channels@ =~= old(self).regs.Channels@.update(
            ch as int,
            (DmaChannelRegister { CS: 1u32 << 1, ..old(self).regs.Channels[ch as int] }),
        ));
    }
}

impl DMAC4 {
    /// Whether channel `ch` asks for an interrupt.
    pub open spec fn spec_interrupting(&self, ch: int) -> bool {
        self.regs.spec_interrupting(ch)
    }

    /// The registers of channel `ch` after the interrupt has been served.
    pub open spec fn spec_served_channel(&self, ch: int) -> DmaChannelRegister {
        if self.spec_interrupting(ch) {
            DmaChannelRegister { CS: 1u32 << CS_INT, ..self.regs.Channels[ch] }
        } else {
            self.regs.Channels[ch]
        }
    }

    /// The flag of channel `ch` after the interrupt has been served.
    pub open spec fn spec_served_flag(&self, ch: int) -> OptionalCell<bool> {
        if self.spec_interrupting(ch) {
            OptionalCell::spec_from(Some(true))
        } else {
            self.fired[ch]
        }
    }

    /// Whether a transfer on channel `ch` has raised an interrupt since
    /// this was last asked. The answer is taken out of the flag. False for a
    /// number above 15.
    pub fn has_fired(&mut self, ch: usize) -> (r: bool)
        ensures
            r == (ch < 16 && old(self).fired[ch as int]@ == Some(true)),
            ch < 16 ==> (#[trigger] final(self).fired[ch as int])@.is_none(),
            forall|i: int|
                0 <= i < 16 && i != ch ==> #[trigger] final(self).fired[i] == old(self).fired[i],
            final(self).regs == old(self).regs,
    {
        if ch >= 16 {
            return false;
        }
        match self.fired[ch].take() {
            Some(v) => v,
            None => false,
        }
    }

    /// Serves the controller's interrupt, whatever line it arrived on:
    /// every channel of the block that asks for an interrupt has the request
    /// cleared, by writing the interrupt bit of its control and status
    /// register, and its flag set. The other channels keep what they had.
    pub fn on_interruption(&mut self, _id: u32)
        ensures
            forall|ch: int|
                0 <= ch < 15 ==> #[trigger] final(self).regs.Channels[ch]
                    == old(self).spec_served_channel(ch),
            forall|ch: int|
                0 <= ch < 16 ==> #[trigger] final(self).fired[ch] == old(self).spec_served_flag(ch),
            final(self).regs.INT_STATUS == old(self).regs.INT_STATUS,
            final(self).regs.ENABLE == old(self).regs.ENABLE,
    {
        let mut ch: usize = 0;
        while ch < 15
            invariant
                ch <= 15,
                self.regs.INT_STATUS == old(self).regs.INT_STATUS,
                self.regs.ENABLE == old(self).regs.ENABLE,
                forall|j: int|
                    0 <= j < 15 ==> #[trigger] self.regs.Channels[j] == (if j < ch {
                        old(self).spec_served_channel(j)
                    } else {
                        old(self).regs.Channels[j]
                    }),
                forall|j: int|
                    0 <= j < 16 ==> #[trigger] self.fired[j] == (if j < ch {
                        old(self).spec_served_flag(j)
                    } else {
                        old(self).fired[j]
                    }),
            decreases 15 - ch,
        {
            if self.regs.is_interrupting(ch) {
                let fv = Field::new(1, CS_INT).val(1);
                proof {
                    lemma_one_bit_value(CS_INT);
                }
                self.regs.Channels[ch].CS = fv.value;
                self.fired[ch].set(true);
            }
            ch += 1;
        }
    }
}

impl InterruptDevice for DMAC4 {
    open spec fn after_fire(self, id: u32) -> Self {
        DMAC4 {
            fired: self.spec_fired_after(16),
            regs: RegisterBlock { Channels: self.spec_channels_after(15), ..self.regs },
        }
    }

    fn on_fire(&mut self, id: u32) {
        self.on_interruption(id);
        proof {
            assert forall|ch: int| 0 <= ch < 16 implies self.fired[ch]
                == old(self).spec_fired_after(16)[ch] by {
                old(self).lemma_fired_after(16, ch);
            }
            assert(self.fired =~= old(self).spec_fired_after(16));
            assert forall|ch: int| 0 <= ch < 15 implies self.regs.Channels[ch]
                == old(self).spec_channels_after(15)[ch] by {
                old(self).lemma_channels_after(15, ch);
            }
            assert(self.regs.Channels =~= old(self).spec_channels_after(15));
        }
    }
}

impl DMAC4 {
    /// The flags after the channels below `n` have been served.
    pub open spec fn spec_fired_after(self, n: nat) -> [OptionalCell<bool>; 16]
        decreases n,
    {
        if n == 0 {
            self.fired
        } else {
            vstd::array::spec_array_update(
                self.spec_fired_after((n - 1) as nat),
                n - 1,
                self.spec_served_flag(n - 1),
            )
        }
    }

    /// The channel registers after the channels below `n` have been
    /// served.
    pub open spec fn spec_channels_after(self, n: nat) -> [DmaChannelRegister; 15]
        decreases n,
    {
        if n == 0 {
            self.regs.Channels
        } else {
            vstd::array::spec_array_update(
                self.spec_channels_after((n - 1) as nat),
                n - 1,
                self.spec_served_channel(n - 1),
            )
        }
    }

    proof fn lemma_fired_after(self, n: nat, ch: int)
        requires
            n <= 16,
            0 <= ch < 16,
        ensures
            self.spec_fired_after(n)[ch] == (if ch < n {
                self.spec_served_flag(ch)
            } else {
                self.fired[ch]
            }),
        decreases n,
    {
        if n > 0 {
            self.lemma_fired_after((n - 1) as nat, ch);
        }
    }

    proof fn lemma_channels_after(self, n: nat, ch: int)
        requires
            n <= 15,
            0 <= ch < 15,
        ensures
            self.spec_channels_after(n)[ch] == (if ch < n {
                self.spec_served_channel(ch)
            } else {
                self.regs.Channels[ch]
            }),
        decreases n,
    {
        if n > 0 {
            self.lemma_channels_after((n - 1) as nat, ch);
        }
    }
}

proof fn lemma_disable_values(shift: u32, sum: u32)
    by (bit_vector)
    requires
        shift < 32,
        sum == 0,
    ensures
        (0u32 & 1u32) << shift == 0,
        sum | ((0u32 & 1u32) << shift) == 0,
{
}

proof fn lemma_wide_burst(b: u32)
    by (bit_vector)
    requires
        b == 2 || b == 4 || b == 8 || b == 16,
    ensures
        (0u32 & !(((0xfu32 << 12u32) | (1u32 << 9u32)) | (1u32 << 5u32))) | ((((b & 0xfu32) << 12u32)
            | ((1u32 & 1u32) << 9u32)) | ((1u32 & 1u32) << 5u32)) == (if b == 2 {
            0x2220u32
        } else if b == 4 {
            0x4220u32
        } else if b == 8 {
            0x8220u32
        } else {
            0x0220u32
        }),
{
}

proof fn lemma_single_burst()
    by (bit_vector)
    ensures
        (0u32 & !(0xfu32 << 12u32)) | ((0u32 & 0xfu32) << 12u32) == 0u32,
{
}

proof fn lemma_increments(ti: u32)
    by (bit_vector)
    requires
        ti == 0x2220 || ti == 0x4220 || ti == 0x8220 || ti == 0x0220 || ti == 0,
    ensures
        (ti & !((1u32 << 4u32) | (1u32 << 8u32))) | (((1u32 & 1u32) << 4u32) | ((1u32 & 1u32)
            << 8u32)) == ti | 0x110u32,
        0x2220u32 | 0x110u32 == 0x2330u32,
        0x4220u32 | 0x110u32 == 0x4330u32,
        0x8220u32 | 0x110u32 == 0x8330u32,
        0x0220u32 | 0x110u32 == 0x0330u32,
        0u32 | 0x110u32 == 0x0110u32,
{
}

} // verus!
