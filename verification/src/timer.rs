//! The system timer: a free-running 64-bit counter and four compare
//! channels, each with a match flag in the status register.

use crate::bitfield::{lemma_join_words, lemma_one_bit_value, Field};
use crate::exception::InterruptDevice;
use crate::optional_cell::OptionalCell;
use vstd::prelude::*;

verus! {

broadcast use OptionalCell::lemma_spec_from;

/// Offset of the timer's registers from the peripheral base.
pub const TIMER_OFFSET: u32 = 0x3000;

/// Compare channels of the timer.
pub const CHANNELS: u32 = 4;

/// The match flags of all channels in the status register.
pub const CS_MATCH_ALL: u32 = 0xf;

#[derive(Clone, Copy, Debug)]
#[allow(non_snake_case)]
pub struct RegisterBlock {
    /// Status: bit `ch` is the match flag of channel `ch`. Writing a one
    /// to a flag clears it; the block shows the register after the write.
    pub CS: u32,
    /// Low word of the counter.
    pub CLO: u32,
    /// High word of the counter.
    pub CLH: u32,
    pub C0: u32,
    pub C1: u32,
    pub C2: u32,
    pub C3: u32,
}

impl RegisterBlock {
    pub open spec fn spec_reset() -> RegisterBlock {
        RegisterBlock { CS: 0, CLO: 0, CLH: 0, C0: 0, C1: 0, C2: 0, C3: 0 }
    }

    /// A block with every register zero.
    pub fn reset() -> (r: RegisterBlock)
        ensures
            r == Self::spec_reset(),
    {
        RegisterBlock { CS: 0, CLO: 0, CLH: 0, C0: 0, C1: 0, C2: 0, C3: 0 }
    }
}

pub struct TIMER {
    /// One flag a channel, set by the interrupt callback and taken by
    /// `occurred`.
    pub occurred: [OptionalCell<bool>; 4],
    pub regs: RegisterBlock,
}

impl TIMER {
    /// Whether the match flag of channel `ch` is set.
    pub open spec fn spec_is_match(&self, ch: u32) -> bool {
        ch < CHANNELS && self.regs.CS & (1u32 << ch) != 0
    }

    /// A timer on which nothing has occurred, over registers that are all
    /// zero.
    pub fn new() -> (r: TIMER)
        ensures
            forall|ch: int| 0 <= ch < 4 ==> (#[trigger] r.occurred[ch])@.is_none(),
            r.regs == RegisterBlock::spec_reset(),
    {
        TIMER {
            occurred: [
                OptionalCell::empty(),
                OptionalCell::empty(),
                OptionalCell::empty(),
                OptionalCell::empty(),
            ],
            regs: RegisterBlock::reset(),
        }
    }

    /// The counter, high word over low word.
    pub fn get_counter64(&self) -> (r: u64)
        ensures
            r == self.regs.CLH * 0x1_0000_0000 + self.regs.CLO,
    {
        proof {
            lemma_whole_word(self.regs.CLH);
            lemma_whole_word(self.regs.CLO);
            lemma_join_words(self.regs.CLO, self.regs.CLH);
        }
        let time = Field::new(0xffff_ffff, 0);
        let h: u64 = time.read(self.regs.CLH) as u64;
        let l: u64 = time.read(self.regs.CLO) as u64;
        (h << 32) + l
    }

    /// The low word of the counter.
    pub fn get_counter32(&self) -> (r: u32)
        ensures
            r == self.regs.CLO,
    {
        proof {
            lemma_whole_word(self.regs.CLO);
        }
        Field::new(0xffff_ffff, 0).read(self.regs.CLO)
    }

    /// Sets the compare value of channel `ch` to `t`. A number above 3
    /// names no channel and changes nothing.
    pub fn set(&mut self, ch: u32, t: u32)
        ensures
            ch == 0 ==> final(self).regs == (RegisterBlock { C0: t, ..old(self).regs }),
            ch == 1 ==> final(self).regs == (RegisterBlock { C1: t, ..old(self).regs }),
            ch == 2 ==> final(self).regs == (RegisterBlock { C2: t, ..old(self).regs }),
            ch == 3 ==> final(self).regs == (RegisterBlock { C3: t, ..old(self).regs }),
            ch > 3 ==> final(self).regs == old(self).regs,
            final(self).occurred == old(self).occurred,
    {
        match ch {
            0 => {
                self.regs.C0 = t;
            },
            1 => {
                self.regs.C1 = t;
            },
            2 => {
                self.regs.C2 = t;
            },
            3 => {
                self.regs.C3 = t;
            },
            _ => return ,
        };
    }

    /// Whether the counter has reached the compare value of channel `ch`.
    /// False for a number above 3.
    pub fn is_match(&self, ch: u32) -> (r: bool)
        ensures
            r == self.spec_is_match(ch),
    {
        if ch >= CHANNELS {
            return false;
        }
        Field::new(1, ch).is_set(self.regs.CS)
    }

    /// Clears the match flag of channel `ch` by writing a one to it, and
    /// leaves the other flags. A number above 3 names no channel and changes
    /// nothing.
    pub fn clear(&mut self, ch: u32)
        ensures
            ch < CHANNELS ==> final(self).regs == (RegisterBlock {
                CS: old(self).regs.CS & !(1u32 << ch),
                ..old(self).regs
            }),
            ch >= CHANNELS ==> final(self).regs == old(self).regs,
            final(self).occurred == old(self).occurred,
    {
        if ch >= CHANNELS {
            return ;
        }
        let written = Field::new(1, ch).val(1).value;
        proof {
            lemma_one_bit_value(ch);
        }
        self.regs.CS = self.regs.CS & !written;
    }

    /// Whether a match has occurred on channel `ch` since this was last
    /// asked. The answer is taken out of the flag. False for a number above
    /// 3.
    pub fn occurred(&mut self, ch: usize) -> (r: bool)
        ensures
            r == (ch < 4 && old(self).occurred[ch as int]@ == Some(true)),
            ch < 4 ==> (#[trigger] final(self).occurred[ch as int])@.is_none(),
            forall|i: int|
                0 <= i < 4 && i != ch ==> #[trigger] final(self).occurred[i]
                    == old(self).occurred[i],
            final(self).regs == old(self).regs,
    {
        match ch {
            0 | 1 | 2 | 3 => match self.occurred[ch].take() {
                Some(v) => v,
                None => false,
            },
            _ => false,
        }
    }
}

impl TIMER {
    /// Serves the timer's interrupt, whatever line it arrived on: every
    /// channel whose match flag is set has the flag cleared and its
    /// occurrence recorded. The other channels keep what was recorded.
    pub fn on_interruption(&mut self, _id: u32)
        ensures
            final(self).regs == (RegisterBlock {
                CS: old(self).regs.CS & !CS_MATCH_ALL,
                ..old(self).regs
            }),
            forall|ch: int|
                0 <= ch < 4 && old(self).spec_is_match(ch as u32)
                    ==> (#[trigger] final(self).occurred[ch])@ == Some(true),
            forall|ch: int|
                0 <= ch < 4 && !old(self).spec_is_match(ch as u32)
                    ==> #[trigger] final(self).occurred[ch] == old(self).occurred[ch],
    {
        let mut ch: u32 = 0;
        while ch <= 3
            invariant
                ch <= 4,
                self.regs == (RegisterBlock { CS: self.regs.CS, ..old(self).regs }),
                self.regs.CS & !CS_MATCH_ALL == old(self).regs.CS & !CS_MATCH_ALL,
                forall|j: u32| j < ch ==> self.regs.CS & (1u32 << j) == 0,
                forall|j: u32|
                    ch <= j < 4 ==> self.regs.CS & (1u32 << j) == old(self).regs.CS & (1u32 << j),
                forall|j: int|
                    0 <= j < ch && old(self).spec_is_match(j as u32) ==> (
                    #[trigger] self.occurred[j])@ == Some(true),
                forall|j: int|
                    0 <= j < 4 && (j >= ch || !old(self).spec_is_match(j as u32))
                        ==> #[trigger] self.occurred[j] == old(self).occurred[j],
            decreases 4 - ch,
        {
            let ghost before = self.regs.CS;
            if self.is_match(ch) {
                self.clear(ch);
                self.occurred[ch as usize].set(true);
            }
            proof {
                lemma_flag_cleared(before, ch);
            }
            ch += 1;
        }
        proof {
            lemma_all_flags_cleared(old(self).regs.CS, self.regs.CS);
        }
    }
}

impl TIMER {
    /// The flags after the channels below `n` have been served: a channel
    /// whose match flag is set has its occurrence recorded.
    pub open spec fn spec_occurred_after(self, n: nat) -> [OptionalCell<bool>; 4]
        decreases n,
    {
        if n == 0 {
            self.occurred
        } else {
            let before = self.spec_occurred_after((n - 1) as nat);
            if self.spec_is_match((n - 1) as u32) {
                vstd::array::spec_array_update(before, n - 1, OptionalCell::spec_from(Some(true)))
            } else {
                before
            }
        }
    }

    proof fn lemma_occurred_after(self, n: nat, ch: int)
        requires
            n <= 4,
            0 <= ch < 4,
        ensures
            self.spec_occurred_after(n)[ch] == (if ch < n && self.spec_is_match(ch as u32) {
                OptionalCell::spec_from(Some(true))
            } else {
                self.occurred[ch]
            }),
        decreases n,
    {
        if n > 0 {
            self.lemma_occurred_after((n - 1) as nat, ch);
        }
    }
}

impl InterruptDevice for TIMER {
    open spec fn after_fire(self, id: u32) -> Self {
        TIMER {
            occurred: self.spec_occurred_after(4),
            regs: RegisterBlock { CS: self.regs.CS & !CS_MATCH_ALL, ..self.regs },
        }
    }

    fn on_fire(&mut self, id: u32) {
        self.on_interruption(id);
        proof {
            assert forall|ch: int| 0 <= ch < 4 implies self.occurred[ch]
                == old(self).spec_occurred_after(4)[ch] by {
                old(self).lemma_occurred_after(4, ch);
                if old(self).spec_is_match(ch as u32) {
                    self.occurred[ch].lemma_view_injective(OptionalCell::spec_from(Some(true)));
                }
            }
            assert(self.occurred =~= old(self).spec_occurred_after(4));
        }
    }
}

proof fn lemma_flag_cleared(cs: u32, ch: u32)
    by (bit_vector)
    requires
        ch < 4,
    ensures
        (cs & !(1u32 << ch)) & (1u32 << ch) == 0,
        (cs & !(1u32 << ch)) & !0xfu32 == cs & !0xfu32,
        cs & (1u32 << ch) == 0 ==> cs & !(1u32 << ch) == cs,
        forall|j: u32| j < 32 && j != ch ==> (cs & !(1u32 << ch)) & (1u32 << j) == cs & (1u32 << j),
{
}

proof fn lemma_all_flags_cleared(before: u32, after: u32)
    by (bit_vector)
    requires
        after & !0xfu32 == before & !0xfu32,
        after & (1u32 << 0u32) == 0,
        after & (1u32 << 1u32) == 0,
        after & (1u32 << 2u32) == 0,
        after & (1u32 << 3u32) == 0,
    ensures
        after == before & !0xfu32,
{
}

proof fn lemma_whole_word(reg: u32)
    by (bit_vector)
    ensures
        (reg & (0xffff_ffffu32 << 0u32)) >> 0u32 == reg,
{
}

} // verus!
