//! Bit-exact model of the ETM register block.
//!
//! The channel index space is split into two banks: the low bank holds the
//! enable bits of channels `0..32`, the high bank those of channels `32..`.
//! Each bank has an independent pair of 32-bit *set* and *clear* strobe
//! registers: writing 1 to bit `b` of the set register enables the channel at
//! offset `b` in that bank, writing 1 to the same bit of the clear register
//! disables it, and writing 0 to either has no effect. Each channel further
//! has an 8-bit event-id field and an 8-bit task-id field.

use vstd::prelude::*;

verus! {

broadcast use vstd::array::group_array_axioms;

/// Number of ETM channels the hardware provides.
pub const CHANNEL_COUNT: usize = 50;

/// Number of channels covered by one bank of 32-bit enable strobe registers.
pub const BANK_WIDTH: usize = 32;

/// True when bit `bit` of `word` is set.
pub open spec fn nth_bit(word: u32, bit: u32) -> bool {
    (word >> bit) & 1u32 == 1u32
}

/// The bank that holds channel `index`'s enable bit: 0 (low) or 1 (high).
pub open spec fn bank_of(index: int) -> int {
    if index < BANK_WIDTH {
        0
    } else {
        1
    }
}

/// The offset of channel `index`'s enable bit inside its bank's registers.
pub open spec fn offset_in_bank(index: int) -> int {
    if index < BANK_WIDTH {
        index
    } else {
        index - BANK_WIDTH
    }
}

/// Mathematical state of the register block: the per-channel event-id and
/// task-id fields, and the current enable word of each bank.
pub struct RegsView {
    pub evt_ids: Seq<u8>,
    pub task_ids: Seq<u8>,
    pub ena_low: u32,
    pub ena_high: u32,
}

impl RegsView {
    /// One id field of each kind per channel.
    pub open spec fn wf(self) -> bool {
        self.evt_ids.len() == CHANNEL_COUNT && self.task_ids.len() == CHANNEL_COUNT
    }

    /// The 32-bit enable word of bank `bank`.
    pub open spec fn bank_word(self, bank: int) -> u32 {
        if bank == 0 {
            self.ena_low
        } else {
            self.ena_high
        }
    }

    /// Whether channel `index`'s enable bit is set.
    pub open spec fn enabled(self, index: int) -> bool {
        nth_bit(self.bank_word(bank_of(index)), offset_in_bank(index) as u32)
    }
}

/// Pure lookup of the bank and the bit offset that hold channel `index`'s
/// enable bit.
pub fn bank_and_bit(index: u8) -> (r: (u8, u8))
    requires
        (index as usize) < CHANNEL_COUNT,
    ensures
        r.0 as int == bank_of(index as int),
        r.1 as int == offset_in_bank(index as int),
        r.1 == index % 32,
{
    if index < 32 {
        (0, index)
    } else {
        (1, index - 32)
    }
}

/// The ETM register block, modelled as plain data with the strobe semantics
/// of the hardware.
pub struct EtmRegisterBlock {
    evt_ids: [u8; CHANNEL_COUNT],
    task_ids: [u8; CHANNEL_COUNT],
    ena_low: u32,
    ena_high: u32,
}

impl View for EtmRegisterBlock {
    type V = RegsView;

    closed spec fn view(&self) -> RegsView {
        RegsView {
            evt_ids: self.evt_ids@,
            task_ids: self.task_ids@,
            ena_low: self.ena_low,
            ena_high: self.ena_high,
        }
    }
}

impl EtmRegisterBlock {
    /// The block in its reset state: every enable bit clear and every id
    /// field zero.
    pub fn new() -> (r: EtmRegisterBlock)
        ensures
            r@.wf(),
            r@.ena_low == 0u32,
            r@.ena_high == 0u32,
            forall|i: int| 0 <= i < CHANNEL_COUNT ==> r@.evt_ids[i] == 0u8 && r@.task_ids[i] == 0u8,
    {
        EtmRegisterBlock {
            evt_ids: [0u8; CHANNEL_COUNT],
            task_ids: [0u8; CHANNEL_COUNT],
            ena_low: 0,
            ena_high: 0,
        }
    }

    /// Writes `id` into channel `ch`'s event-id register field.
    pub fn write_event_id(&mut self, ch: u8, id: u8)
        requires
            (ch as usize) < CHANNEL_COUNT,
        ensures
            final(self)@.wf(),
            final(self)@.evt_ids == old(self)@.evt_ids.update(ch as int, id),
            final(self)@.evt_ids[ch as int] == id,
            forall|j: int|
                0 <= j < CHANNEL_COUNT && j != ch ==> final(self)@.evt_ids[j] == old(
                    self,
                )@.evt_ids[j],
            final(self)@.task_ids == old(self)@.task_ids,
            final(self)@.ena_low == old(self)@.ena_low,
            final(self)@.ena_high == old(self)@.ena_high,
    {
        self.evt_ids[ch as usize] = id;
    }

    /// Writes `id` into channel `ch`'s task-id register field.
    pub fn write_task_id(&mut self, ch: u8, id: u8)
        requires
            (ch as usize) < CHANNEL_COUNT,
        ensures
            final(self)@.wf(),
            final(self)@.task_ids == old(self)@.task_ids.update(ch as int, id),
            final(self)@.task_ids[ch as int] == id,
            forall|j: int|
                0 <= j < CHANNEL_COUNT && j != ch ==> final(self)@.task_ids[j] == old(
                    self,
                )@.task_ids[j],
            final(self)@.evt_ids == old(self)@.evt_ids,
            final(self)@.ena_low == old(self)@.ena_low,
            final(self)@.ena_high == old(self)@.ena_high,
    {
        self.task_ids[ch as usize] = id;
    }

    /// Write to the low bank's *set* strobe register: each 1 bit of `mask`
    /// sets the enable bit at that offset, 0 bits have no effect.
    pub fn set_strobe_low(&mut self, mask: u32)
        ensures
            final(self)@.wf(),
            final(self)@.ena_low == old(self)@.ena_low | mask,
            final(self)@.ena_high == old(self)@.ena_high,
            final(self)@.evt_ids == old(self)@.evt_ids,
            final(self)@.task_ids == old(self)@.task_ids,
    {
        self.ena_low = self.ena_low | mask;
    }

    /// Write to the low bank's *clear* strobe register: each 1 bit of `mask`
    /// clears the enable bit at that offset, 0 bits have no effect.
    pub fn clear_strobe_low(&mut self, mask: u32)
        ensures
            final(self)@.wf(),
            final(self)@.ena_low == old(self)@.ena_low & !mask,
            final(self)@.ena_high == old(self)@.ena_high,
            final(self)@.evt_ids == old(self)@.evt_ids,
            final(self)@.task_ids == old(self)@.task_ids,
    {
        self.ena_low = self.ena_low & !mask;
    }

    /// Write to the high bank's *set* strobe register.
    pub fn set_strobe_high(&mut self, mask: u32)
        ensures
            final(self)@.wf(),
            final(self)@.ena_high == old(self)@.ena_high | mask,
            final(self)@.ena_low == old(self)@.ena_low,
            final(self)@.evt_ids == old(self)@.evt_ids,
            final(self)@.task_ids == old(self)@.task_ids,
    {
        self.ena_high = self.ena_high | mask;
    }

    /// Write to the high bank's *clear* strobe register.
    pub fn clear_strobe_high(&mut self, mask: u32)
        ensures
            final(self)@.wf(),
            final(self)@.ena_high == old(self)@.ena_high & !mask,
            final(self)@.ena_low == old(self)@.ena_low,
            final(self)@.evt_ids == old(self)@.evt_ids,
            final(self)@.task_ids == old(self)@.task_ids,
    {
        self.ena_high = self.ena_high & !mask;
    }

    /// Reads the low bank's 32-bit enable word.
    pub fn enable_low(&self) -> (r: u32)
        ensures
            r == self@.ena_low,
    {
        self.ena_low
    }

    /// Reads the high bank's 32-bit enable word.
    pub fn enable_high(&self) -> (r: u32)
        ensures
            r == self@.ena_high,
    {
        self.ena_high
    }

    /// Reads channel `ch`'s event-id register field.
    pub fn event_id(&self, ch: u8) -> (r: u8)
        requires
            (ch as usize) < CHANNEL_COUNT,
        ensures
            r == self@.evt_ids[ch as int],
    {
        self.evt_ids[ch as usize]
    }

    /// Reads channel `ch`'s task-id register field.
    pub fn task_id(&self, ch: u8) -> (r: u8)
        requires
            (ch as usize) < CHANNEL_COUNT,
        ensures
            r == self@.task_ids[ch as int],
    {
        self.task_ids[ch as usize]
    }

    /// Whether channel `ch`'s enable bit is currently set.
    pub fn is_enabled(&self, ch: u8) -> (r: bool)
        requires
            (ch as usize) < CHANNEL_COUNT,
        ensures
            r == self@.enabled(ch as int),
    {
        if ch < 32 {
            (self.ena_low >> (ch as u32)) & 1u32 == 1u32
        } else {
            (self.ena_high >> ((ch - 32) as u32)) & 1u32 == 1u32
        }
    }
}

/// Setting bit `b` of a word sets exactly that bit: bit `b` reads 1
/// afterwards and every other bit `j` keeps its value.
pub(crate) proof fn lemma_set_bit_effect(x: u32, b: u32, j: u32)
    requires
        b < 32,
        j < 32,
    ensures
        nth_bit(x | (1u32 << b), b),
        j != b ==> nth_bit(x | (1u32 << b), j) == nth_bit(x, j),
{
    assert(nth_bit(x | (1u32 << b), b)) by (bit_vector)
        requires
            b < 32,
    ;
    assert(j != b && j < 32 && b < 32 ==> nth_bit(x | (1u32 << b), j) == nth_bit(x, j))
        by (bit_vector);
}

/// Clearing bit `b` of a word clears exactly that bit: bit `b` reads 0
/// afterwards and every other bit `j` keeps its value.
pub(crate) proof fn lemma_clear_bit_effect(x: u32, b: u32, j: u32)
    requires
        b < 32,
        j < 32,
    ensures
        !nth_bit(x & !(1u32 << b), b),
        j != b ==> nth_bit(x & !(1u32 << b), j) == nth_bit(x, j),
{
    assert(!nth_bit(x & !(1u32 << b), b)) by (bit_vector)
        requires
            b < 32,
    ;
    assert(j != b && j < 32 && b < 32 ==> nth_bit(x & !(1u32 << b), j) == nth_bit(x, j))
        by (bit_vector);
}

} // verus!
