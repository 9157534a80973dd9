//! Channel lifecycle: claiming an unconfigured channel from the matrix,
//! binding it to an event and a task, and releasing it again.
//!
//! Exclusivity is move-enforced: configuring a channel consumes the
//! [`EtmChannel`] value, so at most one live [`EtmConfiguredChannel`] can
//! exist per index, and no path leads back to a fresh unconfigured value for
//! that index.

use vstd::prelude::*;

verus! {

use crate::capability::{EtmEvent, EtmTask};
use crate::registers::{
    lemma_clear_bit_effect,
    lemma_set_bit_effect,
    EtmRegisterBlock,
    RegsView,
    BANK_WIDTH,
    CHANNEL_COUNT,
};
use crate::system::{EtmPeripheral, PeripheralUsage, UsageToken};

/// Exact register effect of configuring channel `index` with the ids
/// `event_id` and `task_id`: both id fields of that channel are written, its
/// bank's enable word gains exactly the channel's bit through the *set*
/// strobe, and the other bank's word is untouched.
pub open spec fn configure_effect(
    pre: RegsView,
    post: RegsView,
    index: int,
    event_id: u8,
    task_id: u8,
) -> bool {
    &&& post.evt_ids == pre.evt_ids.update(index, event_id)
    &&& post.task_ids == pre.task_ids.update(index, task_id)
    &&& (if index < BANK_WIDTH {
        post.ena_low == pre.ena_low | (1u32 << (index as u32)) && post.ena_high == pre.ena_high
    } else {
        post.ena_high == pre.ena_high | (1u32 << ((index - BANK_WIDTH) as u32)) && post.ena_low
            == pre.ena_low
    })
}

/// Exact register effect of releasing channel `index`: its bank's enable
/// word loses exactly the channel's bit through the *clear* strobe, the other
/// bank's word is untouched, and every id field keeps its value.
pub open spec fn release_effect(pre: RegsView, post: RegsView, index: int) -> bool {
    &&& post.evt_ids == pre.evt_ids
    &&& post.task_ids == pre.task_ids
    &&& (if index < BANK_WIDTH {
        post.ena_low == pre.ena_low & !(1u32 << (index as u32)) && post.ena_high == pre.ena_high
    } else {
        post.ena_high == pre.ena_high & !(1u32 << ((index - BANK_WIDTH) as u32)) && post.ena_low
            == pre.ena_low
    })
}

/// An unconfigured ETM channel. It owns no external resource; configuring it
/// consumes the value.
pub struct EtmChannel {
    index: u8,
}

impl EtmChannel {
    /// The channel's fixed hardware index.
    pub closed spec fn index_spec(&self) -> int {
        self.index as int
    }

    #[verifier::type_invariant]
    spec fn inv(&self) -> bool {
        (self.index as usize) < CHANNEL_COUNT
    }

    /// Reads the channel's fixed hardware index.
    pub fn index(&self) -> (r: u8)
        ensures
            r as int == self.index_spec(),
            (r as usize) < CHANNEL_COUNT,
    {
        proof {
            use_type_invariant(&*self);
        }
        self.index
    }

    /// Configures and enables the channel.
    ///
    /// In order: writes `event.id()` into the channel's event-id register
    /// field (the field is a full byte wide, so the id is stored exactly),
    /// writes `task.id()` into its task-id register field, sets the
    /// channel's enable bit by writing a 1 to its bank's *set* strobe
    /// register at the channel's bit offset, and acquires a peripheral usage
    /// token. No other channel's enable bit or id field changes. The returned
    /// guard borrows the event and the task for exactly as long as it lives.
    pub fn setup<'a, E: EtmEvent, T: EtmTask>(
        self,
        event: &'a E,
        task: &'a T,
        regs: &mut EtmRegisterBlock,
        usage: &mut PeripheralUsage,
    ) -> (configured: EtmConfiguredChannel<'a, E, T>)
        requires
            old(usage).count_spec() < u64::MAX,
        ensures
            configure_effect(
                old(regs)@,
                final(regs)@,
                self.index_spec(),
                event.id_spec(),
                task.id_spec(),
            ),
            final(regs)@.wf(),
            final(regs)@.enabled(self.index_spec()),
            forall|j: int|
                0 <= j < CHANNEL_COUNT && j != self.index_spec() ==> final(regs)@.enabled(j) == old(
                    regs,
                )@.enabled(j),
            final(regs)@.evt_ids[self.index_spec()] == event.id_spec(),
            final(regs)@.task_ids[self.index_spec()] == task.id_spec(),
            forall|j: int|
                0 <= j < CHANNEL_COUNT && j != self.index_spec() ==> final(regs)@.evt_ids[j] == old(
                    regs,
                )@.evt_ids[j] && final(regs)@.task_ids[j] == old(regs)@.task_ids[j],
            final(usage).count_spec() == old(usage).count_spec() + 1,
            configured.index_spec() == self.index_spec(),
    {
        proof {
            use_type_invariant(&self);
        }
        let index = self.index;
        regs.write_event_id(index, event.id());
        regs.write_task_id(index, task.id());
        if index < 32 {
            regs.set_strobe_low(1u32 << (index as u32));
        } else {
            regs.set_strobe_high(1u32 << ((index - 32) as u32));
        }
        let token = usage.acquire();
        proof {
            let i = index as int;
            if index < 32 {
                lemma_set_bit_effect(old(regs)@.ena_low, index as u32, 0);
            } else {
                lemma_set_bit_effect(old(regs)@.ena_high, (index - 32) as u32, 0);
            }
            assert forall|j: int| 0 <= j < CHANNEL_COUNT && j != i implies regs@.enabled(j) == old(
                regs,
            )@.enabled(j) by {
                if index < 32 {
                    if j < BANK_WIDTH {
                        lemma_set_bit_effect(old(regs)@.ena_low, index as u32, j as u32);
                    }
                } else {
                    if j >= BANK_WIDTH {
                        lemma_set_bit_effect(
                            old(regs)@.ena_high,
                            (index - 32) as u32,
                            (j - BANK_WIDTH) as u32,
                        );
                    }
                }
            }
        }
        EtmConfiguredChannel { _event: event, _task: task, index, token }
    }
}

/// A readily configured channel: enabled, with its event and task ids
/// written. Holds non-owning borrows of the event and the task plus the
/// peripheral usage token, and must be released exactly once through
/// [`EtmConfiguredChannel::release`].
pub struct EtmConfiguredChannel<'a, E: EtmEvent, T: EtmTask> {
    _event: &'a E,
    _task: &'a T,
    index: u8,
    token: UsageToken,
}

impl<'a, E: EtmEvent, T: EtmTask> EtmConfiguredChannel<'a, E, T> {
    /// The configured channel's fixed hardware index.
    pub closed spec fn index_spec(&self) -> int {
        self.index as int
    }

    #[verifier::type_invariant]
    spec fn inv(&self) -> bool {
        (self.index as usize) < CHANNEL_COUNT
    }

    /// Reads the configured channel's fixed hardware index.
    pub fn index(&self) -> (r: u8)
        ensures
            r as int == self.index_spec(),
            (r as usize) < CHANNEL_COUNT,
    {
        proof {
            use_type_invariant(&*self);
        }
        self.index
    }

    /// Releases the channel: clears its enable bit by writing a 1 to its
    /// bank's *clear* strobe register at the same bit offset used at
    /// configuration, then gives the usage token back. The id register
    /// fields are not zeroed; no other channel is touched.
    pub fn release(self, regs: &mut EtmRegisterBlock, usage: &mut PeripheralUsage)
        ensures
            release_effect(old(regs)@, final(regs)@, self.index_spec()),
            final(regs)@.wf(),
            !final(regs)@.enabled(self.index_spec()),
            forall|j: int|
                0 <= j < CHANNEL_COUNT && j != self.index_spec() ==> final(regs)@.enabled(j) == old(
                    regs,
                )@.enabled(j),
            final(regs)@.evt_ids == old(regs)@.evt_ids,
            final(regs)@.task_ids == old(regs)@.task_ids,
            final(usage).count_spec() == if old(usage).count_spec() > 0 {
                (old(usage).count_spec() - 1) as u64
            } else {
                0u64
            },
    {
        proof {
            use_type_invariant(&self);
        }
        let EtmConfiguredChannel { _event, _task, index, token } = self;
        disable_channel(index, regs);
        usage.release(token);
    }
}

/// Disables channel `channel` by writing a 1 to its bank's *clear* strobe
/// register at the channel's bit offset. No other channel's enable bit and
/// no id register field changes.
pub fn disable_channel(channel: u8, regs: &mut EtmRegisterBlock)
    requires
        (channel as usize) < CHANNEL_COUNT,
    ensures
        release_effect(old(regs)@, final(regs)@, channel as int),
        final(regs)@.wf(),
        !final(regs)@.enabled(channel as int),
        forall|j: int|
            0 <= j < CHANNEL_COUNT && j != channel ==> final(regs)@.enabled(j) == old(
                regs,
            )@.enabled(j),
        final(regs)@.evt_ids == old(regs)@.evt_ids,
        final(regs)@.task_ids == old(regs)@.task_ids,
{
    if channel < 32 {
        regs.clear_strobe_low(1u32 << (channel as u32));
    } else {
        regs.clear_strobe_high(1u32 << ((channel - 32) as u32));
    }
    proof {
        let i = channel as int;
        if channel < 32 {
            lemma_clear_bit_effect(old(regs)@.ena_low, channel as u32, 0);
        } else {
            lemma_clear_bit_effect(old(regs)@.ena_high, (channel - 32) as u32, 0);
        }
        assert forall|j: int| 0 <= j < CHANNEL_COUNT && j != i implies regs@.enabled(j) == old(
            regs,
        )@.enabled(j) by {
            if channel < 32 {
                if j < BANK_WIDTH {
                    lemma_clear_bit_effect(old(regs)@.ena_low, channel as u32, j as u32);
                }
            } else {
                if j >= BANK_WIDTH {
                    lemma_clear_bit_effect(
                        old(regs)@.ena_high,
                        (channel - 32) as u32,
                        (j - BANK_WIDTH) as u32,
                    );
                }
            }
        }
    }
}

/// The matrix: owns the peripheral handle and the complete fixed set of
/// channels, constructed once.
pub struct Etm {
    _peripheral: EtmPeripheral,
    channels: Vec<Option<EtmChannel>>,
}

impl Etm {
    /// The channel slots: slot `i` holds the unconfigured channel of index
    /// `i` until that channel is claimed, and `None` afterwards.
    pub closed spec fn slots(&self) -> Seq<Option<EtmChannel>> {
        self.channels@
    }

    /// The matrix still has its full slot array, and an unclaimed slot `i`
    /// can hold nothing but the channel of index `i`. Established at
    /// construction and kept by every claim.
    pub closed spec fn wf(&self) -> bool {
        &&& self.channels@.len() == CHANNEL_COUNT
        &&& forall|i: int|
            0 <= i < CHANNEL_COUNT ==> ((#[trigger] self.channels@[i]) matches Some(c)
                ==> c.index_spec() == i)
    }

    /// Builds the matrix over the exclusively owned peripheral handle,
    /// producing exactly one unconfigured channel per index: no duplicates,
    /// no missing indices.
    pub fn new(peripheral: EtmPeripheral) -> (matrix: Etm)
        ensures
            matrix.wf(),
            matrix.slots().len() == CHANNEL_COUNT,
            forall|i: int|
                0 <= i < CHANNEL_COUNT ==> ((#[trigger] matrix.slots()[i]) matches Some(c)
                    && c.index_spec() == i),
    {
        let mut channels: Vec<Option<EtmChannel>> = Vec::new();
        let mut i: usize = 0;
        while i < CHANNEL_COUNT
            invariant
                i <= CHANNEL_COUNT,
                channels@.len() == i,
                forall|k: int|
                    0 <= k < i ==> ((#[trigger] channels@[k]) matches Some(c) && c.index_spec()
                        == k),
            decreases CHANNEL_COUNT - i,
        {
            channels.push(Some(EtmChannel { index: i as u8 }));
            i = i + 1;
        }
        Etm { _peripheral: peripheral, channels }
    }

    /// Claims the unconfigured channel of index `index`. Each channel can be
    /// claimed at most once: a second claim of the same index, like a claim
    /// of an index out of range, returns `None`.
    pub fn claim(&mut self, index: u8) -> (r: Option<EtmChannel>)
        requires
            old(self).wf(),
        ensures
            final(self).wf(),
            final(self).slots() == (if (index as usize) < CHANNEL_COUNT {
                old(self).slots().update(index as int, None::<EtmChannel>)
            } else {
                old(self).slots()
            }),
            r == (if (index as usize) < CHANNEL_COUNT {
                old(self).slots()[index as int]
            } else {
                None::<EtmChannel>
            }),
            r matches Some(c) ==> c.index_spec() == index,
    {
        if (index as usize) < CHANNEL_COUNT {
            let mut taken: Option<EtmChannel> = None;
            self.channels.set_and_swap(index as usize, &mut taken);
            taken
        } else {
            None
        }
    }
}

/// Law: configuring channel `index` and then releasing it leaves every other
/// channel's enable bit and id register fields exactly as they were before
/// the configuration, leaves channel `index` disabled, and leaves the
/// configured ids in channel `index`'s id fields as don't-care values.
pub proof fn lemma_configure_then_release_preserves_others(
    r0: RegsView,
    r1: RegsView,
    r2: RegsView,
    index: int,
    event_id: u8,
    task_id: u8,
)
    requires
        r0.wf(),
        0 <= index < CHANNEL_COUNT,
        configure_effect(r0, r1, index, event_id, task_id),
        release_effect(r1, r2, index),
    ensures
        r2.wf(),
        !r2.enabled(index),
        r2.evt_ids[index] == event_id,
        r2.task_ids[index] == task_id,
        forall|j: int| 0 <= j < CHANNEL_COUNT && j != index ==> r2.enabled(j) == r0.enabled(j),
        forall|j: int|
            0 <= j < CHANNEL_COUNT && j != index ==> r2.evt_ids[j] == r0.evt_ids[j]
                && r2.task_ids[j] == r0.task_ids[j],
{
    if index < BANK_WIDTH {
        let b = index as u32;
        lemma_clear_bit_effect(r1.ena_low, b, 0);
        assert forall|j: int| 0 <= j < CHANNEL_COUNT && j != index implies r2.enabled(j)
            == r0.enabled(j) by {
            if j < BANK_WIDTH {
                lemma_set_bit_effect(r0.ena_low, b, j as u32);
                lemma_clear_bit_effect(r1.ena_low, b, j as u32);
            }
        }
    } else {
        let b = (index - BANK_WIDTH) as u32;
        lemma_clear_bit_effect(r1.ena_high, b, 0);
        assert forall|j: int| 0 <= j < CHANNEL_COUNT && j != index implies r2.enabled(j)
            == r0.enabled(j) by {
            if j >= BANK_WIDTH {
                lemma_set_bit_effect(r0.ena_high, b, (j - BANK_WIDTH) as u32);
                lemma_clear_bit_effect(r1.ena_high, b, (j - BANK_WIDTH) as u32);
            }
        }
    }
}

} // verus!
