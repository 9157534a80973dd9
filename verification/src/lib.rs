//! Event Task Matrix (ETM) channel driver.
//!
//! The ETM lets one peripheral notify another of an event without CPU
//! mediation: a fixed set of hardware channels each bind an event source to a
//! task sink. Configuring a channel writes the event and task identifiers into
//! that channel's registers and sets its enable bit through a one-directional
//! *set* strobe register; releasing the channel clears the bit through the
//! matching *clear* strobe register.
//!
//! The register block is modelled bit-exactly as plain data
//! ([`registers::EtmRegisterBlock`]), so every register effect of configuring
//! and releasing a channel is stated in the contracts and proved.

pub mod capability;
pub mod channel;
pub mod registers;
pub mod system;

pub use capability::{EtmEvent, EtmTask, RawEvent, RawTask};
pub use channel::{disable_channel, Etm, EtmChannel, EtmConfiguredChannel};
pub use registers::{bank_and_bit, EtmRegisterBlock, RegsView, BANK_WIDTH, CHANNEL_COUNT};
pub use system::{EtmPeripheral, PeripheralUsage, UsageToken};
