//! Capability interfaces for event sources and task sinks.
//!
//! A concrete peripheral binding implements [`EtmEvent`] or [`EtmTask`] by
//! supplying the small numeric identifier the hardware understands. The core
//! does not interpret what an identifier means.

use vstd::prelude::*;

verus! {

/// A hardware occurrence usable as a channel's trigger source.
pub trait EtmEvent {
    /// The event identifier, as seen in specifications.
    spec fn id_spec(&self) -> u8;

    /// Returns the numeric event identifier understood by the hardware.
    fn id(&self) -> (r: u8)
        ensures
            r == self.id_spec(),
    ;
}

/// A hardware action triggered by a channel.
pub trait EtmTask {
    /// The task identifier, as seen in specifications.
    spec fn id_spec(&self) -> u8;

    /// Returns the numeric task identifier understood by the hardware.
    fn id(&self) -> (r: u8)
        ensures
            r == self.id_spec(),
    ;
}

/// An event source identified by nothing but its raw numeric code.
pub struct RawEvent {
    pub code: u8,
}

impl EtmEvent for RawEvent {
    open spec fn id_spec(&self) -> u8 {
        self.code
    }

    fn id(&self) -> u8 {
        self.code
    }
}

/// A task sink identified by nothing but its raw numeric code.
pub struct RawTask {
    pub code: u8,
}

impl EtmTask for RawTask {
    open spec fn id_spec(&self) -> u8 {
        self.code
    }

    fn id(&self) -> u8 {
        self.code
    }
}

} // verus!
