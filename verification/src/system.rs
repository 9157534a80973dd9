//! The peripheral handle and the clock/power usage count.

use vstd::prelude::*;

verus! {

/// Exclusive handle to the ETM hardware block, required once at matrix
/// construction. Opaque to the core; exclusive ownership is assumed to be
/// established upstream.
#[non_exhaustive]
pub struct EtmPeripheral {}

impl EtmPeripheral {
    /// Takes the ETM hardware block. The caller is responsible for holding
    /// exclusive ownership of the block before calling this.
    pub fn new() -> EtmPeripheral {
        EtmPeripheral {  }
    }
}

/// Witness of one acquisition of the peripheral usage count. Obtained only
/// from [`PeripheralUsage::acquire`] and given back on release.
#[non_exhaustive]
pub struct UsageToken {}

/// Reference count that keeps the peripheral's clock/power domain active
/// while at least one channel is configured.
pub struct PeripheralUsage {
    count: u64,
}

impl PeripheralUsage {
    /// The number of currently outstanding usage tokens.
    pub closed spec fn count_spec(&self) -> u64 {
        self.count
    }

    /// A fresh count with no outstanding token.
    pub fn new() -> (r: PeripheralUsage)
        ensures
            r.count_spec() == 0,
    {
        PeripheralUsage { count: 0 }
    }

    /// Reads the number of outstanding tokens.
    pub fn count(&self) -> (r: u64)
        ensures
            r == self.count_spec(),
    {
        self.count
    }

    /// Takes one usage token, keeping the peripheral powered and clocked.
    pub fn acquire(&mut self) -> (token: UsageToken)
        requires
            old(self).count_spec() < u64::MAX,
        ensures
            final(self).count_spec() == old(self).count_spec() + 1,
    {
        self.count = self.count + 1;
        UsageToken {  }
    }

    /// Gives one usage token back. Releasing more often than was acquired is
    /// a no-op at zero.
    pub fn release(&mut self, _token: UsageToken)
        ensures
            final(self).count_spec() == if old(self).count_spec() > 0 {
                (old(self).count_spec() - 1) as u64
            } else {
                0u64
            },
    {
        if self.count > 0 {
            self.count = self.count - 1;
        }
    }
}

} // verus!
