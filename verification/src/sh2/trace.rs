//! A trace of the accesses that reach no device, or reach one by a mirror.

use crate::sh2::region::{check_bus_miss, miss_of, BusMiss};
use vstd::prelude::*;

verus! {

/// A kind of access that missed.
#[derive(Copy, Clone, Debug, PartialEq, Eq, Structural)]
pub struct MissEntry {
    /// The top three bits of the address.
    pub area: u32,
    /// The megabyte that the address lies in.
    pub block: u32,
    pub is_write: bool,
    /// Bytes that were accessed.
    pub width: u8,
    /// Why the first such access missed.
    pub reason: BusMiss,
}

/// The misses so far, each kind of access once.
#[derive(Clone, Debug)]
pub struct MissLog {
    pub entries: Vec<MissEntry>,
}

/// The entry for an access that missed.
pub open spec fn entry_of(address: u32, is_write: bool, width: u8, reason: BusMiss) -> MissEntry {
    MissEntry {
        area: address / 0x2000_0000,
        block: (address % 0x1000_0000 / 0x10_0000 * 0x10_0000) as u32,
        is_write,
        width,
        reason,
    }
}

/// Whether two entries are of one kind of access.
pub open spec fn same_access(a: MissEntry, b: MissEntry) -> bool {
    a.area == b.area && a.block == b.block && a.is_write == b.is_write && a.width == b.width
}

/// Whether a kind of access is among the misses.
pub open spec fn is_noted(log: Seq<MissEntry>, e: MissEntry) -> bool {
    exists|i: int| 0 <= i < log.len() && same_access(#[trigger] log[i], e)
}

/// The misses after an access.
pub open spec fn noted(log: Seq<MissEntry>, address: u32, is_write: bool, width: u8) -> Seq<
    MissEntry,
> {
    match miss_of(address) {
        Some(reason) => if is_noted(log, entry_of(address, is_write, width, reason)) {
            log
        } else {
            log.push(entry_of(address, is_write, width, reason))
        },
        None => log,
    }
}

/// The trace after an access. Without a trace nothing is noted.
#[verifier::opaque]
pub open spec fn traced(
    trace: Option<Seq<MissEntry>>,
    address: u32,
    is_write: bool,
    width: u8,
) -> Option<Seq<MissEntry>> {
    match trace {
        Some(log) => Some(noted(log, address, is_write, width)),
        None => None,
    }
}

impl MissLog {
    pub open spec fn view(&self) -> Seq<MissEntry> {
        self.entries@
    }

    /// No misses yet.
    pub fn new() -> (r: Self)
        ensures
            r@ == Seq::<MissEntry>::empty(),
    {
        Self { entries: Vec::new() }
    }

    /// Note an access if it misses and none of its kind has been noted.
    pub fn note(&mut self, address: u32, is_write: bool, width: u8)
        ensures
            final(self)@ == noted(old(self)@, address, is_write, width),
    {
        if let Some(reason) = check_bus_miss(address) {
            let e = MissEntry {
                area: address / 0x2000_0000,
                block: address % 0x1000_0000 / 0x10_0000 * 0x10_0000,
                is_write,
                width,
                reason,
            };
            let mut i: usize = 0;
            while i < self.entries.len()
                invariant
                    *self == *old(self),
                    i <= self.entries@.len(),
                    forall|j: int| 0 <= j < i ==> !same_access(#[trigger] self.entries@[j], e),
                    e == entry_of(address, is_write, width, reason),
                    miss_of(address) == Some(reason),
                decreases self.entries@.len() - i,
            {
                let o: MissEntry = self.entries[i];
                if o.area == e.area && o.block == e.block && o.is_write == e.is_write && o.width
                    == e.width {
                    assert(same_access(self.entries@[i as int], e));
                    return;
                }
                i += 1;
            }
            self.entries.push(e);
        }
    }
}

impl Default for MissLog {
    fn default() -> (r: Self)
        ensures
            r@ == Seq::<MissEntry>::empty(),
    {
        Self::new()
    }
}

/// A kind of access is noted once: a second access of that kind changes nothing.
pub proof fn misses_are_noted_once(
    log: Seq<MissEntry>,
    first: u32,
    second: u32,
    is_write: bool,
    width: u8,
)
    requires
        miss_of(first) is Some,
        first / 0x10_0000 == second / 0x10_0000,
    ensures
        noted(noted(log, first, is_write, width), second, is_write, width) == noted(
            log,
            first,
            is_write,
            width,
        ),
{
    let e = entry_of(first, is_write, width, miss_of(first)->0);
    let after = noted(log, first, is_write, width);
    if !is_noted(log, e) {
        assert(after[log.len() as int] == e);
    }
    assert(is_noted(after, e));
    if miss_of(second) is Some {
        let f = entry_of(second, is_write, width, miss_of(second)->0);
        assert(same_access(e, f));
        let i = choose|i: int| 0 <= i < after.len() && same_access(#[trigger] after[i], e);
        assert(same_access(after[i], f));
        assert(is_noted(after, f));
    }
}

} // verus!
