//! Model of the external descriptive-metadata registry: the durable map
//! from derived record address to descriptive record. Its one primitive,
//! `create`, binds a record to an address and fails on address collision
//! without writing anything.

use vstd::prelude::*;
use crate::error::MarketplaceError;
use crate::records::DescriptiveRecord;

verus! {

/// One registry entry: the derived record address, the asset identity the
/// record is bound to, and the record itself.
pub struct MetadataEntry {
    pub addr: Vec<u8>,
    pub asset: u64,
    pub record: DescriptiveRecord,
}

/// The descriptive-metadata registry.
pub struct MetadataRegistry {
    pub entries: Vec<MetadataEntry>,
}

/// Whether some entry of `entries` occupies the address `addr`.
pub open spec fn reg_contains_addr(entries: Seq<MetadataEntry>, addr: Seq<u8>) -> bool {
    exists|i: int| 0 <= i < entries.len() && entries[i].addr@ == addr
}

/// Registry invariant: every address is occupied by at most one entry.
pub open spec fn reg_wf(entries: Seq<MetadataEntry>) -> bool {
    forall|i: int, j: int|
        0 <= i < j < entries.len() ==> entries[i].addr@ != entries[j].addr@
}

/// Byte-wise equality of two addresses.
fn bytes_eq(a: &Vec<u8>, b: &Vec<u8>) -> (r: bool)
    ensures
        r == (a@ == b@),
{
    if a.len() != b.len() {
        return false;
    }
    let mut i: usize = 0;
    while i < a.len()
        invariant
            0 <= i <= a@.len(),
            a@.len() == b@.len(),
            forall|j: int| 0 <= j < i ==> a@[j] == b@[j],
        decreases a@.len() - i,
    {
        if a[i] != b[i] {
            return false;
        }
        i = i + 1;
    }
    proof {
        assert(a@ =~= b@);
    }
    true
}

impl MetadataRegistry {
    /// An empty registry.
    pub fn new() -> (r: MetadataRegistry)
        ensures
            r.entries@.len() == 0,
            reg_wf(r.entries@),
    {
        MetadataRegistry { entries: Vec::new() }
    }

    /// Whether the registry already holds an entry at `addr`.
    pub fn contains_addr(&self, addr: &Vec<u8>) -> (r: bool)
        ensures
            r == reg_contains_addr(self.entries@, addr@),
    {
        let mut i: usize = 0;
        while i < self.entries.len()
            invariant
                0 <= i <= self.entries@.len(),
                forall|j: int| 0 <= j < i ==> self.entries@[j].addr@ != addr@,
            decreases self.entries@.len() - i,
        {
            if bytes_eq(&self.entries[i].addr, addr) {
                return true;
            }
            i = i + 1;
        }
        false
    }

    /// Registry primitive: bind `record` for `asset` at `addr`. Fails with
    /// `DuplicateAsset` — writing nothing — exactly when the address is
    /// already occupied.
    pub fn create(&mut self, addr: Vec<u8>, asset: u64, record: DescriptiveRecord) -> (r: Result<
        (),
        MarketplaceError,
    >)
        ensures
            r is Ok <==> !reg_contains_addr(old(self).entries@, addr@),
            r is Ok ==> final(self).entries@ =~= old(self).entries@.push(
                (MetadataEntry { addr: addr, asset: asset, record: record }),
            ),
            r is Err ==> *final(self) == *old(self) && r == Err::<(), MarketplaceError>(
                MarketplaceError::DuplicateAsset,
            ),
            reg_wf(old(self).entries@) ==> reg_wf(final(self).entries@),
    {
        if self.contains_addr(&addr) {
            return Err(MarketplaceError::DuplicateAsset);
        }
        let ghost pre = self.entries@;
        self.entries.push(MetadataEntry { addr, asset, record });
        proof {
            assert forall|i: int, j: int|
                reg_wf(pre) && 0 <= i < j < self.entries@.len() implies self.entries@[i].addr@
                != self.entries@[j].addr@ by {
                if j < pre.len() {
                } else {
                    assert(self.entries@[j].addr@ == addr@);
                    assert(!reg_contains_addr(pre, addr@));
                }
            }
        }
        Ok(())
    }
}

} // verus!
