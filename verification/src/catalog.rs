//! The device catalog.
//!
//! Enumeration assigns each discovered device a stable 1-based ordinal,
//! in enumeration order, and keeps only plain identity data: the opaque
//! identifier token used to reconnect to the device later, its name and
//! its description. No live handle is retained, so selection is fully
//! decoupled from connection. An enumeration that finds no device
//! yields an empty catalog, which is "nothing to scan", not an error.
use vstd::prelude::*;

verus! {

/// Identity of one discovered device. Immutable once created.
#[derive(Debug, Clone, PartialEq, Eq)]
pub struct DeviceRecord {
    /// 1-based position in enumeration order, stable within one pass.
    pub ordinal: usize,
    /// Opaque token sufficient to reconnect to the device by itself.
    pub identifier: String,
    pub name: String,
    pub description: String,
}

/// The ordered devices one enumeration pass discovered.
pub struct DeviceCatalog {
    records: Vec<DeviceRecord>,
}

impl DeviceCatalog {
    /// The records in enumeration order.
    pub closed spec fn records_seq(&self) -> Seq<DeviceRecord> {
        self.records@
    }

    /// Every record sits at the position its ordinal names: the record
    /// with ordinal `k` is the `k`-th device found, counting from 1.
    pub open spec fn wf(&self) -> bool {
        forall|i: int|
            0 <= i < self.records_seq().len() ==> (#[trigger] self.records_seq()[i]).ordinal == i
                + 1
    }

    /// An empty catalog, the result of an enumeration pass that found
    /// no device.
    pub fn new() -> (catalog: DeviceCatalog)
        ensures
            catalog.wf(),
            catalog.records_seq() == Seq::<DeviceRecord>::empty(),
    {
        let catalog = DeviceCatalog { records: Vec::new() };
        proof {
            assert(catalog.records_seq() =~= Seq::<DeviceRecord>::empty());
        }
        catalog
    }

    /// Appends the next discovered device, assigning it the next
    /// ordinal in enumeration order.
    pub fn add_device(&mut self, identifier: String, name: String, description: String)
        requires
            old(self).wf(),
            old(self).records_seq().len() < usize::MAX,
        ensures
            final(self).wf(),
            final(self).records_seq() == old(self).records_seq().push(
                DeviceRecord {
                    ordinal: (old(self).records_seq().len() + 1) as usize,
                    identifier,
                    name,
                    description,
                },
            ),
    {
        let ordinal = self.records.len() + 1;
        self.records.push(DeviceRecord { ordinal, identifier, name, description });
    }

    /// How many devices the pass discovered.
    pub fn device_count(&self) -> (n: usize)
        ensures
            n == self.records_seq().len(),
    {
        self.records.len()
    }

    /// Whether there is anything to scan at all; with an empty catalog
    /// the caller must not offer a scan.
    pub fn has_devices(&self) -> (r: bool)
        ensures
            r == (self.records_seq().len() > 0),
    {
        self.records.len() > 0
    }

    /// All records, for display in enumeration order.
    pub fn records(&self) -> (r: &Vec<DeviceRecord>)
        ensures
            r@ == self.records_seq(),
    {
        &self.records
    }

    /// The device a 1-based ordinal selects: `Some` exactly for the
    /// ordinals the pass assigned, and the record returned is the one
    /// that carries that ordinal.
    pub fn lookup(&self, ordinal: usize) -> (r: Option<&DeviceRecord>)
        requires
            self.wf(),
        ensures
            r is Some <==> 1 <= ordinal <= self.records_seq().len(),
            match r {
                Some(record) => *record == self.records_seq()[ordinal - 1] && record.ordinal
                    == ordinal,
                None => true,
            },
    {
        if 1 <= ordinal && ordinal <= self.records.len() {
            Some(&self.records[ordinal - 1])
        } else {
            None
        }
    }
}

} // verus!
