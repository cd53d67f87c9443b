//! Benchmark weights for the document-signature operations.
//!
//! A weight is a pair of plain integers: reference time in picoseconds and
//! proof size in bytes. The database access costs are those of the rocks-db
//! backend: 25 000 000 picoseconds for a read and 100 000 000 for a write.

use vstd::prelude::*;

verus! {

pub const DB_READ_REF_TIME: u64 = 25_000_000;
pub const DB_WRITE_REF_TIME: u64 = 100_000_000;

/// Computational weight of one operation: reference time and proof size.
#[derive(Clone, Copy, PartialEq, Eq, Structural, Debug)]
pub struct Weight {
    pub ref_time: u64,
    pub proof_size: u64,
}

impl Weight {
    pub fn from_parts(ref_time: u64, proof_size: u64) -> (r: Weight)
        ensures
            r == (Weight { ref_time, proof_size }),
    {
        Weight { ref_time, proof_size }
    }

    /// Add two weights, saturating each component at its maximum.
    pub fn saturating_add(self, other: Weight) -> (r: Weight)
        ensures
            r.ref_time == if self.ref_time + other.ref_time <= u64::MAX {
                self.ref_time + other.ref_time
            } else {
                u64::MAX as int
            },
            r.proof_size == if self.proof_size + other.proof_size <= u64::MAX {
                self.proof_size + other.proof_size
            } else {
                u64::MAX as int
            },
    {
        let ref_time = if self.ref_time <= u64::MAX - other.ref_time {
            self.ref_time + other.ref_time
        } else {
            u64::MAX
        };
        let proof_size = if self.proof_size <= u64::MAX - other.proof_size {
            self.proof_size + other.proof_size
        } else {
            u64::MAX
        };
        Weight { ref_time, proof_size }
    }
}

/// Cost of `n` database reads.
pub fn db_reads(n: u64) -> (r: Weight)
    requires
        n <= 1000,
    ensures
        r == (Weight { ref_time: (n * DB_READ_REF_TIME) as u64, proof_size: 0u64 }),
{
    Weight { ref_time: n * DB_READ_REF_TIME, proof_size: 0 }
}

/// Cost of `n` database writes.
pub fn db_writes(n: u64) -> (r: Weight)
    requires
        n <= 1000,
    ensures
        r == (Weight { ref_time: (n * DB_WRITE_REF_TIME) as u64, proof_size: 0u64 }),
{
    Weight { ref_time: n * DB_WRITE_REF_TIME, proof_size: 0 }
}

/// Weight of each document-signature operation.
pub trait WeightInfo {
    fn new_document() -> Weight;

    fn destroy_document() -> Weight;

    fn sign_document() -> Weight;

    fn store_publickey() -> Weight;

    fn new_blob() -> Weight;

    fn destroy_blob() -> Weight;
}

/// The measured weights: each operation costs its measured execution time
/// plus one database read and one write (two reads for `destroy_blob`).
pub struct SubstrateWeight;

impl WeightInfo for SubstrateWeight {
    fn new_document() -> (r: Weight) {
        Weight::from_parts(4_000_000, 0).saturating_add(Weight::from_parts(0, 3471))
            .saturating_add(db_reads(1)).saturating_add(db_writes(1))
    }

    fn destroy_document() -> (r: Weight) {
        Weight::from_parts(6_000_000, 0).saturating_add(Weight::from_parts(0, 3631))
            .saturating_add(db_reads(1)).saturating_add(db_writes(1))
    }

    fn sign_document() -> (r: Weight) {
        Weight::from_parts(4_000_000, 0).saturating_add(Weight::from_parts(0, 3471))
            .saturating_add(db_reads(1)).saturating_add(db_writes(1))
    }

    fn store_publickey() -> (r: Weight) {
        Weight::from_parts(4_000_000, 0).saturating_add(Weight::from_parts(0, 3471))
            .saturating_add(db_reads(1)).saturating_add(db_writes(1))
    }

    fn new_blob() -> (r: Weight) {
        Weight::from_parts(5_000_000, 0).saturating_add(Weight::from_parts(0, 3471))
            .saturating_add(db_reads(1)).saturating_add(db_writes(1))
    }

    fn destroy_blob() -> (r: Weight) {
        Weight::from_parts(9_000_000, 0).saturating_add(Weight::from_parts(0, 13588))
            .saturating_add(db_reads(2)).saturating_add(db_writes(1))
    }
}

/// The same weight table, on the unit type, for callers that take the
/// defaults.
impl WeightInfo for () {
    fn new_document() -> (r: Weight) {
        SubstrateWeight::new_document()
    }

    fn destroy_document() -> (r: Weight) {
        SubstrateWeight::destroy_document()
    }

    fn sign_document() -> (r: Weight) {
        SubstrateWeight::sign_document()
    }

    fn store_publickey() -> (r: Weight) {
        SubstrateWeight::store_publickey()
    }

    fn new_blob() -> (r: Weight) {
        SubstrateWeight::new_blob()
    }

    fn destroy_blob() -> (r: Weight) {
        SubstrateWeight::destroy_blob()
    }
}

} // verus!
