use vstd::prelude::*;

verus! {

/// Counters of work completed so far: rows and bytes the operator
/// pipeline has read while producing batches. An immutable copy of this
/// value is what status pollers receive as a snapshot.
#[derive(Debug, Clone, Copy, PartialEq, Eq, Structural)]
pub struct ProgressValues {
    pub read_rows: u64,
    pub read_bytes: u64,
}

impl ProgressValues {
    pub fn zero() -> (r: Self)
        ensures
            r == (ProgressValues { read_rows: 0, read_bytes: 0 }),
    {
        ProgressValues { read_rows: 0, read_bytes: 0 }
    }

    /// Accumulate completed work. The counters only ever advance, which
    /// is what makes successive snapshots monotonically non-decreasing.
    pub fn incr(&mut self, rows: u64, bytes: u64)
        requires
            old(self).read_rows + rows <= u64::MAX,
            old(self).read_bytes + bytes <= u64::MAX,
        ensures
            final(self).read_rows == old(self).read_rows + rows,
            final(self).read_bytes == old(self).read_bytes + bytes,
    {
        self.read_rows = self.read_rows + rows;
        self.read_bytes = self.read_bytes + bytes;
    }

    /// Pointwise order on snapshots: `other` reflects at least as much
    /// completed work as `self`.
    pub open spec fn le(self, other: ProgressValues) -> bool {
        self.read_rows <= other.read_rows && self.read_bytes <= other.read_bytes
    }
}

} // verus!
