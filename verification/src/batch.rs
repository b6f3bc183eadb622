//! The unit of tabular data that the pipeline carries.

use arrow::record_batch::RecordBatch;
use vstd::prelude::*;

verus! {

/// A chunk of rows with a fixed schema: an Arrow record batch, carried as it
/// is. The library never looks inside one and never changes one; callers
/// wrap a batch by naming the field and take it out again the same way.
///
/// The verifier sees nothing of what a batch holds. In contracts two batches
/// are equal when they are the same value.
#[verifier::external_body]
#[derive(Debug)]
pub struct Batch {
    pub inner: RecordBatch,
}

impl Clone for Batch {
    /// Calls `RecordBatch::clone`, which copies the row count and the shared
    /// handles of the schema and of each column. Not proved: that the copy
    /// is the same value as the batch it was taken of.
    #[verifier::external_body]
    fn clone(&self) -> (copy: Self)
        ensures
            copy == *self,
    {
        Batch { inner: self.inner.clone() }
    }
}

/// Copies a list of batches.
pub fn clone_batches(batches: &Vec<Batch>) -> (copy: Vec<Batch>)
    ensures
        copy@ == batches@,
{
    let copy = batches.clone();
    assert(copy@ =~= batches@);
    copy
}

} // verus!
