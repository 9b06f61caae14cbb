//! Columnar data: schemas and record batches of the Arrow format.

use vstd::prelude::*;

verus! {

/// `arrow::datatypes::Schema`, opaque to the verifier.
#[verifier::external_type_specification]
#[verifier::external_body]
pub struct ExSchema(arrow::datatypes::Schema);

/// `arrow::error::ArrowError`, opaque to the verifier.
#[verifier::external_type_specification]
#[verifier::external_body]
pub struct ExArrowError(arrow::error::ArrowError);

/// A batch of rows in columnar layout: an `arrow::record_batch::RecordBatch`
/// in `rows`. The verifier sees nothing inside it.
#[verifier::external_body]
#[derive(Debug)]
pub struct Batch {
    pub rows: arrow::record_batch::RecordBatch,
}

/// The number of rows that a batch holds.
pub uninterp spec fn batch_rows(batch: Batch) -> nat;

impl Clone for Batch {
    /// `RecordBatch::clone`: the copy shares the columns of the batch and is
    /// equal to it.
    #[verifier::external_body]
    fn clone(&self) -> (copy: Batch)
        ensures
            copy == *self,
    {
        Batch { rows: self.rows.clone() }
    }
}

/// `RecordBatch::num_rows`: the row count that the batch was built with.
#[verifier::external_body]
pub(crate) fn count_rows(batch: &Batch) -> (rows: usize)
    ensures
        rows == batch_rows(*batch),
{
    batch.rows.num_rows()
}

} // verus!
