//! The plan node that reads a shuffled partition.
use datafusion::arrow::datatypes::SchemaRef;
use datafusion::physical_plan::metrics::ExecutionPlanMetricsSet;
use vstd::prelude::*;

use crate::segment::{share_schema, ShuffleReaderStream};

verus! {

/// DataFusion's shared set of plan metrics, carried through unread.
#[verifier::external_type_specification]
#[verifier::external_body]
pub struct ExExecutionPlanMetricsSet(ExecutionPlanMetricsSet);

/// Relies on `ExecutionPlanMetricsSet::new`: a new, empty set of metrics.
pub assume_specification[ ExecutionPlanMetricsSet::new ]() -> ExecutionPlanMetricsSet;

/// Reads the partitions of one shuffle, named by `native_shuffle_id`.
pub struct ShuffleReaderExec {
    pub num_partitions: usize,
    pub native_shuffle_id: String,
    pub schema: SchemaRef,
    pub metrics: ExecutionPlanMetricsSet,
}

impl ShuffleReaderExec {
    pub fn new(num_partitions: usize, native_shuffle_id: String, schema: SchemaRef) -> (r:
        ShuffleReaderExec)
        ensures
            r.num_partitions == num_partitions,
            r.native_shuffle_id@ == native_shuffle_id@,
            r.schema == schema,
    {
        ShuffleReaderExec {
            num_partitions,
            native_shuffle_id,
            schema,
            metrics: ExecutionPlanMetricsSet::new(),
        }
    }

    /// The number of output partitions.
    pub fn output_partition_count(&self) -> (r: usize)
        ensures
            r == self.num_partitions,
    {
        self.num_partitions
    }

    /// A reader for one partition of this shuffle: nothing is read until the
    /// reader is polled.
    pub fn open_partition(&self) -> (r: ShuffleReaderStream)
        ensures
            r.wf(),
            !r.finished(),
            !r.segment_open(),
            r.schema_spec() == self.schema,
            r.opened() == 0,
            r.delivered() == Seq::<(nat, nat)>::empty(),
    {
        ShuffleReaderStream::new(share_schema(&self.schema))
    }
}

} // verus!
