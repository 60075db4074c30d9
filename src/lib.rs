//! Native execution core: the producer side of the batch exchange, the
//! partitioned segment reader, the execution handle table, the process-wide
//! runtime state and the fault boundary's recovery policy.
pub mod exchange;
pub mod fault;
pub mod handles;
pub mod runtime;
pub mod segment;
pub mod shuffle_reader;
