//! Estimation of the runtime memory footprint of a model from its on-disk
//! size: weights plus KV cache and runtime overhead, taken as 1.5x file size.

use vstd::prelude::*;

verus! {

/// Estimated memory requirement of a model, derived from its file size.
#[derive(Debug, Clone, Copy)]
pub struct MemoryEstimate {
    pub file_size_bytes: u64,
    pub estimated_runtime_bytes: u64,
}

/// Runtime memory is approximated as 1.5x the on-disk size (weights plus
/// KV cache and overhead), saturating at the largest representable count.
pub open spec fn spec_estimated_runtime_bytes(file_size_bytes: u64) -> u64 {
    if file_size_bytes + file_size_bytes / 2 <= u64::MAX {
        (file_size_bytes + file_size_bytes / 2) as u64
    } else {
        u64::MAX
    }
}

/// Ballpark estimate of the memory needed to run a model whose artifact
/// occupies `file_size_bytes` on disk.
pub fn estimate_memory_from_file_size(file_size_bytes: u64) -> (r: MemoryEstimate)
    ensures
        r.file_size_bytes == file_size_bytes,
        r.estimated_runtime_bytes == spec_estimated_runtime_bytes(file_size_bytes),
{
    let half: u64 = file_size_bytes / 2;
    let estimated_runtime_bytes: u64 = if file_size_bytes <= u64::MAX - half {
        file_size_bytes + half
    } else {
        u64::MAX
    };
    MemoryEstimate { file_size_bytes, estimated_runtime_bytes }
}

} // verus!
