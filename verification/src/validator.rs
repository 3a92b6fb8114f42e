//! Pre-flight resource validation: decides, before any memory is committed,
//! whether an estimated model footprint fits the selected memory pool.
//!
//! The policy is fixed: a load within 80% of the available pool is safe,
//! one within 95% is accepted with a warning, and one beyond 95% is refused
//! under `Strict` mode and downgraded to a warning under `Loose` mode.

use vstd::prelude::*;
use vstd::string::StringExecFns;

use crate::config::ResourceMode;
use crate::hardware::SystemResources;
use crate::textutil::contains_chars_ci;
use crate::textutil::contains_ci;
use crate::textutil::dec_rep;
use crate::textutil::u64_to_string;

verus! {

/// Verdict of the pre-flight resource validation.
#[derive(Debug, Clone)]
pub enum ValidationResult {
    Sufficient,
    Warning { message: String },
    Insufficient { message: String },
}

/// True when the estimate stays within 80% of the available pool
/// (`estimated <= 0.8 * available`, compared exactly).
pub open spec fn within_safe_threshold(estimated: u64, available: u64) -> bool {
    5 * estimated <= 4 * available
}

/// True when the estimate stays within 95% of the available pool
/// (`estimated <= 0.95 * available`, compared exactly).
pub open spec fn within_tight_threshold(estimated: u64, available: u64) -> bool {
    20 * estimated <= 19 * available
}

/// True when the requested device names a graphics device, compared
/// ASCII-case-insensitively.
pub open spec fn spec_device_names_gpu(device: Seq<char>) -> bool {
    contains_chars_ci(device, "GPU"@)
}

/// The memory pool the validation is judged against: the first
/// accelerator's available memory for a graphics device, host RAM otherwise.
pub open spec fn spec_selected_pool(device: Seq<char>, resources: SystemResources) -> u64
    recommends
        !(spec_device_names_gpu(device) && resources.gpu_resources@.len() == 0),
{
    if spec_device_names_gpu(device) {
        resources.gpu_resources@[0].available_vram_bytes
    } else {
        resources.available_ram_bytes
    }
}

/// Shortfall message: the number of bytes needed and available, and which
/// pool they refer to.
pub open spec fn spec_shortfall_message(
    lead: Seq<char>,
    estimated: u64,
    available: u64,
    pool_name: Seq<char>,
) -> Seq<char> {
    lead + dec_rep(estimated as nat) + " bytes, available "@ + dec_rep(available as nat)
        + " bytes "@ + pool_name
}

/// Builds a shortfall message from its parts.
fn shortfall_message(lead: &str, estimated: u64, available: u64, pool_name: &str) -> (r: String)
    ensures
        r@ == spec_shortfall_message(lead@, estimated, available, pool_name@),
{
    let mut r = lead.to_owned();
    r.append(u64_to_string(estimated).as_str());
    r.append(" bytes, available ");
    r.append(u64_to_string(available).as_str());
    r.append(" bytes ");
    r.append(pool_name);
    r
}

/// Decides whether a model whose runtime footprint is estimated at
/// `estimated_memory` bytes may be loaded on `device` given the current
/// resource snapshot.
///
/// A graphics device with no accelerator pool in the snapshot is refused
/// outright; host RAM is never used as a silent fallback. Otherwise the
/// verdict follows the fixed 80%/95% thresholds, with `Loose` mode turning
/// an over-tight refusal into a warning.
pub fn validate_model_load(
    estimated_memory: u64,
    device: &str,
    system_resources: &SystemResources,
    mode: &ResourceMode,
) -> (r: ValidationResult)
    ensures
        ({
            let gpu = spec_device_names_gpu(device@);
            let missing = gpu && system_resources.gpu_resources@.len() == 0;
            let pool = spec_selected_pool(device@, *system_resources);
            &&& missing ==> (r matches ValidationResult::Insufficient { message } && message@
                == "graphics device requested but no accelerator was found"@)
            &&& !missing ==> {
                &&& r is Sufficient <==> within_safe_threshold(estimated_memory, pool)
                &&& r is Warning <==> !within_safe_threshold(estimated_memory, pool) && (
                within_tight_threshold(estimated_memory, pool) || mode is Loose)
                &&& r is Insufficient <==> !within_tight_threshold(estimated_memory, pool)
                    && mode is Strict
            }
            &&& !missing && !within_safe_threshold(estimated_memory, pool)
                && within_tight_threshold(estimated_memory, pool) ==> (r matches
            ValidationResult::Warning { message } && message@ == spec_shortfall_message(
                "memory is tight: need "@,
                estimated_memory,
                pool,
                if gpu {
                    "GPU VRAM"@
                } else {
                    "RAM"@
                },
            ))
            &&& !missing && !within_tight_threshold(estimated_memory, pool) && !(r is Sufficient)
                ==> ({
                let message = spec_shortfall_message(
                    "insufficient memory: need "@,
                    estimated_memory,
                    pool,
                    if gpu {
                        "GPU VRAM"@
                    } else {
                        "RAM"@
                    },
                );
                match r {
                    ValidationResult::Warning { message: m } => m@ == message,
                    ValidationResult::Insufficient { message: m } => m@ == message,
                    ValidationResult::Sufficient => false,
                }
            })
        }),
{
    let is_gpu = contains_ci(device, "GPU");
    let (available, pool_name): (u64, &str) = if is_gpu {
        if system_resources.gpu_resources.len() > 0 {
            (system_resources.gpu_resources[0].available_vram_bytes, "GPU VRAM")
        } else {
            return ValidationResult::Insufficient {
                message: "graphics device requested but no accelerator was found".to_owned(),
            };
        }
    } else {
        (system_resources.available_ram_bytes, "RAM")
    };

    if (estimated_memory as u128) * 5 <= (available as u128) * 4 {
        ValidationResult::Sufficient
    } else if (estimated_memory as u128) * 20 <= (available as u128) * 19 {
        let message = shortfall_message(
            "memory is tight: need ",
            estimated_memory,
            available,
            pool_name,
        );
        ValidationResult::Warning { message }
    } else {
        let message = shortfall_message(
            "insufficient memory: need ",
            estimated_memory,
            available,
            pool_name,
        );
        match mode {
            ResourceMode::Strict => ValidationResult::Insufficient { message },
            ResourceMode::Loose => ValidationResult::Warning { message },
        }
    }
}

} // verus!
