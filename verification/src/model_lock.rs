//! Cross-process advisory lock on a model, backed by a marker file that
//! records the owning process id.
//!
//! The decisions — how the marker file is named, what counts as a stale
//! marker, when an acquisition must fail with the holder's pid, and what a
//! successful acquisition must write — are made here. The caller performs
//! the observations and file operations the decisions ask for: it reads the
//! marker, probes whether the recorded process is alive, and creates or
//! removes the file.

use vstd::prelude::*;
use vstd::string::StrSliceExecFns;
use vstd::string::StringExecFns;

use crate::textutil::all_digits;
use crate::textutil::dec_rep;
use crate::textutil::dec_val;
use crate::textutil::parse_u64;
use crate::textutil::str_to_chars;
use crate::textutil::u64_to_string;

verus! {

/// Path separators and drive markers are replaced so a model id maps to a
/// single file name.
pub open spec fn sanitize_char(c: char) -> char {
    if c == '/' || c == '\\' || c == ':' {
        '_'
    } else {
        c
    }
}

/// The model id with every path separator replaced by an underscore.
pub open spec fn sanitized_id(s: Seq<char>) -> Seq<char> {
    s.map_values(|c: char| sanitize_char(c))
}

/// Name of the marker file that locks the given model id.
pub open spec fn spec_lock_file_name(model_id: Seq<char>) -> Seq<char> {
    "capi-model-"@ + sanitized_id(model_id) + ".lock"@
}

/// True when a marker's contents name the holding process: a non-empty
/// run of decimal digits whose value fits in a pid.
pub open spec fn parseable_pid(content: Seq<char>) -> bool {
    content.len() > 0 && all_digits(content) && dec_val(content) <= u64::MAX
}

/// Computes the marker file name for a model id, replacing `/`, `\` and
/// `:` with underscores.
pub fn lock_file_name(model_id: &str) -> (r: String)
    ensures
        r@ == spec_lock_file_name(model_id@),
{
    let mut r = "capi-model-".to_owned();
    let chars = str_to_chars(model_id);
    let n = chars.len();
    let mut i: usize = 0;
    while i < n
        invariant
            i <= n,
            n == model_id@.len(),
            chars@ == model_id@,
            r@ =~= "capi-model-"@ + sanitized_id(model_id@.subrange(0, i as int)),
        decreases n - i,
    {
        let c = chars[i];
        proof {
            let prev = sanitized_id(model_id@.subrange(0, i as int));
            let cur = sanitized_id(model_id@.subrange(0, i + 1));
            assert(cur =~= prev.push(sanitize_char(model_id@[i as int])));
        }
        if c == '/' || c == '\\' || c == ':' {
            r.append("_");
            proof {
                reveal_strlit("_");
                assert(r@ =~= "capi-model-"@ + sanitized_id(model_id@.subrange(0, i + 1)));
            }
        } else {
            r.append(model_id.substring_char(i, i + 1));
            proof {
                assert(model_id@.subrange(i as int, i + 1) =~= seq![model_id@[i as int]]);
                assert(sanitize_char(model_id@[i as int]) == model_id@[i as int]);
                assert(r@ =~= "capi-model-"@ + sanitized_id(model_id@.subrange(0, i + 1)));
            }
        }
        i = i + 1;
    }
    proof {
        assert(model_id@.subrange(0, n as int) =~= model_id@);
    }
    r.append(".lock");
    r
}

/// Handle for an acquired model lock. Whoever owns the handle owns the
/// marker file; releasing the handle names the file to remove.
#[derive(Debug, Clone)]
pub struct ModelLock {
    pub lock_path: String,
    pub owning_pid: u64,
}

/// Acquisition refused: the model is locked by a live process.
#[derive(Debug, Clone, Copy)]
pub struct LockBusy {
    pub pid: u64,
}

/// File-system work that completes a granted acquisition.
#[derive(Debug, Clone)]
pub struct AcquirePlan {
    /// An old marker exists and must be removed before the new one is
    /// written: it was stale (dead holder) or unreadable.
    pub remove_stale_first: bool,
    /// Name of the marker file.
    pub marker_name: String,
    /// Contents of the new marker: this process's id in decimal.
    pub marker_content: String,
    /// The handle that owns the marker once it is written.
    pub handle: ModelLock,
}

impl ModelLock {
    /// Decides an acquisition attempt for `model_id` given what the caller
    /// observed: the current marker contents (if a marker exists) and, for
    /// a marker naming a pid, whether that process is alive.
    ///
    /// The attempt is refused exactly when the marker names a live process.
    /// A marker naming a dead process, or one that cannot be parsed as a
    /// pid, is stale: the plan orders its removal and the acquisition
    /// proceeds.
    pub fn try_acquire(
        model_id: &str,
        marker: &Option<String>,
        holder_alive: bool,
        current_pid: u64,
    ) -> (r: Result<AcquirePlan, LockBusy>)
        ensures
            ({
                let refused = marker matches Some(content) && parseable_pid(content@)
                    && holder_alive;
                match r {
                    Err(busy) => refused && (marker matches Some(content) && busy.pid == dec_val(
                        content@,
                    )),
                    Ok(plan) => {
                        &&& !refused
                        &&& plan.remove_stale_first <==> marker is Some
                        &&& plan.marker_name@ == spec_lock_file_name(model_id@)
                        &&& plan.marker_content@ == dec_rep(current_pid as nat)
                        &&& plan.handle.lock_path@ == spec_lock_file_name(model_id@)
                        &&& plan.handle.owning_pid == current_pid
                    },
                }
            }),
    {
        let remove_stale_first: bool = match marker {
            Option::Some(content) => {
                match parse_u64(content.as_str()) {
                    Option::Some(pid) => {
                        if holder_alive {
                            return Err(LockBusy { pid });
                        }
                        true
                    },
                    Option::None => true,
                }
            },
            Option::None => false,
        };
        let marker_name = lock_file_name(model_id);
        let handle = ModelLock { lock_path: marker_name.clone(), owning_pid: current_pid };
        Ok(
            AcquirePlan {
                remove_stale_first,
                marker_name,
                marker_content: u64_to_string(current_pid),
                handle,
            },
        )
    }

    /// Consumes the handle and names the marker file that must now be
    /// removed. Release is unconditional: every exit path that owns a
    /// handle ends here.
    pub fn release(self) -> (path: String)
        ensures
            path@ == self.lock_path@,
    {
        self.lock_path
    }

    /// Name of the marker an operator wants removed by force.
    pub fn force_release_name(model_id: &str) -> (r: String)
        ensures
            r@ == spec_lock_file_name(model_id@),
    {
        lock_file_name(model_id)
    }

    /// Maintenance check for one observed marker: it is reclaimable
    /// exactly when it does not name a live process.
    pub fn marker_is_stale(content: &str, holder_alive: bool) -> (r: bool)
        ensures
            r == !(parseable_pid(content@) && holder_alive),
    {
        match parse_u64(content) {
            Option::Some(_) => !holder_alive,
            Option::None => true,
        }
    }
}

} // verus!
