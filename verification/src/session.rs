//! One loaded inference session: its chat-mode state machine, its context
//! bookkeeping, the commands it issues to the native engine, and the
//! planning that gates a load behind the resource validator.
//!
//! The native engine itself runs outside this crate; a session here holds
//! the state the engine's owner must keep, and every engine call is derived
//! from a command value this module constructs.

use vstd::prelude::*;
use vstd::string::StringExecFns;

use crate::config::ResourceMode;
use crate::hardware::SystemResources;
use crate::memory::MemoryEstimate;
use crate::memory::estimate_memory_from_file_size;
use crate::memory::spec_estimated_runtime_bytes;
use crate::model_lock::ModelLock;
use crate::textutil::dec_rep_signed;
use crate::textutil::has_suffix;
use crate::textutil::i64_to_string;
use crate::textutil::lemma_last_slash_unique;
use crate::textutil::spec_last_slash;
use crate::textutil::str_ends_with;
use crate::textutil::str_to_chars;
use crate::validator::ValidationResult;
use crate::validator::spec_device_names_gpu;
use crate::validator::spec_selected_pool;
use crate::validator::spec_shortfall_message;
use crate::validator::validate_model_load;
use crate::validator::within_safe_threshold;
use crate::validator::within_tight_threshold;

verus! {

/// Errors of the native engine boundary.
#[derive(Debug, Clone)]
pub enum GenAIError {
    General { message: String },
    PipelineCreation,
    Generation { message: String },
    InvalidUtf8,
}

/// Maps a native status code to a result: zero is success, anything else
/// carries the code in its message.
pub fn check_status(status: i64) -> (r: Result<(), GenAIError>)
    ensures
        r is Ok <==> status == 0,
        r matches Err(e) ==> (e matches GenAIError::General { message } && message@ == "Status code "@
            + dec_rep_signed(status as int)),
{
    if status == 0 {
        Ok(())
    } else {
        let mut message = "Status code ".to_owned();
        message.append(i64_to_string(status).as_str());
        Err(GenAIError::General { message })
    }
}

/// Sampling and decoding options handed to the engine for one generation.
#[derive(Debug, Clone)]
pub struct GenerationConfig {
    pub max_new_tokens: Option<usize>,
    pub stop_strings: Vec<String>,
}

impl GenerationConfig {
    /// A configuration with no limits and no stop strings.
    pub fn new() -> (r: GenerationConfig)
        ensures
            r.max_new_tokens is None,
            r.stop_strings@.len() == 0,
    {
        GenerationConfig { max_new_tokens: None, stop_strings: Vec::new() }
    }

    /// Caps the number of tokens generated in one call.
    pub fn set_max_new_tokens(&mut self, max_tokens: usize)
        ensures
            final(self).max_new_tokens == Some(max_tokens),
            final(self).stop_strings == old(self).stop_strings,
    {
        self.max_new_tokens = Some(max_tokens);
    }

    /// Replaces the stop strings.
    pub fn set_stop_strings(&mut self, stop_strings: Vec<String>)
        ensures
            final(self).stop_strings == stop_strings,
            final(self).max_new_tokens == old(self).max_new_tokens,
    {
        self.stop_strings = stop_strings;
    }
}

/// The chat-template sentinels generation stops at.
pub fn default_stop_strings() -> (r: Vec<String>)
    ensures
        r@.len() == 4,
        r@[0]@ == "<|im_end|>"@,
        r@[1]@ == "<|endoftext|>"@,
        r@[2]@ == "</s>"@,
        r@[3]@ == "<|im_start|>"@,
{
    let mut r: Vec<String> = Vec::new();
    r.push("<|im_end|>".to_owned());
    r.push("<|endoftext|>".to_owned());
    r.push("</s>".to_owned());
    r.push("<|im_start|>".to_owned());
    r
}

/// Performance counters of one generation call, in integral units.
#[derive(Debug, Clone, Copy)]
pub struct GenerationMetrics {
    pub num_input_tokens: usize,
    pub num_output_tokens: usize,
    pub time_to_first_token_ms: u64,
    pub total_time_ms: u64,
}

/// Text and counters returned by one generation call.
#[derive(Debug, Clone)]
pub struct GenerationResult {
    pub text: String,
    pub metrics: GenerationMetrics,
}

/// One engine invocation, fully determined: the prompt and the
/// configuration the engine must run with.
#[derive(Debug, Clone)]
pub struct GenerateCommand {
    pub prompt: String,
    pub config: GenerationConfig,
}

/// Why a load attempt was refused, or how a call failed.
#[derive(Debug, Clone)]
pub enum LoadError {
    /// The validator refused the load; the message carries remediation
    /// hints alongside the shortfall.
    ResourceInsufficient { message: String },
    /// Another live process holds the model's lock.
    ModelBusy { pid: u64 },
    /// The native engine could not construct a pipeline.
    PipelineCreation { message: String },
    /// A generation call failed inside the engine.
    Generation { message: String },
    /// The engine's one-shot output was not decodable.
    InvalidUtf8,
    /// The model path has no usable parent directory.
    InvalidModelPath,
}

/// What a refused load tells the operator to try.
pub open spec fn spec_remediation_hint() -> Seq<char> {
    "; close other applications, pick a smaller or more quantized model, or loosen the resource mode"@
}

/// What a granted load must do: how much memory it is expected to take,
/// and the warning to surface when the validator was not fully satisfied.
#[derive(Debug, Clone)]
pub struct LoadPlan {
    pub estimate: MemoryEstimate,
    pub warning: Option<String>,
}

/// The directory the engine should load: a model file is used as given, a
/// directory is used as given, and any other file is replaced by its parent
/// directory.
pub open spec fn spec_resolved_model_path(p: Seq<char>, is_dir: bool) -> Option<Seq<char>> {
    if has_suffix(p, ".gguf"@) || is_dir {
        Some(p)
    } else if p.len() == 0 {
        None
    } else {
        match spec_last_slash(p) {
            Some(j) => if j == 0 {
                Some(p.subrange(0, 1))
            } else {
                Some(p.subrange(0, j))
            },
            None => Some(Seq::empty()),
        }
    }
}

/// Resolves the path handed to the engine from the model path as the
/// caller observed it (`is_dir` says whether it names a directory).
pub fn resolve_model_path(model_path: &str, is_dir: bool) -> (r: Result<String, LoadError>)
    ensures
        match r {
            Ok(p) => spec_resolved_model_path(model_path@, is_dir) == Some(p@),
            Err(e) => spec_resolved_model_path(model_path@, is_dir) is None && e
                is InvalidModelPath,
        },
{
    if str_ends_with(model_path, ".gguf") || is_dir {
        return Ok(model_path.to_owned());
    }
    let chars = str_to_chars(model_path);
    let n = chars.len();
    if n == 0 {
        return Err(LoadError::InvalidModelPath);
    }
    let mut i: usize = n;
    while i > 0
        invariant
            i <= n,
            0 < n == model_path@.len(),
            chars@ == model_path@,
            !has_suffix(model_path@, ".gguf"@),
            !is_dir,
            forall|k: int| i <= k < n ==> model_path@[k] != '/',
        decreases i,
    {
        i = i - 1;
        if chars[i] == '/' {
            proof {
                lemma_last_slash_unique(model_path@, i as int);
            }
            if i == 0 {
                let mut s = String::new();
                s.append(model_path.substring_char(0, 1));
                proof {
                    assert(s@ =~= model_path@.subrange(0, 1));
                }
                return Ok(s);
            }
            let mut s = String::new();
            s.append(model_path.substring_char(0, i));
            proof {
                assert(s@ =~= model_path@.subrange(0, i as int));
            }
            return Ok(s);
        }
    }
    proof {
        if exists|j: int| 0 <= j < model_path@.len() && model_path@[j] == '/' {
            let j = choose|j: int| 0 <= j < model_path@.len() && model_path@[j] == '/';
            assert(model_path@[j] != '/');
        }
    }
    Ok(String::new())
}

/// Gates a prospective load behind the resource validator.
///
/// The estimate is derived from the file size; an `Insufficient` verdict
/// aborts the load with remediation hints, a `Warning` verdict lets it
/// proceed but hands the caller the message to surface, and a `Sufficient`
/// verdict proceeds silently.
pub fn plan_load(
    file_size: u64,
    device: &str,
    resources: &SystemResources,
    mode: &ResourceMode,
) -> (r: Result<LoadPlan, LoadError>)
    ensures
        ({
            let estimated = spec_estimated_runtime_bytes(file_size);
            let gpu = spec_device_names_gpu(device@);
            let missing = gpu && resources.gpu_resources@.len() == 0;
            let pool = spec_selected_pool(device@, *resources);
            let pool_name = if gpu {
                "GPU VRAM"@
            } else {
                "RAM"@
            };
            &&& (r is Err <==> (missing || (!within_tight_threshold(estimated, pool) && mode
                is Strict)))
            &&& (r matches Err(e) ==> (e matches LoadError::ResourceInsufficient { message }
                && message@ == (if missing {
                "graphics device requested but no accelerator was found"@
            } else {
                spec_shortfall_message("insufficient memory: need "@, estimated, pool, pool_name)
            }) + spec_remediation_hint()))
            &&& (r matches Ok(plan) ==> {
                &&& plan.estimate.file_size_bytes == file_size
                &&& plan.estimate.estimated_runtime_bytes == estimated
                &&& (plan.warning is None <==> within_safe_threshold(estimated, pool))
                &&& (plan.warning matches Some(w) ==> w@ == spec_shortfall_message(
                    if within_tight_threshold(estimated, pool) {
                        "memory is tight: need "@
                    } else {
                        "insufficient memory: need "@
                    },
                    estimated,
                    pool,
                    pool_name,
                ))
            })
        }),
{
    let estimate = estimate_memory_from_file_size(file_size);
    let verdict = validate_model_load(estimate.estimated_runtime_bytes, device, resources, mode);
    match verdict {
        ValidationResult::Sufficient => Ok(LoadPlan { estimate, warning: None }),
        ValidationResult::Warning { message } => Ok(
            LoadPlan { estimate, warning: Some(message) },
        ),
        ValidationResult::Insufficient { message } => {
            let mut hint = message;
            hint.append(
                "; close other applications, pick a smaller or more quantized model, or loosen the resource mode",
            );
            Err(LoadError::ResourceInsufficient { message: hint })
        },
    }
}

/// A loaded model session: engine-side chat state, running context-size
/// bookkeeping, and the advisory lock it may own.
#[derive(Debug)]
pub struct InferenceSession {
    pub in_chat_mode: bool,
    pub context_tokens: u64,
    pub lock: Option<ModelLock>,
}

impl InferenceSession {
    /// A fresh session for a pipeline the caller just constructed,
    /// optionally owning the model's lock.
    pub fn new(lock: Option<ModelLock>) -> (r: InferenceSession)
        ensures
            r.in_chat_mode == false,
            r.context_tokens == 0,
            r.lock == lock,
    {
        InferenceSession { in_chat_mode: false, context_tokens: 0, lock }
    }

    /// Enters chat mode: the engine keeps its key/value cache across turns
    /// until `finish_chat`.
    pub fn start_chat(&mut self)
        ensures
            final(self).in_chat_mode == true,
            final(self).context_tokens == old(self).context_tokens,
            final(self).lock == old(self).lock,
    {
        self.in_chat_mode = true;
    }

    /// Leaves chat mode. Reachable from any state — also after a cancelled
    /// generation — so the engine-side cache never leaks into unrelated use.
    pub fn finish_chat(&mut self)
        ensures
            final(self).in_chat_mode == false,
            final(self).context_tokens == old(self).context_tokens,
            final(self).lock == old(self).lock,
    {
        self.in_chat_mode = false;
    }

    /// The engine command for a plain one-shot generation.
    pub fn generate(&self, prompt: &str, max_tokens: usize) -> (r: GenerateCommand)
        ensures
            r.prompt@ == prompt@,
            r.config.max_new_tokens == Some(max_tokens),
            r.config.stop_strings@.len() == 0,
    {
        let mut config = GenerationConfig::new();
        config.set_max_new_tokens(max_tokens);
        GenerateCommand { prompt: prompt.to_owned(), config }
    }

    /// The engine command for a generation that reports metrics or streams:
    /// the same prompt and cap, stopping at the chat-template sentinels.
    pub fn generate_with_metrics(&self, prompt: &str, max_tokens: usize) -> (r: GenerateCommand)
        ensures
            r.prompt@ == prompt@,
            r.config.max_new_tokens == Some(max_tokens),
            r.config.stop_strings@.len() == 4,
            r.config.stop_strings@[0]@ == "<|im_end|>"@,
            r.config.stop_strings@[1]@ == "<|endoftext|>"@,
            r.config.stop_strings@[2]@ == "</s>"@,
            r.config.stop_strings@[3]@ == "<|im_start|>"@,
    {
        let mut config = GenerationConfig::new();
        config.set_max_new_tokens(max_tokens);
        config.set_stop_strings(default_stop_strings());
        GenerateCommand { prompt: prompt.to_owned(), config }
    }

    /// The engine command for a streamed generation; identical to the
    /// metrics form, with the token callback supplied by the runner.
    pub fn generate_stream(&self, prompt: &str, max_tokens: usize) -> (r: GenerateCommand)
        ensures
            r.prompt@ == prompt@,
            r.config.max_new_tokens == Some(max_tokens),
            r.config.stop_strings@.len() == 4,
            r.config.stop_strings@[0]@ == "<|im_end|>"@,
            r.config.stop_strings@[1]@ == "<|endoftext|>"@,
            r.config.stop_strings@[2]@ == "</s>"@,
            r.config.stop_strings@[3]@ == "<|im_start|>"@,
    {
        self.generate_with_metrics(prompt, max_tokens)
    }

    /// Folds one finished turn into the running context size: the input
    /// and output token counts accumulate, saturating at the maximum.
    pub fn record_generation(&mut self, metrics: &GenerationMetrics)
        ensures
            final(self).context_tokens == if old(self).context_tokens + metrics.num_input_tokens
                + metrics.num_output_tokens <= u64::MAX {
                (old(self).context_tokens + metrics.num_input_tokens
                    + metrics.num_output_tokens) as u64
            } else {
                u64::MAX
            },
            final(self).in_chat_mode == old(self).in_chat_mode,
            final(self).lock == old(self).lock,
    {
        let added: u128 = (metrics.num_input_tokens as u128) + (metrics.num_output_tokens as u128);
        let total: u128 = (self.context_tokens as u128) + added;
        self.context_tokens = if total <= u64::MAX as u128 {
            total as u64
        } else {
            u64::MAX
        };
    }

    /// Surrenders the lock handle so the owner can remove its marker when
    /// the session is destroyed.
    pub fn release_lock(&mut self) -> (r: Option<ModelLock>)
        ensures
            final(self).lock is None,
            r == old(self).lock,
            final(self).in_chat_mode == old(self).in_chat_mode,
            final(self).context_tokens == old(self).context_tokens,
    {
        let mut taken: Option<ModelLock> = None;
        core::mem::swap(&mut self.lock, &mut taken);
        taken
    }
}

} // verus!
