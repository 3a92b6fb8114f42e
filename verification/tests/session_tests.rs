//! Session state machine, load planning and engine commands.

use capi_core::ResourceMode;
use capi_core::SystemResources;
use capi_core::session::GenerationMetrics;
use capi_core::session::InferenceSession;
use capi_core::session::LoadError;
use capi_core::session::check_status;
use capi_core::session::plan_load;
use capi_core::session::resolve_model_path;

fn ram_only(available: u64) -> SystemResources {
    SystemResources {
        total_ram_bytes: available,
        available_ram_bytes: available,
        gpu_resources: Vec::new(),
    }
}

#[test]
fn chat_mode_toggles() {
    let mut s = InferenceSession::new(None);
    assert!(!s.in_chat_mode);
    s.start_chat();
    assert!(s.in_chat_mode);
    s.finish_chat();
    assert!(!s.in_chat_mode);
    // finish_chat is reachable again after any sequence of calls.
    s.finish_chat();
    assert!(!s.in_chat_mode);
}

#[test]
fn context_tokens_accumulate_and_saturate() {
    let mut s = InferenceSession::new(None);
    let m = GenerationMetrics {
        num_input_tokens: 7,
        num_output_tokens: 5,
        time_to_first_token_ms: 0,
        total_time_ms: 0,
    };
    s.record_generation(&m);
    assert_eq!(s.context_tokens, 12);
    s.record_generation(&m);
    assert_eq!(s.context_tokens, 24);

    let mut s = InferenceSession::new(None);
    s.record_generation(&GenerationMetrics {
        num_input_tokens: usize::MAX,
        num_output_tokens: usize::MAX,
        time_to_first_token_ms: 0,
        total_time_ms: 0,
    });
    s.record_generation(&GenerationMetrics {
        num_input_tokens: usize::MAX,
        num_output_tokens: usize::MAX,
        time_to_first_token_ms: 0,
        total_time_ms: 0,
    });
    assert_eq!(s.context_tokens, u64::MAX);
}

#[test]
fn generate_commands_carry_prompt_and_limits() {
    let s = InferenceSession::new(None);
    let cmd = s.generate("tell me a story", 256);
    assert_eq!(cmd.prompt, "tell me a story");
    assert_eq!(cmd.config.max_new_tokens, Some(256));
    assert!(cmd.config.stop_strings.is_empty());

    let cmd = s.generate_with_metrics("p", 64);
    assert_eq!(cmd.config.stop_strings.len(), 4);
    assert_eq!(cmd.config.stop_strings[0], "<|im_end|>");
    assert_eq!(cmd.config.stop_strings[1], "<|endoftext|>");
    assert_eq!(cmd.config.stop_strings[2], "</s>");
    assert_eq!(cmd.config.stop_strings[3], "<|im_start|>");

    let cmd = s.generate_stream("p", 64);
    assert_eq!(cmd.config.stop_strings.len(), 4);
    assert_eq!(cmd.config.stop_strings[0], "<|im_end|>");
    assert_eq!(cmd.config.stop_strings[1], "<|endoftext|>");
    assert_eq!(cmd.config.stop_strings[2], "</s>");
    assert_eq!(cmd.config.stop_strings[3], "<|im_start|>");
}

#[test]
fn plan_load_follows_the_validator() {
    // A 1000-byte file is estimated at 1500 bytes of runtime memory.
    let plan = plan_load(1_000, "CPU", &ram_only(10_000), &ResourceMode::Strict).unwrap();
    assert_eq!(plan.estimate.estimated_runtime_bytes, 1_500);
    assert!(plan.warning.is_none());

    let plan = plan_load(1_000, "CPU", &ram_only(1_600), &ResourceMode::Strict).unwrap();
    assert_eq!(
        plan.warning.as_deref(),
        Some("memory is tight: need 1500 bytes, available 1600 bytes RAM")
    );

    let r = plan_load(1_000, "CPU", &ram_only(1_500), &ResourceMode::Strict);
    match r {
        Err(LoadError::ResourceInsufficient { message }) => {
            assert_eq!(
                message,
                "insufficient memory: need 1500 bytes, available 1500 bytes RAM; \
                 close other applications, pick a smaller or more quantized model, \
                 or loosen the resource mode"
            );
        }
        _ => panic!("an over-tight load must be refused under strict mode"),
    }

    // The same shortfall merely warns under loose mode, keeping its text.
    let plan = plan_load(1_000, "CPU", &ram_only(1_500), &ResourceMode::Loose).unwrap();
    assert_eq!(
        plan.warning.as_deref(),
        Some("insufficient memory: need 1500 bytes, available 1500 bytes RAM")
    );

    // A graphics request without an accelerator is refused with the hint.
    let r = plan_load(1, "GPU", &ram_only(1_000_000), &ResourceMode::Loose);
    match r {
        Err(LoadError::ResourceInsufficient { message }) => {
            assert!(message.starts_with("graphics device requested but no accelerator was found"));
            assert!(message.ends_with("loosen the resource mode"));
        }
        _ => panic!("a graphics request without an accelerator must be refused"),
    }
}

#[test]
fn model_path_resolution() {
    assert_eq!(resolve_model_path("m/weights.gguf", false).unwrap(), "m/weights.gguf");
    assert_eq!(resolve_model_path("models/phi", true).unwrap(), "models/phi");
    assert_eq!(resolve_model_path("a/b/weights.bin", false).unwrap(), "a/b");
    assert_eq!(resolve_model_path("/weights.bin", false).unwrap(), "/");
    assert_eq!(resolve_model_path("weights.bin", false).unwrap(), "");
    assert!(matches!(
        resolve_model_path("", false),
        Err(LoadError::InvalidModelPath)
    ));
}

#[test]
fn status_codes_map_to_results() {
    assert!(check_status(0).is_ok());
    match check_status(-3) {
        Err(capi_core::GenAIError::General { message }) => {
            assert_eq!(message, "Status code -3");
        }
        _ => panic!("a non-zero status must fail"),
    }
}

#[test]
fn releasing_the_lock_empties_the_slot() {
    let plan = capi_core::ModelLock::try_acquire("m", &None, false, 1).unwrap();
    let mut s = InferenceSession::new(Some(plan.handle));
    let lock = s.release_lock();
    assert!(lock.is_some());
    assert!(s.release_lock().is_none());
}
