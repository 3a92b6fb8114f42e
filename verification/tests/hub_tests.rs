//! Hub client decisions, request/response assembly, configuration paths
//! and device selection.

use capi_core::Config;
use capi_core::DeviceInfo;
use capi_core::DevicePreference;
use capi_core::DeviceType;
use capi_core::Message;
use capi_core::ModelRecord;
use capi_core::api::build_prompt;
use capi_core::api::make_completion_response;
use capi_core::api::assistant_choice;
use capi_core::api::model_list_from_records;
use capi_core::detect_devices;
use capi_core::downloader::file_download_url;
use capi_core::downloader::is_supported_model;
use capi_core::downloader::matches_base_model;
use capi_core::downloader::model_id_author;
use capi_core::downloader::model_id_name;
use capi_core::downloader::model_info_url;
use capi_core::downloader::model_tree_url;
use capi_core::downloader::quantized_search_url;
use capi_core::downloader::search_url;
use capi_core::records::gguf_file_names;
use capi_core::records::has_gguf_file;
use capi_core::select_best_device;

#[test]
fn hub_urls() {
    assert_eq!(
        search_url("llama 3"),
        "https://huggingface.co/api/models?search=llama%203&filter=text-generation&sort=downloads&limit=20"
    );
    assert_eq!(
        quantized_search_url("meta-llama/Meta-Llama-3-8B"),
        "https://huggingface.co/api/models?search=Meta-Llama-3-8B-gguf&filter=text-generation&sort=downloads&limit=100"
    );
    assert_eq!(
        model_info_url("microsoft/phi-3"),
        "https://huggingface.co/api/models/microsoft/phi-3"
    );
    assert_eq!(
        model_tree_url("microsoft/phi-3"),
        "https://huggingface.co/api/models/microsoft/phi-3/tree/main"
    );
    assert_eq!(
        file_download_url("microsoft/phi-3", "phi.Q4_K_M.gguf"),
        "https://huggingface.co/microsoft/phi-3/resolve/main/phi.Q4_K_M.gguf"
    );
}

#[test]
fn model_id_parts() {
    assert_eq!(model_id_author("microsoft/phi-3"), "microsoft");
    assert_eq!(model_id_name("microsoft/phi-3").as_deref(), Some("phi-3"));
    assert_eq!(model_id_author("standalone"), "standalone");
    assert_eq!(model_id_name("standalone"), None);
    assert_eq!(model_id_name("a/b/c").as_deref(), Some("b"));
}

#[test]
fn unsupported_quantization_tags_filter_repositories() {
    let ok = vec!["text-generation".to_string(), "gguf".to_string()];
    assert!(is_supported_model(&ok));
    let bad = vec!["text-generation".to_string(), "GPTQ".to_string()];
    assert!(!is_supported_model(&bad));
    let bad = vec!["4bit-AWQ".to_string()];
    assert!(!is_supported_model(&bad));
    assert!(is_supported_model(&Vec::new()));
}

#[test]
fn base_model_tagging() {
    let tags = vec![
        "gguf".to_string(),
        "base_model:quantized:meta-llama/Meta-Llama-3-8B".to_string(),
    ];
    assert!(matches_base_model(&tags, "meta-llama/Meta-Llama-3-8B"));
    let tags = vec!["related to meta-llama/Meta-Llama-3-8B weights".to_string()];
    assert!(matches_base_model(&tags, "meta-llama/Meta-Llama-3-8B"));
    let tags = vec!["gguf".to_string()];
    assert!(!matches_base_model(&tags, "meta-llama/Meta-Llama-3-8B"));
}

#[test]
fn gguf_listing_summary() {
    let files = vec![
        "README.md".to_string(),
        "a.gguf".to_string(),
        "b.bin".to_string(),
        "c.gguf".to_string(),
    ];
    assert!(has_gguf_file(&files));
    assert_eq!(gguf_file_names(&files), vec!["a.gguf".to_string(), "c.gguf".to_string()]);
    assert!(!has_gguf_file(&vec!["x.bin".to_string()]));
}

#[test]
fn prompt_assembly() {
    let messages = vec![
        Message { role: "user".to_string(), content: "hi".to_string() },
        Message { role: "assistant".to_string(), content: "hello!".to_string() },
        Message { role: "user".to_string(), content: "how are you?".to_string() },
    ];
    assert_eq!(
        build_prompt(&messages),
        "User: hi\nAssistant: hello!\nUser: how are you?\nAssistant:"
    );
    assert_eq!(build_prompt(&Vec::new()), "\nAssistant:");
    // Any role other than `user` is attributed to the assistant.
    let messages = vec![Message { role: "system".to_string(), content: "rules".to_string() }];
    assert_eq!(build_prompt(&messages), "Assistant: rules\nAssistant:");
}

#[test]
fn completion_choice_shape() {
    let c = assistant_choice("generated text".to_string());
    assert_eq!(c.index, 0);
    assert_eq!(c.finish_reason, "stop");
    assert_eq!(c.message.role, "assistant");
    assert_eq!(c.message.content, "generated text");
}

#[test]
fn completion_envelope() {
    let r = make_completion_response("u1", 1_700_000_000, "phi-3", "hi there".to_string(), 12, 34);
    assert_eq!(r.id, "chatcmpl-u1");
    assert_eq!(r.object, "chat.completion");
    assert_eq!(r.created, 1_700_000_000);
    assert_eq!(r.model, "phi-3");
    assert_eq!(r.choices.len(), 1);
    assert_eq!(r.choices[0].message.role, "assistant");
    assert_eq!(r.choices[0].message.content, "hi there");
    assert_eq!(r.choices[0].finish_reason, "stop");
    let usage = r.usage.expect("a finished completion reports usage");
    assert_eq!(usage.prompt_tokens, 12);
    assert_eq!(usage.completion_tokens, 34);
    assert_eq!(usage.total_tokens, 46);
}

#[test]
fn model_listing_from_records() {
    let records = vec![ModelRecord {
        id: "phi-3".to_string(),
        name: "Phi 3".to_string(),
        path: "/models/phi-3".to_string(),
        size_bytes: Some(2_000_000_000),
        quantization: Some("Q4_K_M".to_string()),
        context_length: Some(4096),
        created_at: 1_700_000_000,
        last_used: None,
    }];
    let list = model_list_from_records(&records);
    assert_eq!(list.object, "list");
    assert_eq!(list.data.len(), 1);
    assert_eq!(list.data[0].id, "phi-3");
    assert_eq!(list.data[0].object, "model");
    assert_eq!(list.data[0].created, 1_700_000_000);
    assert_eq!(list.data[0].owned_by, "user");
}

#[test]
fn configuration_paths_and_addresses() {
    let config = Config::with_data_dir("/home/me/.local/share/capi");
    assert_eq!(config.server_host, "127.0.0.1");
    assert_eq!(config.server_port, 3000);
    assert_eq!(config.models_dir, "/home/me/.local/share/capi/models");
    assert_eq!(config.database_path(), "/home/me/.local/share/capi/capi.db");
    assert_eq!(config.server_url(), "http://127.0.0.1:3000");
    assert_eq!(config.bind_address(), "127.0.0.1:3000");
}

#[test]
fn device_catalogue_and_selection() {
    let devices = detect_devices(true);
    assert_eq!(devices.len(), 2);
    assert_eq!(devices[0].name, "CPU");
    assert_eq!(devices[1].name, "GPU");
    let devices = detect_devices(false);
    assert_eq!(devices.len(), 1);

    let catalogue = vec![
        DeviceInfo { name: "CPU".to_string(), device_type: DeviceType::CPU, available: true },
        DeviceInfo { name: "GPU".to_string(), device_type: DeviceType::GPU, available: true },
    ];
    assert_eq!(
        select_best_device(&catalogue, &DevicePreference::Auto).as_deref(),
        Some("GPU")
    );
    assert_eq!(
        select_best_device(&catalogue, &DevicePreference::CPU).as_deref(),
        Some("CPU")
    );
    assert_eq!(select_best_device(&catalogue, &DevicePreference::NPU), None);

    let cpu_only = vec![DeviceInfo {
        name: "CPU".to_string(),
        device_type: DeviceType::CPU,
        available: true,
    }];
    assert_eq!(
        select_best_device(&cpu_only, &DevicePreference::Auto).as_deref(),
        Some("CPU")
    );
    // Without a graphics device, the neural device outranks the processor.
    let npu_cpu = vec![
        DeviceInfo { name: "CPU".to_string(), device_type: DeviceType::CPU, available: true },
        DeviceInfo { name: "NPU".to_string(), device_type: DeviceType::NPU, available: true },
    ];
    assert_eq!(
        select_best_device(&npu_cpu, &DevicePreference::Auto).as_deref(),
        Some("NPU")
    );
    assert_eq!(select_best_device(&Vec::new(), &DevicePreference::Auto), None);
}
