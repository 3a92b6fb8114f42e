//! Text helpers: decimal rendering and parsing, searching, trimming, and
//! the quantization markers read from names.

use capi_core::cli::detect_model_format;
use capi_core::cli::find_name_with_suffix;
use capi_core::cli::format_timestamp;
use capi_core::quant::extract_quant_info;
use capi_core::quant::extract_quantization;
use capi_core::textutil::after_last_slash;
use capi_core::textutil::contains_ci;
use capi_core::textutil::i64_to_string;
use capi_core::textutil::parse_u64;
use capi_core::textutil::str_contains;
use capi_core::textutil::str_ends_with;
use capi_core::textutil::trim_ascii_ws;
use capi_core::textutil::trim_quotes;
use capi_core::textutil::u64_to_string;

#[test]
fn decimal_rendering() {
    assert_eq!(u64_to_string(0), "0");
    assert_eq!(u64_to_string(7), "7");
    assert_eq!(u64_to_string(4096), "4096");
    assert_eq!(u64_to_string(u64::MAX), "18446744073709551615");
    assert_eq!(i64_to_string(-1), "-1");
    assert_eq!(i64_to_string(i64::MIN), "-9223372036854775808");
    assert_eq!(i64_to_string(42), "42");
}

#[test]
fn decimal_parsing() {
    assert_eq!(parse_u64("0"), Some(0));
    assert_eq!(parse_u64("1234"), Some(1234));
    assert_eq!(parse_u64("18446744073709551615"), Some(u64::MAX));
    assert_eq!(parse_u64("18446744073709551616"), None);
    assert_eq!(parse_u64(""), None);
    assert_eq!(parse_u64("12a"), None);
    assert_eq!(parse_u64(" 12"), None);
}

#[test]
fn searching_and_trimming() {
    assert!(contains_ci("Intel Arc GPU", "gpu"));
    assert!(contains_ci("gpu.1", "GPU"));
    assert!(!contains_ci("CPU", "GPU"));
    assert!(str_contains("abcdef", "cde"));
    assert!(!str_contains("abcdef", "CDE"));
    assert!(str_ends_with("model.gguf", ".gguf"));
    assert!(!str_ends_with("model.bin", ".gguf"));
    assert_eq!(trim_ascii_ws("  2025.2.0.0\n"), "2025.2.0.0");
    assert_eq!(trim_ascii_ws("\t\r\n "), "");
    assert_eq!(trim_quotes("\"ubuntu\""), "ubuntu");
    assert_eq!(trim_quotes("plain"), "plain");
    assert_eq!(after_last_slash("a/b/c"), "c");
    assert_eq!(after_last_slash("nopath"), "nopath");
}

#[test]
fn relative_timestamps() {
    let now = 1_700_000_000i64;
    assert_eq!(format_timestamp(now - 10, now), "just now");
    assert_eq!(format_timestamp(now + 100, now), "just now");
    assert_eq!(format_timestamp(now - 300, now), "5m ago");
    assert_eq!(format_timestamp(now - 3 * 3600, now), "3h ago");
    assert_eq!(format_timestamp(now - 2 * 86400, now), "2d ago");
    assert_eq!(format_timestamp(now - 30 * 86400, now), "over a week ago");
}

#[test]
fn quantization_markers() {
    assert_eq!(
        extract_quantization("Phi-3-mini-4k-instruct-q4_k_m.gguf").as_deref(),
        Some("Q4_K_M")
    );
    assert_eq!(extract_quantization("model-IQ2_XXS.gguf").as_deref(), Some("IQ2_XXS"));
    assert_eq!(extract_quantization("weights-f16.gguf").as_deref(), Some("F16"));
    assert_eq!(extract_quantization("plain-model.gguf"), None);

    assert_eq!(extract_quant_info("llama-Q4_K_M").as_deref(), Some("Q4_K_M"));
    assert_eq!(extract_quant_info("llama-Q4_K_M-and-Q5_K_M").as_deref(), Some("2 variants"));
    assert_eq!(extract_quant_info("llama"), None);
}

#[test]
fn model_format_detection() {
    let entries = vec![
        "README.md".to_string(),
        "phi.Q4_K_M.gguf".to_string(),
        "other.gguf".to_string(),
    ];
    assert_eq!(find_name_with_suffix(&entries, ".gguf"), Some(1));
    assert_eq!(
        detect_model_format("/models/phi", &entries).as_deref(),
        Some("/models/phi/phi.Q4_K_M.gguf")
    );

    let entries = vec!["openvino_model.xml".to_string(), "openvino_model.bin".to_string()];
    assert_eq!(
        detect_model_format("/m", &entries).as_deref(),
        Some("/m/openvino_model.xml")
    );

    let entries = vec!["weights.safetensors".to_string()];
    assert_eq!(detect_model_format("/m", &entries), None);
}
