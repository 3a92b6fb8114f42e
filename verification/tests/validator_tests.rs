//! The resource validator's fixed 80%/95% policy.

use capi_core::GpuResource;
use capi_core::ResourceMode;
use capi_core::SystemResources;
use capi_core::ValidationResult;
use capi_core::estimate_memory_from_file_size;
use capi_core::hardware::DeviceType;
use capi_core::validate_model_load;

fn ram_only(available: u64) -> SystemResources {
    SystemResources {
        total_ram_bytes: available * 2,
        available_ram_bytes: available,
        gpu_resources: Vec::new(),
    }
}

#[test]
fn five_gb_model_in_eight_gb_ram_is_sufficient() {
    let v = validate_model_load(
        5_000_000_000,
        "CPU",
        &ram_only(8_000_000_000),
        &ResourceMode::Strict,
    );
    assert!(matches!(v, ValidationResult::Sufficient));
}

#[test]
fn five_gb_model_in_tight_ram_is_insufficient_under_strict() {
    let v = validate_model_load(
        5_000_000_000,
        "CPU",
        &ram_only(5_200_000_000),
        &ResourceMode::Strict,
    );
    assert!(matches!(v, ValidationResult::Insufficient { .. }));
}

#[test]
fn five_gb_model_in_tight_ram_is_downgraded_under_loose() {
    let v = validate_model_load(
        5_000_000_000,
        "CPU",
        &ram_only(5_200_000_000),
        &ResourceMode::Loose,
    );
    assert!(matches!(v, ValidationResult::Warning { .. }));
}

#[test]
fn threshold_boundaries() {
    // Exactly 80% of the pool is still safe.
    let v = validate_model_load(800, "CPU", &ram_only(1000), &ResourceMode::Strict);
    assert!(matches!(v, ValidationResult::Sufficient));
    // One byte over 80% warns, in either mode.
    let v = validate_model_load(801, "CPU", &ram_only(1000), &ResourceMode::Strict);
    assert!(matches!(v, ValidationResult::Warning { .. }));
    let v = validate_model_load(801, "CPU", &ram_only(1000), &ResourceMode::Loose);
    assert!(matches!(v, ValidationResult::Warning { .. }));
    // Exactly 95% still warns.
    let v = validate_model_load(950, "CPU", &ram_only(1000), &ResourceMode::Strict);
    assert!(matches!(v, ValidationResult::Warning { .. }));
    // Over 95% is refused under strict mode only.
    let v = validate_model_load(951, "CPU", &ram_only(1000), &ResourceMode::Strict);
    assert!(matches!(v, ValidationResult::Insufficient { .. }));
    let v = validate_model_load(951, "CPU", &ram_only(1000), &ResourceMode::Loose);
    assert!(matches!(v, ValidationResult::Warning { .. }));
}

#[test]
fn warning_message_names_the_shortfall() {
    let v = validate_model_load(900, "CPU", &ram_only(1000), &ResourceMode::Strict);
    match v {
        ValidationResult::Warning { message } => {
            assert_eq!(message, "memory is tight: need 900 bytes, available 1000 bytes RAM");
        }
        _ => panic!("expected a warning"),
    }
}

#[test]
fn gpu_device_without_accelerator_is_refused() {
    let v = validate_model_load(1, "GPU", &ram_only(1_000_000), &ResourceMode::Loose);
    match v {
        ValidationResult::Insufficient { message } => {
            assert_eq!(message, "graphics device requested but no accelerator was found");
        }
        _ => panic!("a graphics request without an accelerator must be refused"),
    }
}

#[test]
fn gpu_device_judged_against_vram() {
    let resources = SystemResources {
        total_ram_bytes: 16_000_000_000,
        available_ram_bytes: 16_000_000_000,
        gpu_resources: vec![GpuResource {
            name: "Intel GPU".to_string(),
            total_vram_bytes: 1_000,
            available_vram_bytes: 1_000,
            device_type: DeviceType::GPU,
        }],
    };
    // Plenty of RAM, but the accelerator pool decides.
    let v = validate_model_load(2_000, "gpu.0", &resources, &ResourceMode::Strict);
    assert!(matches!(v, ValidationResult::Insufficient { .. }));
    let v = validate_model_load(700, "GPU", &resources, &ResourceMode::Strict);
    assert!(matches!(v, ValidationResult::Sufficient));
}

#[test]
fn memory_estimate_is_one_and_a_half_times_file_size() {
    let e = estimate_memory_from_file_size(1_000);
    assert_eq!(e.file_size_bytes, 1_000);
    assert_eq!(e.estimated_runtime_bytes, 1_500);
    let e = estimate_memory_from_file_size(u64::MAX);
    assert_eq!(e.estimated_runtime_bytes, u64::MAX);
}
