//! Runtime installation decisions.

use capi_core::OpenVinoManager;
use capi_core::runtime::build_download_url;
use capi_core::runtime::detect_linux_distro;
use capi_core::runtime::engine_binary_name;
use capi_core::runtime::is_essential_linux;
use capi_core::runtime::ov_base_url;
use capi_core::runtime::ov_full_version;
use capi_core::runtime::ov_short_version;
use capi_core::runtime::prepend_lib_path;
use capi_core::runtime::sentinel_lib;
use capi_core::runtime::strip_top_dir;
use capi_core::runtime::has_openvino_libs;

#[test]
fn test_download_url_format() {
    let manager = OpenVinoManager::with_lib_dir("/tmp/test".to_string());
    let url = manager.download_url("ubuntu22");
    assert!(url.contains(ov_short_version()));
    assert!(url.contains(ov_full_version()));
    assert!(url.contains("x86_64"));
    assert!(url.starts_with(ov_base_url()));
}

#[test]
fn test_version_check_missing() {
    let manager = OpenVinoManager::with_lib_dir("/tmp/nonexistent_ov_test".to_string());
    assert!(!manager.is_correct_version_installed(&None));
}

#[test]
fn test_detect_linux_distro() {
    let lines = vec![
        "NAME=\"Ubuntu\"".to_string(),
        "ID=ubuntu".to_string(),
        "VERSION_ID=\"24.04\"".to_string(),
    ];
    let distro = detect_linux_distro(&lines);
    assert!(
        distro.starts_with("ubuntu"),
        "Expected ubuntu-based package name, got: {}",
        distro
    );
}

#[test]
fn distro_package_selection() {
    let ubuntu24 = vec!["ID=ubuntu".to_string(), "VERSION_ID=\"24.04\"".to_string()];
    assert_eq!(detect_linux_distro(&ubuntu24), "ubuntu24");
    let ubuntu22 = vec!["ID=ubuntu".to_string(), "VERSION_ID=\"22.04\"".to_string()];
    assert_eq!(detect_linux_distro(&ubuntu22), "ubuntu22");
    let fedora = vec!["ID=fedora".to_string(), "VERSION_ID=40".to_string()];
    assert_eq!(detect_linux_distro(&fedora), "ubuntu22");
    let none: Vec<String> = Vec::new();
    assert_eq!(detect_linux_distro(&none), "ubuntu22");
}

#[test]
fn version_marker_comparison_trims_whitespace() {
    let manager = OpenVinoManager::with_lib_dir("/x".to_string());
    assert!(manager.is_correct_version_installed(&Some(format!("{}\n", ov_full_version()))));
    assert!(!manager.is_correct_version_installed(&Some("2024.1.0.0".to_string())));
}

#[test]
fn download_url_layout() {
    let url = build_download_url("ubuntu24");
    assert_eq!(
        url,
        format!(
            "{}/{}/linux/openvino_genai_ubuntu24_{}_x86_64.tar.gz",
            ov_base_url(),
            ov_short_version(),
            ov_full_version()
        )
    );
}

#[test]
fn launcher_names() {
    assert_eq!(sentinel_lib(), "libopenvino_genai.so.2520");
    assert_eq!(engine_binary_name(), "capi-engine");
}

#[test]
fn essential_archive_entries() {
    assert!(is_essential_linux("libopenvino_genai.so.2520"));
    assert!(is_essential_linux("libtbb.so.12"));
    assert!(is_essential_linux("libhwloc.so.15"));
    assert!(is_essential_linux("plugins.xml"));
    assert!(!is_essential_linux("README.md"));
    assert!(!is_essential_linux("samples.tar"));
}

#[test]
fn archive_paths_lose_their_top_directory() {
    assert_eq!(
        strip_top_dir("openvino_genai_ubuntu22/runtime/lib/libopenvino.so").as_deref(),
        Some("runtime/lib/libopenvino.so")
    );
    assert_eq!(strip_top_dir("flat"), None);
}

#[test]
fn loader_path_extension() {
    assert_eq!(prepend_lib_path("", "/opt/ov/lib").as_deref(), Some("/opt/ov/lib"));
    assert_eq!(
        prepend_lib_path("/usr/lib", "/opt/ov/lib").as_deref(),
        Some("/opt/ov/lib:/usr/lib")
    );
    assert_eq!(prepend_lib_path("/opt/ov/lib:/usr/lib", "/opt/ov/lib"), None);
}

#[test]
fn installed_runtime_is_recognised_by_its_sentinel() {
    let with = vec!["plugins.xml".to_string(), "libopenvino_genai.so.2520".to_string()];
    assert!(has_openvino_libs(&with));
    let without = vec!["plugins.xml".to_string(), "libopenvino.so".to_string()];
    assert!(!has_openvino_libs(&without));
}

#[test]
fn manager_directories() {
    let manager = OpenVinoManager::new("/home/me");
    assert_eq!(manager.lib_dir(), "/home/me/.local/lib/capi/openvino");
    assert_eq!(manager.version_marker_path(), "/home/me/.local/lib/capi/openvino/.version");
}
