//! Runtime configuration: network endpoint, data directories, device
//! preference and the resource-validation policy mode.

use vstd::prelude::*;
use vstd::string::StringExecFns;

use crate::textutil::dec_rep;
use crate::textutil::u64_to_string;

verus! {

/// Which compute device the user prefers for inference.
#[derive(Debug, Clone, Copy, PartialEq, Eq, Structural)]
pub enum DevicePreference {
    Auto,
    GPU,
    CPU,
    NPU,
}

/// How strictly the resource validator treats a load that exceeds the
/// tight memory threshold: `Strict` refuses it, `Loose` downgrades the
/// refusal to a warning.
#[derive(Debug, Clone, Copy, PartialEq, Eq, Structural)]
pub enum ResourceMode {
    Strict,
    Loose,
}

/// Resource mode assumed when a stored configuration does not name one.
pub fn default_resource_mode() -> (r: ResourceMode)
    ensures
        r == ResourceMode::Strict,
{
    ResourceMode::Strict
}

/// Context length assumed when a stored configuration does not name one.
pub fn default_context_length() -> (r: u64)
    ensures
        r == 4096u64,
{
    4096
}

/// User-facing settings of the front end. Paths are kept as plain strings;
/// reading and writing the configuration file is the caller's concern.
#[derive(Debug, Clone)]
pub struct Config {
    pub server_host: String,
    pub server_port: u16,
    pub models_dir: String,
    pub data_dir: String,
    pub device_preference: DevicePreference,
    pub auto_start: bool,
    pub keep_server_running: bool,
    pub resource_mode: ResourceMode,
    pub default_context_length: u64,
}

impl Config {
    /// The default configuration rooted at the given data directory.
    pub fn with_data_dir(data_dir: &str) -> (r: Config)
        ensures
            r.server_host@ == "127.0.0.1"@,
            r.server_port == 3000u16,
            r.models_dir@ == data_dir@ + "/models"@,
            r.data_dir@ == data_dir@,
            r.device_preference == DevicePreference::Auto,
            r.auto_start == false,
            r.keep_server_running == false,
            r.resource_mode == ResourceMode::Strict,
            r.default_context_length == 4096u64,
    {
        let mut models_dir = data_dir.to_owned();
        models_dir.append("/models");
        Config {
            server_host: "127.0.0.1".to_owned(),
            server_port: 3000,
            models_dir,
            data_dir: data_dir.to_owned(),
            device_preference: DevicePreference::Auto,
            auto_start: false,
            keep_server_running: false,
            resource_mode: ResourceMode::Strict,
            default_context_length: 4096,
        }
    }

    /// Path of the metadata database inside the data directory.
    pub fn database_path(&self) -> (r: String)
        ensures
            r@ == self.data_dir@ + "/capi.db"@,
    {
        let mut r = self.data_dir.clone();
        r.append("/capi.db");
        r
    }

    /// Base URL under which the HTTP server is reachable.
    pub fn server_url(&self) -> (r: String)
        ensures
            r@ == "http://"@ + self.server_host@ + ":"@ + dec_rep(self.server_port as nat),
    {
        let mut r = "http://".to_owned();
        r.append(self.server_host.as_str());
        r.append(":");
        r.append(u64_to_string(self.server_port as u64).as_str());
        r
    }

    /// Host and port in the form the listener binds to.
    pub fn bind_address(&self) -> (r: String)
        ensures
            r@ == self.server_host@ + ":"@ + dec_rep(self.server_port as nat),
    {
        let mut r = self.server_host.clone();
        r.append(":");
        r.append(u64_to_string(self.server_port as u64).as_str());
        r
    }
}

} // verus!
