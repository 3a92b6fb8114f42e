//! Session lifecycle and streaming orchestration for a local LLM inference
//! front end: resource validation before a model load, cross-process model
//! locks, an in-process session cache, and reassembly of raw engine output
//! bytes into well-formed text chunks.

pub mod api;
pub mod cache;
pub mod cli;
pub mod config;
pub mod downloader;
pub mod hardware;
mod memory;
pub mod model_lock;
pub mod quant;
pub mod records;
pub mod runtime;
pub mod session;
pub mod sse;
pub mod stream;
pub mod textutil;
pub mod validator;

pub use api::ChatCompletionChunk;
pub use api::ChatCompletionResponse;
pub use api::Choice;
pub use api::ChunkChoice;
pub use api::Delta;
pub use api::EmbeddingInput;
pub use api::EmbeddingRequest;
pub use api::Message;
pub use api::Model;
pub use api::Usage;
pub use api::ModelList;
pub use cache::SessionCache;
pub use config::Config;
pub use config::DevicePreference;
pub use config::ResourceMode;
pub use hardware::DeviceInfo;
pub use hardware::DeviceType;
pub use hardware::GpuResource;
pub use hardware::SystemResources;
pub use hardware::detect_devices;
pub use hardware::select_best_device;
pub use memory::MemoryEstimate;
pub use memory::estimate_memory_from_file_size;
pub use model_lock::ModelLock;
pub use records::ChatMessage;
pub use records::ChatSession;
pub use records::FileInfo;
pub use records::HuggingFaceModel;
pub use records::ModelData;
pub use records::ModelInfo;
pub use records::ModelMetadata;
pub use records::ModelRecord;
pub use runtime::OpenVinoManager;
pub use session::GenAIError;
pub use session::GenerationConfig;
pub use session::GenerationResult;
pub use session::InferenceSession;
pub use stream::StreamerCallback;
pub use validator::ValidationResult;
pub use validator::validate_model_load;
