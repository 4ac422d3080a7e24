//! Provider-surface detection for raw LLM request and response bodies, with the
//! decision logic of the relay's logging and plugin runtimes.

pub mod ffi_status;
pub mod json;

pub mod logging;
pub mod plugin;
pub mod surface;

pub use json::Json;
pub use surface::{
    detect_request_surface, detect_request_surface_with_hint, detect_response_surface,
    normalize_request, normalize_request_with, normalize_response,
    normalize_response_with, AnnotatedLlmRequest, AnnotatedLlmResponse, LlmRequest,
    ProviderSurface,
};
