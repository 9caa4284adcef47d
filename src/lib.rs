//! Value types exchanged between a host runtime and a native llama inference
//! engine: model-load configuration, sampling requests, the engine's context
//! parameter record and the streamed result envelope, with verified
//! defaulting, checked narrowing into the native layout, and result shaping.

pub mod bits;
pub mod generate;
pub mod model_load;
pub mod inference;

pub use bits::{F32Bits, F64Bits};
pub use generate::{Generate, LogitBias};
pub use model_load::{ConfigTranslationError, ContextField, ContextParams, LlamaLoraAdaptor, ModelLoad};
pub use inference::{EngineEvent, InferenceResult, InferenceResultType, InferenceToken, ResultStream};

