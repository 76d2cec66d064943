//! Wire-level data exchanged with the model provider.

pub mod deepseek;
pub mod framing;
pub mod unified;

pub use unified::{ModelConfig, ModelProvider, UnifiedLLMClient};
