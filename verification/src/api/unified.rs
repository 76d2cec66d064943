//! Connection settings for any of the supported providers, which all speak
//! the same chat-completion protocol.

use crate::api::deepseek::{bearer, completions_path, ChatRequest, ChatRequestView};
use crate::text::join;
use vstd::prelude::*;

pub use crate::api::deepseek::{
    ChatResponse, Choice, Message, StreamChoice, StreamChunk, StreamDelta, StreamToolCall, Tool,
};

verus! {

/// The providers a client can talk to.
#[derive(Clone, Copy, Debug, PartialEq, Eq, Structural)]
pub enum ModelProvider {
    DeepSeek,
    Qwen,
}

impl Default for ModelProvider {
    /// DeepSeek, unless told otherwise.
    fn default() -> (provider: Self)
        ensures
            provider == ModelProvider::DeepSeek,
    {
        ModelProvider::DeepSeek
    }
}

/// Which provider to talk to, as which model, with which token, and where.
#[derive(Debug)]
pub struct ModelConfig {
    pub provider: ModelProvider,
    pub model_name: String,
    pub api_key: String,
    pub base_url: String,
}

/// Mathematical value of a [`ModelConfig`].
pub ghost struct ModelConfigView {
    pub provider: ModelProvider,
    pub model_name: Seq<char>,
    pub api_key: Seq<char>,
    pub base_url: Seq<char>,
}

impl View for ModelConfig {
    type V = ModelConfigView;

    open spec fn view(&self) -> ModelConfigView {
        ModelConfigView {
            provider: self.provider,
            model_name: self.model_name@,
            api_key: self.api_key@,
            base_url: self.base_url@,
        }
    }
}

impl Clone for ModelConfig {
    fn clone(&self) -> (copy: Self)
        ensures
            copy@ == self@,
    {
        ModelConfig {
            provider: self.provider,
            model_name: self.model_name.clone(),
            api_key: self.api_key.clone(),
            base_url: self.base_url.clone(),
        }
    }
}

impl ModelConfigView {
    /// The settings for DeepSeek with the token `api_key`.
    pub open spec fn deepseek(api_key: Seq<char>) -> ModelConfigView {
        ModelConfigView {
            provider: ModelProvider::DeepSeek,
            model_name: "deepseek-chat"@,
            api_key,
            base_url: "https://api.deepseek.com/v1"@,
        }
    }

    /// The settings for Qwen, reached through DashScope's compatible mode,
    /// with the token `api_key`.
    pub open spec fn qwen(api_key: Seq<char>) -> ModelConfigView {
        ModelConfigView {
            provider: ModelProvider::Qwen,
            model_name: "qwen-max"@,
            api_key,
            base_url: "https://dashscope.aliyuncs.com/compatible-mode/v1"@,
        }
    }
}

impl ModelConfig {
    /// The settings for DeepSeek with the token `api_key`.
    pub fn deepseek(api_key: String) -> (config: Self)
        ensures
            config@ == ModelConfigView::deepseek(api_key@),
    {
        Self {
            provider: ModelProvider::DeepSeek,
            model_name: "deepseek-chat".to_owned(),
            api_key,
            base_url: "https://api.deepseek.com/v1".to_owned(),
        }
    }

    /// The settings for Qwen with the token `api_key`.
    pub fn qwen(api_key: String) -> (config: Self)
        ensures
            config@ == ModelConfigView::qwen(api_key@),
    {
        Self {
            provider: ModelProvider::Qwen,
            model_name: "qwen-max".to_owned(),
            api_key,
            base_url: "https://dashscope.aliyuncs.com/compatible-mode/v1".to_owned(),
        }
    }
}

/// A client for any provider: what a transport needs to know to send a
/// chat-completion request to the provider of its settings.
#[derive(Debug)]
pub struct UnifiedLLMClient {
    config: ModelConfig,
}

impl Clone for UnifiedLLMClient {
    fn clone(&self) -> (copy: Self)
        ensures
            copy@ == self@,
    {
        UnifiedLLMClient { config: self.config.clone() }
    }
}

impl View for UnifiedLLMClient {
    type V = ModelConfigView;

    closed spec fn view(&self) -> ModelConfigView {
        self.config@
    }
}

impl UnifiedLLMClient {
    pub fn new(config: ModelConfig) -> (client: Self)
        ensures
            client@ == config@,
    {
        Self { config }
    }

    /// The provider the client talks to.
    pub fn provider(&self) -> (provider: &ModelProvider)
        ensures
            *provider == self@.provider,
    {
        &self.config.provider
    }

    /// The model the client asks for.
    pub fn model_name(&self) -> (name: &str)
        ensures
            name@ == self@.model_name,
    {
        self.config.model_name.as_str()
    }

    /// Address that chat-completion requests are posted to.
    pub fn endpoint(&self) -> (url: String)
        ensures
            url@ == self@.base_url + completions_path(),
    {
        join(self.config.base_url.as_str(), "/chat/completions")
    }

    /// Value of the authorization header.
    pub fn authorization(&self) -> (header: String)
        ensures
            header@ == bearer(self@.api_key),
    {
        join("Bearer ", self.config.api_key.as_str())
    }

    /// Body of the request that carries `history` and offers `tools`.
    pub fn request(&self, history: &Vec<Message>, tools: &Vec<Tool>, stream: bool) -> (request:
        ChatRequest)
        ensures
            request@ == ChatRequestView::build(
                self@.model_name,
                history.deep_view(),
                tools.deep_view(),
                stream,
            ),
    {
        ChatRequest::build(self.config.model_name.as_str(), history, tools, stream)
    }
}

} // verus!
