//! Which provider is in use, and with which key.

use crate::api::deepseek::clone_text;
use crate::api::unified::{ModelConfig, ModelConfigView, ModelProvider};
use crate::text::same_text;
use vstd::prelude::*;

verus! {

/// The stored settings: the chosen provider by name, and the keys on file.
#[derive(Debug, PartialEq, Eq)]
pub struct ModelSettings {
    pub provider: String,
    pub deepseek_key: Option<String>,
    pub qwen_key: Option<String>,
}

impl Clone for ModelSettings {
    fn clone(&self) -> (copy: Self)
        ensures
            copy.provider@ == self.provider@,
            copy.deepseek_key.deep_view() == self.deepseek_key.deep_view(),
            copy.qwen_key.deep_view() == self.qwen_key.deep_view(),
    {
        ModelSettings {
            provider: self.provider.clone(),
            deepseek_key: clone_text(&self.deepseek_key),
            qwen_key: clone_text(&self.qwen_key),
        }
    }
}

/// The provider that a stored name stands for: Qwen for `"qwen"`, DeepSeek
/// for every other name.
pub open spec fn named_provider(name: Seq<char>) -> ModelProvider {
    if name == "qwen"@ {
        ModelProvider::Qwen
    } else {
        ModelProvider::DeepSeek
    }
}

/// The name that a provider is stored under.
pub open spec fn stored_name(provider: ModelProvider) -> Seq<char> {
    match provider {
        ModelProvider::DeepSeek => "deepseek"@,
        ModelProvider::Qwen => "qwen"@,
    }
}

/// The provider that a stored name stands for.
pub fn provider_from_name(name: &str) -> (provider: ModelProvider)
    ensures
        provider == named_provider(name@),
{
    if same_text(name, "qwen") {
        ModelProvider::Qwen
    } else {
        ModelProvider::DeepSeek
    }
}

/// The name that a provider is stored under.
pub fn provider_name(provider: ModelProvider) -> (name: String)
    ensures
        name@ == stored_name(provider),
{
    match provider {
        ModelProvider::DeepSeek => "deepseek".to_owned(),
        ModelProvider::Qwen => "qwen".to_owned(),
    }
}

/// Storing a provider and reading it back gives the same provider.
pub proof fn lemma_provider_name_round_trip(provider: ModelProvider)
    ensures
        named_provider(stored_name(provider)) == provider,
{
    reveal_strlit("deepseek");
    reveal_strlit("qwen");
    assert("deepseek"@.len() == 8);
    assert("qwen"@.len() == 4);
}

/// The error for a provider that has no key.
pub open spec fn missing_key(provider: ModelProvider) -> Seq<char> {
    match provider {
        ModelProvider::DeepSeek => "DeepSeek API key not set"@,
        ModelProvider::Qwen => "Qwen API key not set"@,
    }
}

impl ModelSettings {
    /// The settings as read from the store: without a stored provider name,
    /// the provider is `"deepseek"`.
    pub fn stored(
        provider: Option<String>,
        deepseek_key: Option<String>,
        qwen_key: Option<String>,
    ) -> (settings: Self)
        ensures
            settings.provider@ == match provider {
                Some(name) => name@,
                None => "deepseek"@,
            },
            settings.deepseek_key == deepseek_key,
            settings.qwen_key == qwen_key,
    {
        let provider = match provider {
            Some(name) => name,
            None => "deepseek".to_owned(),
        };
        ModelSettings { provider, deepseek_key, qwen_key }
    }
}

/// The configuration of `provider`: with the key just `given`, else with
/// the key `stored` earlier, and an error if there is neither.
pub fn resolve_config(provider: ModelProvider, given: Option<String>, stored: Option<String>) -> (config:
    Result<ModelConfig, String>)
    ensures
        match (given, stored) {
            (Some(key), _) => config matches Ok(c) && c@ == configured(provider, key@),
            (None, Some(key)) => config matches Ok(c) && c@ == configured(provider, key@),
            (None, None) => config matches Err(e) && e@ == missing_key(provider),
        },
{
    let key = match given {
        Some(key) => Some(key),
        None => stored,
    };
    match key {
        Some(key) => Ok(
            match provider {
                ModelProvider::DeepSeek => ModelConfig::deepseek(key),
                ModelProvider::Qwen => ModelConfig::qwen(key),
            },
        ),
        None => Err(
            match provider {
                ModelProvider::DeepSeek => "DeepSeek API key not set".to_owned(),
                ModelProvider::Qwen => "Qwen API key not set".to_owned(),
            },
        ),
    }
}

/// The configuration of `provider` with the token `api_key`.
pub open spec fn configured(provider: ModelProvider, api_key: Seq<char>) -> ModelConfigView {
    match provider {
        ModelProvider::DeepSeek => ModelConfigView::deepseek(api_key),
        ModelProvider::Qwen => ModelConfigView::qwen(api_key),
    }
}

} // verus!
