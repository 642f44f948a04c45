use reasoner::models::{
    ConfigError, LLMClientConfig, LLMProvider, LLMProviderAPIKeys, LLMType, ModelTable,
};

fn key_of(keys: &LLMProviderAPIKeys) -> &str {
    match keys {
        LLMProviderAPIKeys::OpenAI { api_key } => api_key,
        LLMProviderAPIKeys::Anthropic { api_key } => api_key,
        LLMProviderAPIKeys::FireworksAI { api_key } => api_key,
    }
}

#[test]
fn the_last_provider_of_a_model_counts() {
    let table = ModelTable::new()
        .with(LLMType::Gpt4O, LLMProvider::OpenAI)
        .with(LLMType::ClaudeSonnet, LLMProvider::Anthropic)
        .with(LLMType::Gpt4O, LLMProvider::FireworksAI);
    assert_eq!(table.get(LLMType::Gpt4O), Some(LLMProvider::FireworksAI));
    assert_eq!(table.get(LLMType::ClaudeSonnet), Some(LLMProvider::Anthropic));
    assert_eq!(table.get(LLMType::DeepSeekR1), None);
    assert_eq!(ModelTable::new().get(LLMType::Gpt4O), None);
}

#[test]
fn the_first_key_of_the_right_provider_is_taken() {
    let config = LLMClientConfig {
        models: ModelTable::new().with(LLMType::ClaudeSonnet, LLMProvider::Anthropic),
        providers: vec![
            LLMProviderAPIKeys::OpenAI { api_key: "o".to_string() },
            LLMProviderAPIKeys::Anthropic { api_key: "a1".to_string() },
            LLMProviderAPIKeys::Anthropic { api_key: "a2".to_string() },
        ],
    };
    let found = config.config_for_llm(LLMType::ClaudeSonnet).unwrap();
    assert_eq!(found.llm, LLMType::ClaudeSonnet);
    assert_eq!(found.provider, LLMProvider::Anthropic);
    assert_eq!(key_of(&found.api_key), "a1");
    assert_eq!(found.api_key.provider_type(), LLMProvider::Anthropic);
}

#[test]
fn an_unknown_model_is_not_configured() {
    let config = LLMClientConfig { models: ModelTable::new(), providers: vec![] };
    let error = config.config_for_llm(LLMType::O3MiniHigh).unwrap_err();
    assert_eq!(error, ConfigError::ModelNotConfigured(LLMType::O3MiniHigh));
    assert_eq!(error.message(), "model O3MiniHigh not configure");
}

#[test]
fn a_model_without_a_key_has_an_unconfigured_provider() {
    let config = LLMClientConfig {
        models: ModelTable::new().with(LLMType::Gpt4O, LLMProvider::OpenAI),
        providers: vec![LLMProviderAPIKeys::Anthropic { api_key: "a".to_string() }],
    };
    let error = config.config_for_llm(LLMType::Gpt4O).unwrap_err();
    assert_eq!(error, ConfigError::UnconfiguredProvider);
    assert_eq!(error.message(), "unconfigured provider");
}

#[test]
fn the_standard_models_are_reached_with_their_keys() {
    let config = LLMClientConfig::from_api_keys("o".to_string(), "a".to_string(), None);
    assert_eq!(key_of(&config.config_for_llm(LLMType::O3MiniHigh).unwrap().api_key), "o");
    assert_eq!(key_of(&config.config_for_llm(LLMType::Gpt4O).unwrap().api_key), "o");
    assert_eq!(key_of(&config.config_for_llm(LLMType::ClaudeSonnet).unwrap().api_key), "a");
    assert_eq!(
        config.config_for_llm(LLMType::DeepSeekR1).unwrap_err(),
        ConfigError::UnconfiguredProvider
    );
    let config =
        LLMClientConfig::from_api_keys("o".to_string(), "a".to_string(), Some("f".to_string()));
    let found = config.config_for_llm(LLMType::DeepSeekR1).unwrap();
    assert_eq!(found.provider, LLMProvider::FireworksAI);
    assert_eq!(key_of(&found.api_key), "f");
}

#[test]
fn models_have_their_names() {
    assert_eq!(LLMType::O3MiniHigh.name(), "O3MiniHigh");
    assert_eq!(LLMType::Gpt4O.name(), "Gpt4O");
    assert_eq!(LLMType::ClaudeSonnet.name(), "ClaudeSonnet");
    assert_eq!(LLMType::DeepSeekR1.name(), "DeepSeekR1");
}

#[test]
fn a_copy_configures_alike() {
    let config = LLMClientConfig::from_api_keys("o".to_string(), "a".to_string(), None);
    let copy = config.clone();
    assert_eq!(copy.providers.len(), 2);
    assert_eq!(key_of(&copy.config_for_llm(LLMType::Gpt4O).unwrap().api_key), "o");
    assert_eq!(key_of(&copy.config_for_llm(LLMType::ClaudeSonnet).unwrap().api_key), "a");
    assert_eq!(
        copy.config_for_llm(LLMType::DeepSeekR1).unwrap_err(),
        ConfigError::UnconfiguredProvider
    );
}
