//! Which model is served by which provider, and with which key.

use vstd::prelude::*;

verus! {

/// The models that requests are made to.
#[derive(Clone, Copy, Debug, PartialEq, Eq, Structural)]
pub enum LLMType {
    O3MiniHigh,
    Gpt4O,
    ClaudeSonnet,
    DeepSeekR1,
}

/// The services that models are reached through.
#[derive(Clone, Copy, Debug, PartialEq, Eq, Structural)]
pub enum LLMProvider {
    OpenAI,
    Anthropic,
    FireworksAI,
}

/// A key for one of the providers.
#[derive(Debug)]
pub enum LLMProviderAPIKeys {
    OpenAI { api_key: String },
    Anthropic { api_key: String },
    FireworksAI { api_key: String },
}

/// Everything that is needed to reach a model.
#[derive(Debug)]
pub struct LLMProperties {
    pub llm: LLMType,
    pub provider: LLMProvider,
    pub api_key: LLMProviderAPIKeys,
}

/// Why a model cannot be reached.
#[derive(Clone, Copy, Debug, PartialEq, Eq, Structural)]
pub enum ConfigError {
    /// No provider is named for the model.
    ModelNotConfigured(LLMType),
    /// The model's provider has no key.
    UnconfiguredProvider,
}

impl LLMType {
    /// The model's name.
    pub open spec fn spec_name(self) -> Seq<char> {
        match self {
            LLMType::O3MiniHigh => "O3MiniHigh"@,
            LLMType::Gpt4O => "Gpt4O"@,
            LLMType::ClaudeSonnet => "ClaudeSonnet"@,
            LLMType::DeepSeekR1 => "DeepSeekR1"@,
        }
    }

    /// The model's name.
    pub fn name(self) -> (name: &'static str)
        ensures
            name@ == self.spec_name(),
    {
        match self {
            LLMType::O3MiniHigh => "O3MiniHigh",
            LLMType::Gpt4O => "Gpt4O",
            LLMType::ClaudeSonnet => "ClaudeSonnet",
            LLMType::DeepSeekR1 => "DeepSeekR1",
        }
    }
}

impl ConfigError {
    /// The error in words.
    pub open spec fn spec_message(self) -> Seq<char> {
        match self {
            ConfigError::ModelNotConfigured(llm) => {
                "model "@ + llm.spec_name() + " not configure"@
            },
            ConfigError::UnconfiguredProvider => "unconfigured provider"@,
        }
    }

    /// The error in words.
    pub fn message(&self) -> (text: String)
        ensures
            text@ == self.spec_message(),
    {
        match self {
            ConfigError::ModelNotConfigured(llm) => {
                let mut text = "model ".to_owned();
                text.append(llm.name());
                text.append(" not configure");
                text
            },
            ConfigError::UnconfiguredProvider => "unconfigured provider".to_owned(),
        }
    }
}

impl LLMProviderAPIKeys {
    /// The provider that the key is for.
    pub open spec fn spec_provider_type(self) -> LLMProvider {
        match self {
            LLMProviderAPIKeys::OpenAI { .. } => LLMProvider::OpenAI,
            LLMProviderAPIKeys::Anthropic { .. } => LLMProvider::Anthropic,
            LLMProviderAPIKeys::FireworksAI { .. } => LLMProvider::FireworksAI,
        }
    }

    /// The provider that the key is for.
    pub fn provider_type(&self) -> (provider: LLMProvider)
        ensures
            provider == self.spec_provider_type(),
    {
        match self {
            LLMProviderAPIKeys::OpenAI { .. } => LLMProvider::OpenAI,
            LLMProviderAPIKeys::Anthropic { .. } => LLMProvider::Anthropic,
            LLMProviderAPIKeys::FireworksAI { .. } => LLMProvider::FireworksAI,
        }
    }
}

impl Clone for LLMProviderAPIKeys {
    fn clone(&self) -> (copy: Self)
        ensures
            copy == *self,
    {
        match self {
            LLMProviderAPIKeys::OpenAI { api_key } => LLMProviderAPIKeys::OpenAI {
                api_key: api_key.clone(),
            },
            LLMProviderAPIKeys::Anthropic { api_key } => LLMProviderAPIKeys::Anthropic {
                api_key: api_key.clone(),
            },
            LLMProviderAPIKeys::FireworksAI { api_key } => LLMProviderAPIKeys::FireworksAI {
                api_key: api_key.clone(),
            },
        }
    }
}

/// A table from models to providers that names each model at most once.
#[derive(Debug)]
pub struct ModelTable {
    entries: Vec<(LLMType, LLMProvider)>,
}

/// The provider that the last entry for `llm` names.
spec fn entry_for(entries: Seq<(LLMType, LLMProvider)>, llm: LLMType) -> Option<LLMProvider>
    decreases entries.len(),
{
    if entries.len() == 0 {
        None
    } else if entries.last().0 == llm {
        Some(entries.last().1)
    } else {
        entry_for(entries.drop_last(), llm)
    }
}

impl View for ModelTable {
    type V = Map<LLMType, LLMProvider>;

    closed spec fn view(&self) -> Map<LLMType, LLMProvider> {
        Map::new(
            |llm: LLMType| entry_for(self.entries@, llm) is Some,
            |llm: LLMType| entry_for(self.entries@, llm)->0,
        )
    }
}

proof fn entry_at(entries: Seq<(LLMType, LLMProvider)>, i: int)
    requires
        0 <= i < entries.len(),
        forall|j: int, k: int|
            0 <= j < k < entries.len() ==> (#[trigger] entries[j]).0 != (#[trigger] entries[k]).0,
    ensures
        entry_for(entries, entries[i].0) == Some(entries[i].1),
    decreases entries.len(),
{
    if i < entries.len() - 1 {
        assert(entries[i].0 != entries[entries.len() - 1].0);
        entry_at(entries.drop_last(), i);
    }
}

proof fn entry_absent(entries: Seq<(LLMType, LLMProvider)>, llm: LLMType)
    requires
        forall|j: int| 0 <= j < entries.len() ==> (#[trigger] entries[j]).0 != llm,
    ensures
        entry_for(entries, llm) is None,
    decreases entries.len(),
{
    if entries.len() > 0 {
        assert(entries[entries.len() - 1].0 != llm);
        entry_absent(entries.drop_last(), llm);
    }
}

impl ModelTable {
    /// No model stands in two entries.
    #[verifier::type_invariant]
    spec fn one_entry_per_model(self) -> bool {
        forall|i: int, j: int|
            0 <= i < j < self.entries.len() ==> (#[trigger] self.entries[i]).0 != (
            #[trigger] self.entries[j]).0
    }

    /// A table without entries.
    pub fn new() -> (table: Self)
        ensures
            table@ == Map::<LLMType, LLMProvider>::empty(),
    {
        let table = ModelTable { entries: Vec::new() };
        assert(table@ =~= Map::<LLMType, LLMProvider>::empty());
        table
    }

    /// The provider of `llm`, if the table names one.
    pub fn get(&self, llm: LLMType) -> (provider: Option<LLMProvider>)
        ensures
            provider == (if self@.contains_key(llm) {
                Some(self@[llm])
            } else {
                None
            }),
    {
        proof {
            use_type_invariant(self);
        }
        for i in 0..self.entries.len()
            invariant
                forall|j: int| 0 <= j < i ==> (#[trigger] self.entries[j]).0 != llm,
                self.one_entry_per_model(),
        {
            if self.entries[i].0 == llm {
                proof {
                    entry_at(self.entries@, i as int);
                }
                return Some(self.entries[i].1);
            }
        }
        proof {
            entry_absent(self.entries@, llm);
        }
        None
    }

    /// The table with `llm` served by `provider`, whatever it named before.
    pub fn with(self, llm: LLMType, provider: LLMProvider) -> (table: Self)
        ensures
            table@ == self@.insert(llm, provider),
    {
        proof {
            use_type_invariant(&self);
        }
        let mut kept: Vec<(LLMType, LLMProvider)> = Vec::new();
        for i in 0..self.entries.len()
            invariant
                self.one_entry_per_model(),
                forall|j: int, k: int|
                    0 <= j < k < kept.len() ==> (#[trigger] kept[j]).0 != (#[trigger] kept[k]).0,
                forall|j: int| 0 <= j < kept.len() ==> (#[trigger] kept[j]).0 != llm,
                forall|j: int, k: int|
                    0 <= j < kept.len() && i <= k < self.entries.len() ==> (#[trigger] kept[j]).0
                        != (#[trigger] self.entries[k]).0,
                forall|m: LLMType|
                    m != llm ==> #[trigger] entry_for(kept@, m) == entry_for(
                        self.entries@.take(i as int),
                        m,
                    ),
        {
            let entry = self.entries[i];
            let ghost before = kept@;
            if entry.0 != llm {
                kept.push(entry);
                assert(kept@.drop_last() =~= before);
            }
            proof {
                let taken = self.entries@.take(i + 1);
                assert(taken.drop_last() =~= self.entries@.take(i as int));
                assert(taken.last() == entry);
                assert forall|m: LLMType| m != llm implies #[trigger] entry_for(kept@, m)
                    == entry_for(taken, m) by {
                    assert(entry_for(before, m) == entry_for(taken.drop_last(), m));
                }
            }
        }
        assert(self.entries@.take(self.entries.len() as int) =~= self.entries@);
        let ghost before = kept@;
        kept.push((llm, provider));
        assert(kept@.drop_last() =~= before);
        let table = ModelTable { entries: kept };
        assert forall|m: LLMType| m != llm implies #[trigger] entry_for(table.entries@, m)
            == entry_for(self.entries@, m) by {
            assert(entry_for(before, m) == entry_for(self.entries@, m));
        }
        assert(table@ =~= self@.insert(llm, provider));
        table
    }
}

impl Clone for ModelTable {
    fn clone(&self) -> (copy: Self)
        ensures
            copy@ == self@,
    {
        proof {
            use_type_invariant(self);
        }
        let mut entries: Vec<(LLMType, LLMProvider)> = Vec::new();
        for i in 0..self.entries.len()
            invariant
                entries@ == self.entries@.take(i as int),
        {
            entries.push(self.entries[i]);
            assert(entries@ =~= self.entries@.take(i + 1));
        }
        assert(entries@ =~= self.entries@);
        ModelTable { entries }
    }
}

/// The models in use and the keys at hand.
#[derive(Debug)]
pub struct LLMClientConfig {
    pub models: ModelTable,
    pub providers: Vec<LLMProviderAPIKeys>,
}

impl Clone for LLMClientConfig {
    fn clone(&self) -> (copy: Self)
        ensures
            copy.models@ == self.models@,
            copy.providers@ == self.providers@,
    {
        let mut providers: Vec<LLMProviderAPIKeys> = Vec::new();
        for i in 0..self.providers.len()
            invariant
                providers@ == self.providers@.take(i as int),
        {
            providers.push(self.providers[i].clone());
            assert(providers@ =~= self.providers@.take(i + 1));
        }
        assert(providers@ =~= self.providers@);
        LLMClientConfig { models: self.models.clone(), providers }
    }
}

/// The first of `keys` that is for `provider`.
pub open spec fn first_key(
    keys: Seq<LLMProviderAPIKeys>,
    provider: LLMProvider,
) -> Option<LLMProviderAPIKeys>
    decreases keys.len(),
{
    if keys.len() == 0 {
        None
    } else if keys.first().spec_provider_type() == provider {
        Some(keys.first())
    } else {
        first_key(keys.drop_first(), provider)
    }
}

impl LLMClientConfig {
    /// How `llm` is reached: through the provider that the table names for it,
    /// with the first key for that provider.
    pub open spec fn spec_config_for_llm(self, llm: LLMType) -> Result<LLMProperties, ConfigError> {
        if !self.models@.contains_key(llm) {
            Err(ConfigError::ModelNotConfigured(llm))
        } else {
            let provider = self.models@[llm];
            match first_key(self.providers@, provider) {
                None => Err(ConfigError::UnconfiguredProvider),
                Some(api_key) => Ok(LLMProperties { llm, provider, api_key }),
            }
        }
    }

    /// How `llm` is reached, or why it cannot be.
    pub fn config_for_llm(&self, llm: LLMType) -> (r: Result<LLMProperties, ConfigError>)
        ensures
            r == self.spec_config_for_llm(llm),
    {
        let provider = match self.models.get(llm) {
            Some(provider) => provider,
            None => {
                return Err(ConfigError::ModelNotConfigured(llm));
            },
        };
        assert(self.providers@.skip(0) =~= self.providers@);
        for i in 0..self.providers.len()
            invariant
                self.models@.contains_key(llm),
                self.models@[llm] == provider,
                first_key(self.providers@, provider) == first_key(
                    self.providers@.skip(i as int),
                    provider,
                ),
        {
            let ghost rest = self.providers@.skip(i as int);
            assert(rest.first() == self.providers[i as int]);
            assert(rest.drop_first() =~= self.providers@.skip(i + 1));
            if self.providers[i].provider_type() == provider {
                return Ok(LLMProperties { llm, provider, api_key: self.providers[i].clone() });
            }
        }
        Err(ConfigError::UnconfiguredProvider)
    }

    /// Whether this is the configuration with the standard models and these keys.
    pub open spec fn is_standard(
        self,
        openai: String,
        anthropic: String,
        fireworks: Option<String>,
    ) -> bool {
        &&& self.models@ == map![
            LLMType::O3MiniHigh => LLMProvider::OpenAI,
            LLMType::Gpt4O => LLMProvider::OpenAI,
            LLMType::ClaudeSonnet => LLMProvider::Anthropic,
            LLMType::DeepSeekR1 => LLMProvider::FireworksAI
        ]
        &&& self.providers@ == seq![
            LLMProviderAPIKeys::OpenAI { api_key: openai },
            LLMProviderAPIKeys::Anthropic { api_key: anthropic },
        ] + (match fireworks {
            Some(key) => seq![LLMProviderAPIKeys::FireworksAI { api_key: key }],
            None => seq![],
        })
    }

    /// The standard models, with a key for OpenAI, one for Anthropic and, if
    /// there is one, one for Fireworks.
    pub fn from_api_keys(openai: String, anthropic: String, fireworks: Option<String>) -> (config:
        Self)
        ensures
            config.is_standard(openai, anthropic, fireworks),
    {
        let models = ModelTable::new().with(LLMType::O3MiniHigh, LLMProvider::OpenAI).with(
            LLMType::Gpt4O,
            LLMProvider::OpenAI,
        ).with(LLMType::ClaudeSonnet, LLMProvider::Anthropic).with(
            LLMType::DeepSeekR1,
            LLMProvider::FireworksAI,
        );
        let mut providers: Vec<LLMProviderAPIKeys> = Vec::new();
        providers.push(LLMProviderAPIKeys::OpenAI { api_key: openai });
        providers.push(LLMProviderAPIKeys::Anthropic { api_key: anthropic });
        if let Some(key) = fireworks {
            providers.push(LLMProviderAPIKeys::FireworksAI { api_key: key });
        }
        let config = LLMClientConfig { models, providers };
        assert(config.is_standard(openai, anthropic, fireworks)) by {
            assert(config.providers@ =~= seq![
                LLMProviderAPIKeys::OpenAI { api_key: openai },
                LLMProviderAPIKeys::Anthropic { api_key: anthropic },
            ] + (match fireworks {
                Some(key) => seq![LLMProviderAPIKeys::FireworksAI { api_key: key }],
                None => seq![],
            }));
            assert(config.models@ =~= map![
                LLMType::O3MiniHigh => LLMProvider::OpenAI,
                LLMType::Gpt4O => LLMProvider::OpenAI,
                LLMType::ClaudeSonnet => LLMProvider::Anthropic,
                LLMType::DeepSeekR1 => LLMProvider::FireworksAI
            ]);
        }
        config
    }
}

/// What is found for a model is for that model, through the provider that the
/// table names, with a key for that same provider out of the keys at hand.
pub proof fn properties_agree_with_the_configuration(config: LLMClientConfig, llm: LLMType)
    ensures
        config.spec_config_for_llm(llm) matches Ok(properties) ==> {
            &&& properties.llm == llm
            &&& config.models@.contains_key(llm) && properties.provider == config.models@[llm]
            &&& properties.api_key.spec_provider_type() == properties.provider
            &&& config.providers@.contains(properties.api_key)
        },
{
    if config.models@.contains_key(llm) {
        first_key_is_at_hand(config.providers@, config.models@[llm]);
    }
}

proof fn first_key_is_at_hand(keys: Seq<LLMProviderAPIKeys>, provider: LLMProvider)
    ensures
        first_key(keys, provider) matches Some(key) ==> keys.contains(key)
            && key.spec_provider_type() == provider,
        first_key(keys, provider) is None ==> forall|i: int|
            0 <= i < keys.len() ==> (#[trigger] keys[i]).spec_provider_type() != provider,
    decreases keys.len(),
{
    if keys.len() > 0 {
        let rest = keys.drop_first();
        first_key_is_at_hand(rest, provider);
        if keys.first().spec_provider_type() == provider {
            assert(keys[0] == keys.first());
        } else if let Some(key) = first_key(rest, provider) {
            let i = choose|i: int| 0 <= i < rest.len() && rest[i] == key;
            assert(keys[i + 1] == key);
        } else {
            assert forall|i: int| 0 <= i < keys.len() implies (
            #[trigger] keys[i]).spec_provider_type() != provider by {
                if i > 0 {
                    assert(rest[i - 1].spec_provider_type() != provider);
                }
            }
        }
    }
}

/// A model is refused for want of a provider exactly if no key at hand is for
/// the provider that the table names for it.
pub proof fn refused_for_want_of_a_key(config: LLMClientConfig, llm: LLMType)
    ensures
        config.spec_config_for_llm(llm) == Err::<LLMProperties, ConfigError>(
            ConfigError::UnconfiguredProvider,
        ) <==> config.models@.contains_key(llm) && forall|i: int|
            0 <= i < config.providers.len() ==> (
            #[trigger] config.providers[i]).spec_provider_type() != config.models@[llm],
{
    if config.models@.contains_key(llm) {
        first_key_is_at_hand(config.providers@, config.models@[llm]);
    }
}

/// A configuration with the standard models, an OpenAI and an Anthropic key
/// reaches every model but the Fireworks one, which it reaches exactly if it
/// has a Fireworks key.
pub proof fn standard_models_are_reachable(
    config: LLMClientConfig,
    openai: String,
    anthropic: String,
    fireworks: Option<String>,
)
    requires
        config.is_standard(openai, anthropic, fireworks),
    ensures
        config.spec_config_for_llm(LLMType::O3MiniHigh) == Ok::<LLMProperties, ConfigError>(
            LLMProperties {
                llm: LLMType::O3MiniHigh,
                provider: LLMProvider::OpenAI,
                api_key: LLMProviderAPIKeys::OpenAI { api_key: openai },
            },
        ),
        config.spec_config_for_llm(LLMType::Gpt4O) == Ok::<LLMProperties, ConfigError>(
            LLMProperties {
                llm: LLMType::Gpt4O,
                provider: LLMProvider::OpenAI,
                api_key: LLMProviderAPIKeys::OpenAI { api_key: openai },
            },
        ),
        config.spec_config_for_llm(LLMType::ClaudeSonnet) == Ok::<LLMProperties, ConfigError>(
            LLMProperties {
                llm: LLMType::ClaudeSonnet,
                provider: LLMProvider::Anthropic,
                api_key: LLMProviderAPIKeys::Anthropic { api_key: anthropic },
            },
        ),
        config.spec_config_for_llm(LLMType::DeepSeekR1) == (match fireworks {
            Some(key) => Ok::<LLMProperties, ConfigError>(
                LLMProperties {
                    llm: LLMType::DeepSeekR1,
                    provider: LLMProvider::FireworksAI,
                    api_key: LLMProviderAPIKeys::FireworksAI { api_key: key },
                },
            ),
            None => Err(ConfigError::UnconfiguredProvider),
        }),
{
    reveal_with_fuel(first_key, 4);
}

/// A model is reached with the first key for its provider: no key before it is for
/// that provider.
pub proof fn the_first_key_of_the_provider_is_taken(config: LLMClientConfig, llm: LLMType)
    ensures
        config.spec_config_for_llm(llm) matches Ok(properties) ==> exists|i: int|
            0 <= i < config.providers@.len() && #[trigger] config.providers@[i]
                == properties.api_key && forall|j: int|
                0 <= j < i ==> (#[trigger] config.providers@[j]).spec_provider_type()
                    != properties.provider,
{
    if config.models@.contains_key(llm) {
        first_key_comes_first(config.providers@, config.models@[llm]);
    }
}

proof fn first_key_comes_first(keys: Seq<LLMProviderAPIKeys>, provider: LLMProvider)
    ensures
        first_key(keys, provider) matches Some(key) ==> exists|i: int|
            0 <= i < keys.len() && #[trigger] keys[i] == key && forall|j: int|
                0 <= j < i ==> (#[trigger] keys[j]).spec_provider_type() != provider,
    decreases keys.len(),
{
    if keys.len() > 0 {
        let rest = keys.drop_first();
        first_key_comes_first(rest, provider);
        if keys.first().spec_provider_type() == provider {
            assert(keys[0] == keys.first());
        } else if let Some(key) = first_key(rest, provider) {
            let i = choose|i: int|
                0 <= i < rest.len() && #[trigger] rest[i] == key && forall|j: int|
                    0 <= j < i ==> (#[trigger] rest[j]).spec_provider_type() != provider;
            assert(keys[i + 1] == key);
            assert forall|j: int| 0 <= j < i + 1 implies (
            #[trigger] keys[j]).spec_provider_type() != provider by {
                if j > 0 {
                    assert(rest[j - 1].spec_provider_type() != provider);
                }
            }
        }
    }
}

/// A model is refused by its name exactly if the table names no provider for it.
pub proof fn refused_for_want_of_a_provider(config: LLMClientConfig, llm: LLMType)
    ensures
        config.spec_config_for_llm(llm) == Err::<LLMProperties, ConfigError>(
            ConfigError::ModelNotConfigured(llm),
        ) <==> !config.models@.contains_key(llm),
{
}

/// A key is for the provider that it is named after.
pub proof fn keys_are_for_their_provider(api_key: String)
    ensures
        (LLMProviderAPIKeys::OpenAI { api_key }).spec_provider_type() == LLMProvider::OpenAI,
        (LLMProviderAPIKeys::Anthropic { api_key }).spec_provider_type() == LLMProvider::Anthropic,
        (LLMProviderAPIKeys::FireworksAI { api_key }).spec_provider_type()
            == LLMProvider::FireworksAI,
{
}

/// Every model has a name of its own, and the refusal of a model holds its name.
pub proof fn refusals_name_the_model(llm: LLMType, other: LLMType)
    ensures
        llm != other ==> llm.spec_name() != other.spec_name(),
        ConfigError::ModelNotConfigured(llm).spec_message() == "model "@ + llm.spec_name()
            + " not configure"@,
        ConfigError::UnconfiguredProvider.spec_message() == "unconfigured provider"@,
        LLMType::O3MiniHigh.spec_name() == "O3MiniHigh"@,
        LLMType::Gpt4O.spec_name() == "Gpt4O"@,
        LLMType::ClaudeSonnet.spec_name() == "ClaudeSonnet"@,
        LLMType::DeepSeekR1.spec_name() == "DeepSeekR1"@,
{
    reveal_strlit("O3MiniHigh");
    reveal_strlit("Gpt4O");
    reveal_strlit("ClaudeSonnet");
    reveal_strlit("DeepSeekR1");
    assert("O3MiniHigh"@[0] != "DeepSeekR1"@[0]);
}

} // verus!
